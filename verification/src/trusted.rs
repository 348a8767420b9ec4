//! The two outside computations the logic relies on: HTML-to-plain-text
//! conversion and URL percent-encoding. Each call stands behind a wrapper
//! whose contract states what the outside crate's source shows.

use vstd::prelude::*;
use vstd::string::StringSliceAdditionalSpecFns;

verus! {

/// The plain markdown text of an HTML fragment. The conversion depends on
/// the fragment's characters alone.
pub uninterp spec fn plain_text_of(s: Seq<char>) -> Seq<char>;

/// Relies on html2md::parse_html: parses the fragment as HTML and renders
/// its text as markdown, a function of the input characters alone.
#[verifier::external_body]
pub(crate) fn html_to_text(s: &str) -> (r: String)
    ensures
        r@ == plain_text_of(s@),
{
    html2md::parse_html(s)
}

/// A byte that percent-encoding passes through unchanged: an ASCII
/// alphanumeric or one of `-`, `.`, `_`, `~`.
pub open spec fn is_url_safe_byte(b: u8) -> bool {
    ||| 48 <= b <= 57
    ||| 65 <= b <= 90
    ||| 97 <= b <= 122
    ||| b == 45
    ||| b == 46
    ||| b == 95
    ||| b == 126
}

/// The uppercase hexadecimal digit for a value below sixteen.
pub open spec fn hex_upper(n: u8) -> char {
    if n < 10 {
        (48 + n) as char
    } else {
        (55 + n) as char
    }
}

/// The percent-encoding of a byte string: safe bytes stand as themselves,
/// every other byte as `%` and two uppercase hexadecimal digits.
pub open spec fn percent_encoded(bs: Seq<u8>) -> Seq<char>
    decreases bs.len(),
{
    if bs.len() == 0 {
        Seq::empty()
    } else {
        (if is_url_safe_byte(bs[0]) {
            seq![bs[0] as char]
        } else {
            seq!['%', hex_upper(bs[0] / 16), hex_upper(bs[0] % 16)]
        }) + percent_encoded(bs.drop_first())
    }
}

/// Relies on urlencoding::encode: percent-encodes every byte of the
/// string's UTF-8 form except ASCII alphanumerics and `-`, `.`, `_`, `~`,
/// with uppercase hexadecimal digits.
#[verifier::external_body]
pub(crate) fn url_encode(s: &str) -> (r: String)
    ensures
        r@ == percent_encoded(s.spec_bytes()),
{
    urlencoding::encode(s).into_owned()
}

} // verus!
