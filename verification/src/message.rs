//! The message classifier: maps a message body to a category by looking for
//! the literal tags `#idea`, `#pregunta` and `#comentario`, with a secondary
//! numeric-reference extraction for comment-tagged bodies.

use vstd::prelude::*;
use vstd::string::*;

use crate::text::{
    chars_of, contains_seq, contains_sub, end_digits, end_digits_exec, find_tag_ws, first_tag_ws,
    skip_spaces, skip_spaces_exec, spec_trim, trim_str,
};

verus! {

/// The category of an inbound message, decided by its body alone.
#[derive(Clone, Copy, Debug, PartialEq, Eq, Structural)]
pub enum Category {
    Idea,
    Question,
    Comment,
    Mention,
}

/// The tag that marks a body as belonging to `key`: `#` followed by the key.
pub open spec fn tag_of(key: Seq<char>) -> Seq<char> {
    "#"@ + key
}

/// The body contains the tag of `key`.
pub open spec fn has_tag(body: Seq<char>, key: Seq<char>) -> bool {
    contains_seq(body, tag_of(key))
}

/// Categories are tested in the fixed priority idea, question, comment;
/// a body with none of the three tags falls back to `Mention`.
pub open spec fn spec_category(body: Seq<char>) -> Category {
    if has_tag(body, "idea"@) {
        Category::Idea
    } else if has_tag(body, "pregunta"@) {
        Category::Question
    } else if has_tag(body, "comentario"@) {
        Category::Comment
    } else {
        Category::Mention
    }
}

/// The payload handed to the sinks: the trimmed body for a tagged message,
/// the body itself for a plain mention.
pub open spec fn spec_payload(body: Seq<char>) -> Seq<char> {
    if spec_category(body) == Category::Mention {
        body
    } else {
        spec_trim(body)
    }
}

/// The numeric reference extracted from a body tagged with `key`: at the
/// first occurrence of the tag that is followed by whitespace, the (possibly
/// empty) run of digits after that whitespace. `None` when no occurrence of
/// the tag is followed by whitespace.
pub open spec fn comment_reference(body: Seq<char>, key: Seq<char>) -> Option<Seq<char>> {
    match first_tag_ws(body, tag_of(key), 0) {
        None => None,
        Some(i) => {
            let j = skip_spaces(body, i + tag_of(key).len());
            Some(body.subrange(j, end_digits(body, j)))
        },
    }
}

/// The reference of a classified body: extracted only on the comment branch.
pub open spec fn spec_reference(body: Seq<char>) -> Option<Seq<char>> {
    if spec_category(body) == Category::Comment {
        comment_reference(body, "comentario"@)
    } else {
        None
    }
}

/// If the body contains `#key`, the trimmed body; `None` otherwise.
pub fn check_key(key: &str, message: &str) -> (r: Option<String>)
    ensures
        r is Some <==> has_tag(message@, key@),
        r is Some ==> r.unwrap()@ == spec_trim(message@),
{
    let tag = String::from_str("#").concat(key);
    let tag_chars = chars_of(tag.as_str());
    let msg_chars = chars_of(message);
    if contains_sub(&msg_chars, &tag_chars) {
        Some(trim_str(message))
    } else {
        None
    }
}

/// If the body contains `#key`, the extracted numeric reference (if any
/// occurrence of the tag is followed by whitespace) together with the body
/// itself; `None` when the tag is absent.
pub fn check_comment(key: &str, message: &str) -> (r: Option<(Option<String>, Option<String>)>)
    ensures
        r is Some <==> has_tag(message@, key@),
        r is Some ==> {
            let (reference, body) = r.unwrap();
            &&& body is Some && body.unwrap()@ == message@
            &&& match comment_reference(message@, key@) {
                Some(d) => reference is Some && reference.unwrap()@ == d,
                None => reference is None,
            }
        },
{
    let tag = String::from_str("#").concat(key);
    let tag_chars = chars_of(tag.as_str());
    let msg_chars = chars_of(message);
    if contains_sub(&msg_chars, &tag_chars) {
        let reference = match find_tag_ws(&msg_chars, &tag_chars) {
            Some(i) => {
                let j = skip_spaces_exec(&msg_chars, i + tag_chars.len());
                let k = end_digits_exec(&msg_chars, j);
                Some(message.substring_char(j, k).to_owned())
            },
            None => None,
        };
        Some((reference, Some(message.to_owned())))
    } else {
        None
    }
}

/// Law: a body containing exactly one recognized tag is classified under
/// that tag's category, and its payload is the trimmed body.
pub proof fn lemma_classify_single_tag(body: Seq<char>)
    ensures
        has_tag(body, "idea"@) && !has_tag(body, "pregunta"@) && !has_tag(body, "comentario"@)
            ==> spec_category(body) == Category::Idea && spec_payload(body) == spec_trim(body),
        !has_tag(body, "idea"@) && has_tag(body, "pregunta"@) && !has_tag(body, "comentario"@)
            ==> spec_category(body) == Category::Question && spec_payload(body) == spec_trim(body),
        !has_tag(body, "idea"@) && !has_tag(body, "pregunta"@) && has_tag(body, "comentario"@)
            ==> spec_category(body) == Category::Comment && spec_payload(body) == spec_trim(body),
{
}

/// Law: a body with no recognized tag falls back to `Mention`, and its
/// payload is the body unchanged.
pub proof fn lemma_classify_no_tag(body: Seq<char>)
    ensures
        !has_tag(body, "idea"@) && !has_tag(body, "pregunta"@) && !has_tag(body, "comentario"@)
            ==> spec_category(body) == Category::Mention && spec_payload(body) == body,
{
}

/// Law: the tags are tested in the fixed priority idea, question, comment.
/// A body holding the idea tag is an idea whatever else it holds; the
/// fallback category arises exactly when no tag is present.
pub proof fn lemma_classify_priority(body: Seq<char>)
    ensures
        has_tag(body, "idea"@) ==> spec_category(body) == Category::Idea,
        !has_tag(body, "idea"@) && has_tag(body, "pregunta"@) ==> spec_category(body)
            == Category::Question,
        !has_tag(body, "idea"@) && !has_tag(body, "pregunta"@) && has_tag(body, "comentario"@)
            ==> spec_category(body) == Category::Comment,
        spec_category(body) == Category::Mention <==> !has_tag(body, "idea"@) && !has_tag(
            body,
            "pregunta"@,
        ) && !has_tag(body, "comentario"@),
{
}

/// The outcome of classifying one message body.
pub struct Classification {
    pub category: Category,
    pub payload: String,
    pub reference: Option<String>,
}

/// Classifies a body: category by tag priority, payload per category, and
/// the numeric reference on the comment branch.
pub fn classify(body: &str) -> (r: Classification)
    ensures
        r.category == spec_category(body@),
        r.payload@ == spec_payload(body@),
        match spec_reference(body@) {
            Some(d) => r.reference is Some && r.reference.unwrap()@ == d,
            None => r.reference is None,
        },
{
    if let Some(payload) = check_key("idea", body) {
        Classification { category: Category::Idea, payload, reference: None }
    } else if let Some(payload) = check_key("pregunta", body) {
        Classification { category: Category::Question, payload, reference: None }
    } else if let Some(r) = check_comment("comentario", body) {
        let (reference, _) = r;
        let payload = trim_str(body);
        Classification { category: Category::Comment, payload, reference }
    } else {
        Classification { category: Category::Mention, payload: body.to_owned(), reference: None }
    }
}

} // verus!
