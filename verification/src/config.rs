//! The cursor store: the identifier of the most recently processed message,
//! kept as one line of structured text (`last_id = "..."`) in a small durable
//! file. The caller does the file I/O; this module frames and checks the
//! text, so that a save followed by a read gives the cursor back unchanged.

use vstd::prelude::*;
use vstd::string::*;

use crate::text::{
    chars_of, match_at, matches_at, skip_spaces, skip_spaces_exec,
};

verus! {

/// The persisted state: the identifier of the last processed message.
pub struct Config {
    pub last_id: String,
}

/// The stored text for a cursor value.
pub open spec fn spec_encode(id: Seq<char>) -> Seq<char> {
    "last_id = \""@ + id + "\"\n"@
}

/// The first position at or after `i` holding a double quote; `s.len()` if
/// there is none.
pub open spec fn end_value(s: Seq<char>, i: int) -> int
    decreases s.len() - i,
{
    if 0 <= i && i < s.len() && s[i] != '"' {
        end_value(s, i + 1)
    } else {
        i
    }
}

/// The cursor held by stored text: optional leading whitespace, the key
/// `last_id`, `=`, and a quoted value, with nothing but whitespace after the
/// closing quote. `None` when the text has any other shape.
pub open spec fn spec_decode(s: Seq<char>) -> Option<Seq<char>> {
    let i0 = skip_spaces(s, 0);
    if !match_at(s, "last_id"@, i0) {
        None
    } else {
        let i1 = skip_spaces(s, i0 + "last_id"@.len());
        if !(i1 < s.len() && s[i1] == '=') {
            None
        } else {
            let i2 = skip_spaces(s, i1 + 1);
            if !(i2 < s.len() && s[i2] == '"') {
                None
            } else {
                let v0 = i2 + 1;
                let v1 = end_value(s, v0);
                if !(v1 < s.len()) {
                    None
                } else {
                    let i3 = skip_spaces(s, v1 + 1);
                    if i3 == s.len() {
                        Some(s.subrange(v0, v1))
                    } else {
                        None
                    }
                }
            }
        }
    }
}

/// An identifier that the store holds losslessly: one with no double quote.
pub open spec fn valid_cursor(id: Seq<char>) -> bool {
    forall|i: int| 0 <= i < id.len() ==> id[i] != '"'
}

/// The first position at or after `i` that holds a double quote.
fn end_value_exec(s: &Vec<char>, i: usize) -> (r: usize)
    requires
        i <= s.len(),
    ensures
        r == end_value(s@, i as int),
        i <= r <= s.len(),
{
    let mut j: usize = i;
    while j < s.len() && s[j] != '"'
        invariant
            i <= j <= s.len(),
            end_value(s@, i as int) == end_value(s@, j as int),
        decreases s.len() - j,
    {
        j = j + 1;
    }
    j
}

impl Config {
    /// A cursor store state holding `last_id`.
    pub fn new(last_id: &str) -> (c: Config)
        ensures
            c.last_id@ == last_id@,
    {
        Config { last_id: last_id.to_owned() }
    }

    /// The identifier of the last processed message.
    pub fn get_last_id(&self) -> (r: &str)
        ensures
            r@ == self.last_id@,
    {
        self.last_id.as_str()
    }

    /// The text to persist for this state.
    pub fn encode(&self) -> (r: String)
        ensures
            r@ == spec_encode(self.last_id@),
    {
        String::from_str("last_id = \"").concat(self.last_id.as_str()).concat("\"\n")
    }

    /// Reads a state back from stored text; `None` when the text is
    /// malformed.
    pub fn decode(text: &str) -> (r: Option<Config>)
        ensures
            r is Some <==> spec_decode(text@) is Some,
            r is Some ==> r.unwrap().last_id@ == spec_decode(text@).unwrap(),
    {
        let chars = chars_of(text);
        let key = chars_of("last_id");
        let i0 = skip_spaces_exec(&chars, 0);
        if key.len() > chars.len() - i0 {
            return None;
        }
        if !matches_at(&chars, &key, i0) {
            return None;
        }
        let i1 = skip_spaces_exec(&chars, i0 + key.len());
        if !(i1 < chars.len()) {
            return None;
        }
        if chars[i1] != '=' {
            return None;
        }
        let i2 = skip_spaces_exec(&chars, i1 + 1);
        if !(i2 < chars.len()) {
            return None;
        }
        if chars[i2] != '"' {
            return None;
        }
        let v0 = i2 + 1;
        let v1 = end_value_exec(&chars, v0);
        if !(v1 < chars.len()) {
            return None;
        }
        let i3 = skip_spaces_exec(&chars, v1 + 1);
        if i3 != chars.len() {
            return None;
        }
        Some(Config { last_id: text.substring_char(v0, v1).to_owned() })
    }

    /// Get-or-create read over the store's current contents (`None` when no
    /// prior state exists). Returns the state together with text that must
    /// be persisted before the state counts as durable, or `None` when the
    /// stored text is malformed.
    pub fn load(contents: Option<&str>) -> (r: Option<(Config, Option<String>)>)
        ensures
            contents is None ==> {
                &&& r is Some
                &&& r.unwrap().0.last_id@ == "0"@
                &&& r.unwrap().1 is Some
                &&& r.unwrap().1.unwrap()@ == spec_encode("0"@)
            },
            contents is Some ==> match spec_decode(contents.unwrap()@) {
                Some(id) => {
                    &&& r is Some
                    &&& r.unwrap().0.last_id@ == id
                    &&& r.unwrap().1 is None
                },
                None => r is None,
            },
    {
        match contents {
            None => {
                let c = Config::new("0");
                let text = c.encode();
                Some((c, Some(text)))
            },
            Some(text) => match Config::decode(text) {
                Some(c) => Some((c, None)),
                None => None,
            },
        }
    }
}

proof fn lemma_end_value_scan(s: Seq<char>, i: int, e: int)
    requires
        0 <= i <= e <= s.len(),
        forall|k: int| i <= k < e ==> s[k] != '"',
        e < s.len() ==> s[e] == '"',
    ensures
        end_value(s, i) == e,
    decreases e - i,
{
    if i < e {
        lemma_end_value_scan(s, i + 1, e);
    }
}

/// Round trip of the cursor store: saving a valid identifier and reading the
/// stored text back yields the identifier unchanged.
pub proof fn lemma_store_round_trip(id: Seq<char>)
    requires
        valid_cursor(id),
    ensures
        spec_decode(spec_encode(id)) == Some(id),
{
    let s = spec_encode(id);
    reveal_strlit("last_id = \"");
    reveal_strlit("\"\n");
    reveal_strlit("last_id");
    assert(s.len() == 13 + id.len());
    assert(s[0] == 'l');
    assert(skip_spaces(s, 0) == 0);
    assert(match_at(s, "last_id"@, 0));
    assert(s[7] == ' ');
    assert(s[8] == '=');
    assert(skip_spaces(s, 8) == 8);
    assert(skip_spaces(s, 7) == 8);
    assert(s[9] == ' ');
    assert(s[10] == '"');
    assert(skip_spaces(s, 10) == 10);
    assert(skip_spaces(s, 9) == 10);
    assert(forall|k: int| 11 <= k < 11 + id.len() ==> s[k] == id[k - 11] && s[k] != '"');
    assert(s[11 + id.len() as int] == '"');
    lemma_end_value_scan(s, 11, 11 + id.len() as int);
    assert(s[12 + id.len() as int] == '\n');
    assert(skip_spaces(s, 13 + id.len() as int) == 13 + id.len());
    assert(skip_spaces(s, 12 + id.len() as int) == 13 + id.len());
    assert(s.subrange(11, 11 + id.len() as int) =~= id);
}

} // verus!
