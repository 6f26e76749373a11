use vstd::prelude::*;
use vstd::string::*;
use crate::text::{same_text, trim, trimmed};

verus! {

/// The answer typed at a free-text prompt: the line without surrounding white
/// space, or `None` when nothing is left and the prompt has to be shown again.
pub fn entered_text(line: &str) -> (r: Option<String>)
    ensures
        match r {
            Some(t) => trimmed(line@).len() > 0 && t@ == trimmed(line@),
            None => trimmed(line@).len() == 0,
        },
{
    let t = trim(line);
    if t.as_str().unicode_len() == 0 {
        None
    } else {
        Some(t)
    }
}

/// Whether the answer to the repeat prompt asks for another query: only a line that
/// is exactly `y` once surrounding white space is removed does.
pub fn continue_choice(line: &str) -> (r: bool)
    ensures
        r == (trimmed(line@) == "y"@),
{
    let t = trim(line);
    same_text(t.as_str(), "y")
}

} // verus!
