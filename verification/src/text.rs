//! Operations on text that the rest of the library shares.

use vstd::prelude::*;
use vstd::string::*;

verus! {

/// Whether `text` begins with `prefix`.
pub open spec fn has_prefix(text: Seq<char>, prefix: Seq<char>) -> bool {
    prefix.len() <= text.len() && text.subrange(0, prefix.len() as int) == prefix
}

/// What follows the first `count` characters of `text`.
pub open spec fn after(text: Seq<char>, count: nat) -> Seq<char> {
    text.subrange(count as int, text.len() as int)
}

/// Removes `prefix` from the front of `text`, if `text` begins with it.
pub fn strip_prefix(text: &str, prefix: &str) -> (rest: Option<String>)
    ensures
        match rest {
            Some(rest) => has_prefix(text@, prefix@) && rest@ == after(text@, prefix@.len()),
            None => !has_prefix(text@, prefix@),
        },
{
    let length = text.unicode_len();
    let skipped = prefix.unicode_len();
    if length < skipped {
        return None;
    }
    let head = String::from_str(text.substring_char(0, skipped));
    if head == String::from_str(prefix) {
        Some(String::from_str(text.substring_char(skipped, length)))
    } else {
        None
    }
}

/// Whether two texts hold the same characters.
pub fn same_text(left: &str, right: &str) -> (same: bool)
    ensures
        same == (left@ == right@),
{
    String::from_str(left) == String::from_str(right)
}

} // verus!
