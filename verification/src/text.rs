//! Small text operations over the character view of strings.

use vstd::prelude::*;
use vstd::string::*;

verus! {

/// Tells whether `text` begins with `prefix`, character by character.
pub fn has_prefix(text: &str, prefix: &str) -> (found: bool)
    ensures
        found == prefix@.is_prefix_of(text@),
{
    let prefix_len: usize = prefix.unicode_len();
    let text_len: usize = text.unicode_len();
    if text_len < prefix_len {
        return false;
    }
    let mut i: usize = 0;
    while i < prefix_len
        invariant
            i <= prefix_len,
            prefix_len == prefix@.len(),
            text_len == text@.len(),
            prefix_len <= text_len,
            forall|j: int| 0 <= j < i ==> text@[j] == prefix@[j],
        decreases prefix_len - i,
    {
        if text.get_char(i) != prefix.get_char(i) {
            assert(text@.subrange(0, prefix_len as int)[i as int] != prefix@[i as int]);
            return false;
        }
        i += 1;
    }
    assert(text@.subrange(0, prefix_len as int) =~= prefix@);
    true
}

/// Returns what follows the first `count` characters of `text`.
pub fn skip_chars(text: &str, count: usize) -> (rest: String)
    requires
        count <= text@.len(),
    ensures
        rest@ == text@.skip(count as int),
{
    let text_len: usize = text.unicode_len();
    let tail = text.substring_char(count, text_len);
    String::from_str(tail)
}

} // verus!
