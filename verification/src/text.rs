//! Suffix tests on strings, character by character.

use vstd::prelude::*;

verus! {

/// Whether `text` ends with `suffix`.
pub fn ends_with(text: &str, suffix: &str) -> (found: bool)
    ensures
        found == suffix@.is_suffix_of(text@),
{
    let text_len: usize = text.unicode_len();
    let suffix_len: usize = suffix.unicode_len();
    if suffix_len > text_len {
        return false;
    }
    let start: usize = text_len - suffix_len;
    let mut i: usize = 0;
    while i < suffix_len
        invariant
            text_len == text@.len(),
            suffix_len == suffix@.len(),
            suffix_len <= text_len,
            start == text_len - suffix_len,
            i <= suffix_len,
            forall|j: int| 0 <= j < i ==> suffix@[j] == text@[start + j],
        decreases suffix_len - i,
    {
        if text.get_char(start + i) != suffix.get_char(i) {
            assert(suffix@[i as int] != text@.subrange(start as int, text_len as int)[i as int]);
            return false;
        }
        i = i + 1;
    }
    assert(suffix@ =~= text@.subrange(start as int, text_len as int));
    true
}

} // verus!
