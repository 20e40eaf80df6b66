//! Case-insensitive comparison of ASCII words.
use vstd::prelude::*;

verus! {

/// The byte with ASCII upper-case letters mapped to lower case.
pub open spec fn ascii_lower(b: u8) -> u8 {
    if 65 <= b <= 90 {
        (b + 32) as u8
    } else {
        b
    }
}

/// Whether `text` and `word` are the same bytes when ASCII case is ignored.
pub open spec fn same_word(text: Seq<u8>, word: Seq<u8>) -> bool {
    &&& text.len() == word.len()
    &&& forall|i: int| 0 <= i < text.len() ==> ascii_lower(#[trigger] text[i]) == ascii_lower(
        word[i],
    )
}

/// The byte with ASCII upper-case letters mapped to lower case.
pub fn to_ascii_lower(b: u8) -> (r: u8)
    ensures
        r == ascii_lower(b),
{
    if 65 <= b && b <= 90 {
        b + 32
    } else {
        b
    }
}

/// Whether `text` is `word` when ASCII case is ignored.
pub fn matches_word(text: &[u8], word: &[u8]) -> (r: bool)
    ensures
        r == same_word(text@, word@),
{
    if text.len() != word.len() {
        return false;
    }
    let mut i: usize = 0;
    while i < text.len()
        invariant
            text@.len() == word@.len(),
            i <= text@.len(),
            forall|k: int| 0 <= k < i ==> ascii_lower(#[trigger] text@[k]) == ascii_lower(word@[k]),
        decreases text@.len() - i,
    {
        if to_ascii_lower(text[i]) != to_ascii_lower(word[i]) {
            return false;
        }
        i = i + 1;
    }
    true
}

} // verus!
