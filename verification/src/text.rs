//! Looking for words in a text.

use vstd::prelude::*;
use vstd::string::*;
use vstd::utf8::encode_utf8;

verus! {

/// The words stand in the text at this place, byte for byte.
pub open spec fn occurs_at(words: Seq<u8>, text: Seq<u8>, at: int) -> bool {
    &&& 0 <= at
    &&& at + words.len() <= text.len()
    &&& text.subrange(at, at + words.len()) == words
}

/// The words stand somewhere in the text.
pub open spec fn occurs_in(words: Seq<u8>, text: Seq<u8>) -> bool {
    exists|at: int| occurs_at(words, text, at)
}

/// The text contains the words: the bytes that write the words stand
/// somewhere among the bytes that write the text.
pub open spec fn contains_words(text: Seq<char>, words: Seq<char>) -> bool {
    occurs_in(encode_utf8(words), encode_utf8(text))
}

/// Tells whether the text contains the words.
pub fn mentions(text: &str, words: &str) -> (found: bool)
    ensures
        found == contains_words(text@, words@),
{
    let bytes = text.as_bytes();
    let sought = words.as_bytes();
    let n = bytes.len();
    let m = sought.len();
    if m > n {
        return false;
    }
    let mut at: usize = 0;
    while at <= n - m
        invariant
            bytes@ == text.spec_bytes(),
            sought@ == words.spec_bytes(),
            m <= n,
            n == bytes@.len(),
            m == sought@.len(),
            at <= n - m + 1,
            forall|before: int| 0 <= before < at ==> !occurs_at(sought@, bytes@, before),
        decreases n - m + 1 - at,
    {
        let mut same: usize = 0;
        while same < m && bytes[at + same] == sought[same]
            invariant
                same <= m,
                at + m <= n,
                n == bytes@.len(),
                m == sought@.len(),
                forall|i: int| 0 <= i < same ==> bytes@[at + i] == sought@[i],
            decreases m - same,
        {
            same = same + 1;
        }
        if same == m {
            assert(bytes@.subrange(at as int, at + m) =~= sought@);
            assert(occurs_at(sought@, bytes@, at as int));
            return true;
        }
        assert(bytes@.subrange(at as int, at + m)[same as int] != sought@[same as int]);
        at = at + 1;
    }
    false
}

} // verus!
