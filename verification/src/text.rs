//! Texts.

use vstd::prelude::*;
use vstd::utf8::*;

verus! {

/// The texts of a sequence of strings.
pub open spec fn texts(strings: Seq<String>) -> Seq<Seq<char>> {
    Seq::new(strings.len(), |i: int| strings[i]@)
}

/// True when two texts hold the same characters.
pub fn same_text(left: &str, right: &str) -> (same: bool)
    ensures
        same == (left@ == right@),
{
    let left_bytes = left.as_bytes();
    let right_bytes = right.as_bytes();
    proof {
        encode_utf8_decode_utf8(left@);
        encode_utf8_decode_utf8(right@);
    }
    if left_bytes.len() != right_bytes.len() {
        return false;
    }
    let mut i: usize = 0;
    while i < left_bytes.len()
        invariant
            i <= left_bytes@.len(),
            left_bytes@.len() == right_bytes@.len(),
            left_bytes@ == encode_utf8(left@),
            right_bytes@ == encode_utf8(right@),
            forall|j: int| 0 <= j < i ==> left_bytes@[j] == right_bytes@[j],
        decreases left_bytes@.len() - i,
    {
        if left_bytes[i] != right_bytes[i] {
            return false;
        }
        i += 1;
    }
    assert(left_bytes@ =~= right_bytes@);
    true
}

} // verus!
