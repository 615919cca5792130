//! Comparison of byte strings without a data-dependent early exit.

use vstd::prelude::*;

verus! {

/// Folding a difference into the accumulator leaves it zero exactly when it
/// was zero before and the two bytes agree.
proof fn lemma_fold_difference(acc: u8, x: u8, y: u8)
    ensures
        ((acc | (x ^ y)) == 0) <==> (acc == 0 && x == y),
{
    assert(((acc | (x ^ y)) == 0) <==> (acc == 0 && x == y)) by (bit_vector);
}

/// Tells whether `a` and `b` hold the same bytes.
///
/// Slices of different lengths are unequal. For slices of one length every
/// position is visited, whatever the bytes are.
#[inline]
pub fn constant_time_eq(a: &[u8], b: &[u8]) -> (r: bool)
    ensures
        r == (a@ == b@),
{
    if a.len() != b.len() {
        return false;
    }
    let mut res: u8 = 0;
    let mut i: usize = 0;
    while i < a.len()
        invariant
            i <= a.len(),
            a.len() == b.len(),
            (res == 0) <==> (forall|j: int| 0 <= j < i ==> a@[j] == b@[j]),
        decreases a.len() - i,
    {
        proof {
            lemma_fold_difference(res, a@[i as int], b@[i as int]);
        }
        res |= a[i] ^ b[i];
        i += 1;
    }
    assert((a@ == b@) <==> (forall|j: int| 0 <= j < a@.len() ==> a@[j] == b@[j])) by {
        if forall|j: int| 0 <= j < a@.len() ==> a@[j] == b@[j] {
            assert(a@ =~= b@);
        }
    }
    res == 0
}

} // verus!
