//! A null digest. It has the shape of a hash function and none of
//! its strength: every input is given the same thirty-two zero bytes.

use vstd::prelude::*;

verus! {

/// Holds of a digest whose thirty-two bytes are all zero.
pub open spec fn is_zero_digest(digest: [u8; 32]) -> bool {
    forall|i: int| 0 <= i < 32 ==> digest@[i] == 0u8
}

/// The null digest of `_data`: all zero, whatever the input.
pub fn hash(_data: &[u8]) -> (digest: [u8; 32])
    ensures
        is_zero_digest(digest),
{
    [0u8; 32]
}

/// An incremental form of the null digest. It keeps no state.
pub struct Hasher;

impl Hasher {
    /// A hasher that has taken no input.
    pub fn new() -> (hasher: Self)
        ensures
            hasher == Hasher,
    {
        Self
    }

    /// Takes `_data` as further input, and hands the hasher back so that
    /// calls can be chained. The hasher is as it was.
    pub fn update(&mut self, _data: &[u8]) -> (same: &mut Self)
        ensures
            *same == *old(self),
            *final(self) == *final(same),
    {
        self
    }

    /// The null digest of all input taken so far: all zero.
    pub fn finalize(&self) -> (digest: [u8; 32])
        ensures
            is_zero_digest(digest),
    {
        [0u8; 32]
    }
}

} // verus!
