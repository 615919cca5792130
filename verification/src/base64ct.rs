//! A null text encoding. It has the shape of Base64 and carries no
//! data: every input encodes to the empty string, and every text decodes
//! to no bytes.

use vstd::prelude::*;

verus! {

/// The null encoding.
pub struct Base64;

impl Base64 {
    /// The null encoding of `_bytes`: the empty string.
    pub fn encode_string(_bytes: &[u8]) -> (text: String)
        ensures
            text@ == Seq::<char>::empty(),
    {
        String::new()
    }

    /// The null decoding of `_s`: always succeeds, with no bytes.
    pub fn decode_vec(_s: &str) -> (r: Result<Vec<u8>, ()>)
        ensures
            r is Ok,
            r->Ok_0@ == Seq::<u8>::empty(),
    {
        Ok(Vec::new())
    }
}

/// The null encoding as a trait: whatever the bytes are, the text that
/// stands for them is empty.
pub trait Encoding {
    fn encode_string(_bytes: &[u8]) -> (text: String)
        ensures
            text@ == Seq::<char>::empty(),
    {
        String::new()
    }
}

/// `Base64` is such an encoding, through the trait as by its own methods.
impl Encoding for Base64 {

}

} // verus!
