//! A value read from the engine.

use vstd::prelude::*;

verus! {

/// The bytes of a value, as the engine returned them.
#[derive(Debug, PartialEq, Eq)]
pub struct DBVector {
    bytes: Vec<u8>,
}

impl View for DBVector {
    type V = Seq<u8>;

    closed spec fn view(&self) -> Seq<u8> {
        self.bytes@
    }
}

impl DBVector {
    /// Takes over the bytes of a value.
    pub fn from_c(bytes: Vec<u8>) -> (v: DBVector)
        ensures
            v@ == bytes@,
    {
        DBVector { bytes }
    }

    pub fn len(&self) -> (n: usize)
        ensures
            n == self@.len(),
    {
        self.bytes.len()
    }

    pub fn as_slice(&self) -> (s: &[u8])
        ensures
            s@ == self@,
    {
        self.bytes.as_slice()
    }

    pub fn to_vec(self) -> (v: Vec<u8>)
        ensures
            v@ == self@,
    {
        self.bytes
    }
}

} // verus!
