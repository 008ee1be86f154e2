//! Opaque response frames returned by a transport backend.

use vstd::prelude::*;

verus! {

/// Opaque response frame returned by a transport backend.
#[derive(Debug, Clone, PartialEq, Eq)]
pub struct ResponseFrame {
    bytes: Vec<u8>,
}

impl View for ResponseFrame {
    type V = Seq<u8>;

    /// The raw response bytes.
    closed spec fn view(&self) -> Seq<u8> {
        self.bytes@
    }
}

impl ResponseFrame {
    /// Create a response frame from raw bytes.
    pub fn new(bytes: Vec<u8>) -> (r: Self)
        ensures
            r@ == bytes@,
    {
        ResponseFrame { bytes }
    }

    /// Borrow the raw response bytes.
    pub fn as_bytes(&self) -> (r: &[u8])
        ensures
            r@ == self@,
    {
        self.bytes.as_slice()
    }
}

} // verus!
