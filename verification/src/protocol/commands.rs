//! Opaque command frames passed to a transport backend.

use vstd::prelude::*;

verus! {

/// Opaque command frame passed to a transport backend.
#[derive(Debug, Clone, PartialEq, Eq)]
pub struct CommandFrame {
    bytes: Vec<u8>,
}

impl View for CommandFrame {
    type V = Seq<u8>;

    /// The raw command bytes.
    closed spec fn view(&self) -> Seq<u8> {
        self.bytes@
    }
}

impl CommandFrame {
    /// Create a command frame from raw bytes.
    pub fn new(bytes: Vec<u8>) -> (r: Self)
        ensures
            r@ == bytes@,
    {
        CommandFrame { bytes }
    }

    /// Borrow the raw command bytes.
    pub fn as_bytes(&self) -> (r: &[u8])
        ensures
            r@ == self@,
    {
        self.bytes.as_slice()
    }
}

} // verus!
