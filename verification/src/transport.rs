//! Transport kinds shared by the backend implementations.

use vstd::prelude::*;

verus! {

/// Transport backend kind.
#[derive(Debug, Clone, Copy, PartialEq, Eq, Structural)]
pub enum TransportKind {
    /// Bluetooth Low Energy transport.
    Ble,
    /// USB transport.
    Usb,
}

} // verus!
