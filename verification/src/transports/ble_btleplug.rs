//! The btleplug BLE backend scaffold.

use vstd::prelude::*;

use crate::error::Error;
use crate::transport::TransportKind;

verus! {

/// Placeholder btleplug-backed BLE transport; its requests and sends are not
/// implemented yet.
#[derive(Debug)]
pub struct BtleplugTransport;

impl Default for BtleplugTransport {
    fn default() -> (r: Self)
        ensures
            r == BtleplugTransport,
    {
        BtleplugTransport
    }
}

impl BtleplugTransport {
    /// The kind of this transport: BLE.
    pub fn kind(&self) -> (r: TransportKind)
        ensures
            r == TransportKind::Ble,
    {
        TransportKind::Ble
    }

    /// The error that every request and send of the scaffold reports.
    pub fn unimplemented_error(&self) -> (r: Error)
        ensures
            r.is_unsupported("btleplug transport scaffold is not implemented yet"@),
    {
        Error::Unsupported(String::from_str("btleplug transport scaffold is not implemented yet"))
    }
}

} // verus!
