//! The device handle that pairs a transport with the IQOS operations.

use vstd::prelude::*;

verus! {

/// IQOS device handle around a transport implementation.
#[derive(Debug)]
pub struct Iqos<T> {
    transport: T,
}

impl<T> View for Iqos<T> {
    type V = T;

    /// The transport held by the handle.
    closed spec fn view(&self) -> T {
        self.transport
    }
}

impl<T> Iqos<T> {
    /// Create a device handle around a transport implementation.
    pub fn new(transport: T) -> (r: Self)
        ensures
            r@ == transport,
    {
        Iqos { transport }
    }

    /// Borrow the underlying transport.
    pub fn transport(&self) -> (r: &T)
        ensures
            *r == self@,
    {
        &self.transport
    }

    /// Mutably borrow the underlying transport.
    pub fn transport_mut(&mut self) -> (r: &mut T)
        ensures
            *r == old(self)@,
            final(self)@ == *final(r),
    {
        &mut self.transport
    }
}

} // verus!
