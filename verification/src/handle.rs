//! The raw device handle that a channel to the driver is built on.
//!
//! The handle is held as its raw numeric value. Zero is the null handle,
//! which names no device object; any non-zero value may name one. The
//! surrounding process converts between this value and the OS handle type
//! when it opens or closes the device.

use vstd::prelude::*;

verus! {

/// A raw OS handle value. Zero is null; a channel built on a null handle is
/// not open and every request on it is refused before any control call is
/// issued.
#[derive(Clone, Copy, Debug, PartialEq, Eq, Structural)]
pub struct RawHandle(pub u64);

impl RawHandle {
    /// Wraps a raw handle value as returned by the OS open call.
    pub fn new(value: u64) -> (r: Self)
        ensures
            r.0 == value,
    {
        RawHandle(value)
    }

    /// The null handle: names no device object.
    pub fn null() -> (r: Self)
        ensures
            r.0 == 0,
    {
        RawHandle(0)
    }

    /// The raw numeric value, for handing back to OS calls.
    pub fn handle(&self) -> (r: u64)
        ensures
            r == self.0,
    {
        self.0
    }

    /// True exactly when this is the null handle.
    pub fn is_null(&self) -> (r: bool)
        ensures
            r == (self.0 == 0),
    {
        self.0 == 0
    }

    /// True exactly when this is not the null handle.
    pub fn is_valid(&self) -> (r: bool)
        ensures
            r == (self.0 != 0),
    {
        self.0 != 0
    }
}

impl Default for RawHandle {
    /// The default handle is null.
    fn default() -> (r: Self)
        ensures
            r.0 == 0,
    {
        RawHandle(0)
    }
}

} // verus!
