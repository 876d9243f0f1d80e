//! A verified core for viewing a target machine's physical memory through the
//! WinIo kernel driver's control interface.
//!
//! The library owns everything that can be stated and proved about the
//! protocol: the fixed 40-byte request record and its byte layout, the
//! construction of map and unmap requests, the interpretation of the driver's
//! responses, and the pairing discipline that ties every successful map to
//! exactly one unmap. The raw OS calls (opening the device, issuing the
//! control request) are left to the surrounding process, which hands their
//! outcomes back as plain values.

pub mod handle;
pub mod mapper;
pub mod record;
