//! The physical memory mapper: typed map and unmap operations over a
//! channel to the driver.
//!
//! A map or unmap is one synchronous control call. The library splits each
//! into its verified halves: `prepare_map` / `prepare_unmap` build the exact
//! control request to issue (or refuse it while the channel is not open),
//! and `complete_map` / `complete_unmap` turn the call's outcome into a
//! [`Mapping`] or the operation's error. The surrounding process performs
//! the call itself and hands its outcome back as plain values, so every
//! decision the protocol makes is proved here, for every outcome the OS can
//! return.

use vstd::prelude::*;
use crate::handle::RawHandle;
use crate::record::{
    PhysicalMemoryIoRequest, REQUEST_RECORD_BYTES, spec_encode, spec_decode, spec_map_request,
    spec_unmap_request,
};

verus! {

/// The driver's control code for mapping physical memory. Part of the
/// driver's ABI; it must not change.
pub const IOCTL_MAP_PHYSICAL_MEMORY: u32 = 0x80102040;

/// The driver's control code for unmapping physical memory. Part of the
/// driver's ABI; it must not change.
pub const IOCTL_UNMAP_PHYSICAL_MEMORY: u32 = 0x80102044;

/// The well-known device namespace path of the driver's control endpoint.
/// A hard compatibility constant: it identifies the driver's device object
/// and is not configurable.
pub fn device_path() -> (r: &'static str)
    ensures
        r@ == "\\\\.\\WinIo"@,
{
    "\\\\.\\WinIo"
}

/// A failure of one of the three operations, carrying the address or OS
/// error code involved.
#[derive(Clone, Copy, Debug, PartialEq, Eq, Structural)]
pub enum Error {
    /// The device could not be opened: driver absent, wrong path, or access
    /// denied. Carries the OS error code of the open call.
    OpenDevice { os_error: u32 },
    /// The driver rejected a map request for this physical address.
    MapPhysicalMemory { addr: u64 },
    /// The driver rejected an unmap request for this virtual address.
    UnmapPhysicalMemory { addr: u64 },
    /// A control call failed; carries the underlying OS error code.
    IoControl { os_error: u32 },
}

/// One control request for the channel to issue: the control code, the
/// encoded request record, and whether the driver must write a response
/// record back. Input and response buffers are both exactly the record's
/// size; the driver rejects any other.
pub struct ControlRequest {
    pub code: u32,
    pub input: Vec<u8>,
    pub expect_response: bool,
}

/// What one control call came back with, as the surrounding process
/// observed it.
pub enum IoOutcome {
    /// The call completed; these are the bytes the driver wrote back
    /// (empty when no response was requested).
    Completed(Vec<u8>),
    /// The call failed with this OS error code. The driver changed no
    /// caller-visible state for the request.
    Failed(u32),
}

/// The caller-visible result of one successful map: one `Mapping` stands
/// for exactly one outstanding kernel-side mapping.
///
/// The two tokens are capabilities handed out by the driver, not addresses;
/// they are passed back unmodified by unmap and support no arithmetic. A
/// `Mapping` is consumed by `complete_unmap` — it is deliberately neither
/// `Clone` nor `Copy`, so the tokens of one map cannot be presented for a
/// second unmap.
#[derive(Debug)]
pub struct Mapping {
    /// The physical address that was requested.
    pub phys_addr: u64,
    /// The driver-assigned virtual address the region is visible at.
    pub virt_addr: u64,
    /// The size of the mapped region in bytes.
    pub size: u64,
    /// Opaque driver token needed to unmap; treat as a capability.
    pub sec_handle: u64,
    /// Opaque driver token needed to unmap; treat as a capability.
    pub obj_handle: u64,
}

/// The mapping a successful map yields: the caller's address and size, and
/// the three driver-assigned fields of the response record.
pub open spec fn spec_mapping_of(phys_addr: u64, size: u64, resp: PhysicalMemoryIoRequest) -> Mapping {
    Mapping {
        phys_addr: phys_addr,
        virt_addr: resp.virt_addr,
        size: size,
        sec_handle: resp.sec_handle,
        obj_handle: resp.obj_handle,
    }
}

/// What a map attempt yields for each outcome of its control call: a full
/// 40-byte response becomes a mapping carrying the driver's tokens; a
/// failed call, or a response of any other size, is the map error for the
/// attempted physical address — and no mapping at all.
pub open spec fn spec_map_result(phys_addr: u64, size: u64, outcome: IoOutcome) -> Result<Mapping, Error> {
    match outcome {
        IoOutcome::Completed(bytes) => if bytes@.len() == REQUEST_RECORD_BYTES {
            Ok(spec_mapping_of(phys_addr, size, spec_decode(bytes@)))
        } else {
            Err(Error::MapPhysicalMemory { addr: phys_addr })
        },
        IoOutcome::Failed(_) => Err(Error::MapPhysicalMemory { addr: phys_addr }),
    }
}

/// What an unmap attempt yields for each outcome of its control call: a
/// completed call is success; a failed call is the unmap error for the
/// virtual address whose tokens were presented.
pub open spec fn spec_unmap_result(virt_addr: u64, outcome: IoOutcome) -> Result<(), Error> {
    match outcome {
        IoOutcome::Completed(_) => Ok(()),
        IoOutcome::Failed(_) => Err(Error::UnmapPhysicalMemory { addr: virt_addr }),
    }
}

/// A channel to the driver, owning the raw value of its device handle. The
/// handle itself is opened and closed by the surrounding process; a channel
/// whose handle is null refuses every request before any control call is
/// issued.
pub struct WinIoDriver {
    /// The raw handle value of the open device, or null.
    pub handle: RawHandle,
}

impl WinIoDriver {
    /// Wraps the handle the OS open call returned. The channel is open
    /// exactly when the handle is non-null.
    pub fn from_handle(handle: RawHandle) -> (r: Self)
        ensures
            r.handle == handle,
    {
        WinIoDriver { handle }
    }

    /// True when the channel holds a non-null handle.
    pub fn is_open(&self) -> (r: bool)
        ensures
            r == (self.handle.0 != 0),
    {
        self.handle.is_valid()
    }

    /// Builds the control request for mapping `size` bytes of physical
    /// memory at `phys_addr`: the map control code, the map record's exact
    /// wire form, and a response of the record's size requested.
    ///
    /// On a channel whose handle is null the request is refused here, with
    /// the map error for the attempted address, and no control call is ever
    /// issued for it.
    pub fn prepare_map(&self, phys_addr: u64, size: u64) -> (r: Result<ControlRequest, Error>)
        ensures
            self.handle.0 == 0 ==> r == Err::<ControlRequest, Error>(
                (Error::MapPhysicalMemory { addr: phys_addr }),
            ),
            self.handle.0 != 0 ==> (r matches Ok(req)
                && req.code == IOCTL_MAP_PHYSICAL_MEMORY
                && req.input@ == spec_encode(spec_map_request(phys_addr, size))
                && req.expect_response == true),
    {
        if self.handle.is_null() {
            return Err(Error::MapPhysicalMemory { addr: phys_addr });
        }
        let record = PhysicalMemoryIoRequest::map_request(phys_addr, size);
        Ok(ControlRequest {
            code: IOCTL_MAP_PHYSICAL_MEMORY,
            input: record.encode(),
            expect_response: true,
        })
    }

    /// Turns the outcome of a map's control call into the map's result,
    /// exactly as [`spec_map_result`] states it: a full response record
    /// yields the `Mapping` carrying the driver's tokens and the caller's
    /// `phys_addr` and `size`; anything else yields the map error for
    /// `phys_addr` and no mapping.
    pub fn complete_map(&self, phys_addr: u64, size: u64, outcome: IoOutcome) -> (r: Result<Mapping, Error>)
        ensures
            r == spec_map_result(phys_addr, size, outcome),
    {
        match outcome {
            IoOutcome::Completed(bytes) => match PhysicalMemoryIoRequest::decode(bytes.as_slice()) {
                Some(resp) => Ok(Mapping {
                    phys_addr: phys_addr,
                    virt_addr: resp.virt_addr,
                    size: size,
                    sec_handle: resp.sec_handle,
                    obj_handle: resp.obj_handle,
                }),
                None => Err(Error::MapPhysicalMemory { addr: phys_addr }),
            },
            IoOutcome::Failed(_) => Err(Error::MapPhysicalMemory { addr: phys_addr }),
        }
    }

    /// Builds the control request that undoes `mapping`: the unmap control
    /// code and the unmap record's exact wire form, carrying the mapping's
    /// tokens and virtual address back to the driver unchanged; no response
    /// is requested.
    ///
    /// On a channel whose handle is null the request is refused here, with
    /// the unmap error for the mapping's virtual address.
    pub fn prepare_unmap(&self, mapping: &Mapping) -> (r: Result<ControlRequest, Error>)
        ensures
            self.handle.0 == 0 ==> r == Err::<ControlRequest, Error>(
                (Error::UnmapPhysicalMemory { addr: mapping.virt_addr }),
            ),
            self.handle.0 != 0 ==> (r matches Ok(req)
                && req.code == IOCTL_UNMAP_PHYSICAL_MEMORY
                && req.input@ == spec_encode(
                    spec_unmap_request(mapping.sec_handle, mapping.virt_addr, mapping.obj_handle),
                )
                && req.expect_response == false),
    {
        if self.handle.is_null() {
            return Err(Error::UnmapPhysicalMemory { addr: mapping.virt_addr });
        }
        let record = PhysicalMemoryIoRequest::unmap_request(
            mapping.sec_handle,
            mapping.virt_addr,
            mapping.obj_handle,
        );
        Ok(ControlRequest {
            code: IOCTL_UNMAP_PHYSICAL_MEMORY,
            input: record.encode(),
            expect_response: false,
        })
    }

    /// Turns the outcome of an unmap's control call into the unmap's
    /// result, exactly as [`spec_unmap_result`] states it.
    ///
    /// This call consumes the `Mapping`, success or failure: its tokens are
    /// spent, and the type system refuses a second unmap with them. On
    /// failure the kernel-side mapping is in an unknown state; the error
    /// names the virtual address that failed to unmap.
    pub fn complete_unmap(&self, mapping: Mapping, outcome: IoOutcome) -> (r: Result<(), Error>)
        ensures
            r == spec_unmap_result(mapping.virt_addr, outcome),
    {
        match outcome {
            IoOutcome::Completed(_) => Ok(()),
            IoOutcome::Failed(_) => Err(Error::UnmapPhysicalMemory { addr: mapping.virt_addr }),
        }
    }
}

/// Round-trip law: when the driver answers a map with a full response
/// record and later completes the unmap call, the map yields a mapping that
/// carries the driver's own three response fields unchanged together with
/// the caller's address and size, the unmap request built from it hands
/// exactly those tokens back, and the unmap yields success. Every mapped
/// page can thus be returned to the driver with the capabilities it issued.
pub proof fn lemma_map_unmap_round_trip(
    phys_addr: u64,
    size: u64,
    map_outcome: IoOutcome,
    unmap_outcome: IoOutcome,
)
    requires
        map_outcome matches IoOutcome::Completed(bytes) && bytes@.len() == REQUEST_RECORD_BYTES,
        unmap_outcome is Completed,
    ensures
        map_outcome matches IoOutcome::Completed(bytes) ==> ({
            let resp = spec_decode(bytes@);
            let res = spec_map_result(phys_addr, size, map_outcome);
            &&& res matches Ok(m)
            &&& m.phys_addr == phys_addr
            &&& m.size == size
            &&& m.sec_handle == resp.sec_handle
            &&& m.virt_addr == resp.virt_addr
            &&& m.obj_handle == resp.obj_handle
            &&& spec_unmap_request(m.sec_handle, m.virt_addr, m.obj_handle)
                == spec_unmap_request(resp.sec_handle, resp.virt_addr, resp.obj_handle)
            &&& spec_unmap_result(m.virt_addr, unmap_outcome) == Ok::<(), Error>(())
        }),
{
}

/// No-partial-state law: a map whose control call failed, or whose response
/// is not the record's exact size, yields the map error for the attempted
/// physical address and no mapping, so no unmap is ever owed for that
/// attempt. (A map refused before its control call, on a channel whose
/// handle is null, issues nothing either: see `prepare_map`.)
pub proof fn lemma_failed_map_yields_no_mapping(phys_addr: u64, size: u64, outcome: IoOutcome)
    requires
        !(outcome matches IoOutcome::Completed(bytes) && bytes@.len() == REQUEST_RECORD_BYTES),
    ensures
        spec_map_result(phys_addr, size, outcome) == Err::<Mapping, Error>(
            (Error::MapPhysicalMemory { addr: phys_addr }),
        ),
{
}

} // verus!
