//! The fixed-layout request record exchanged with the driver.
//!
//! Map and unmap share one record shape: five 8-byte fields, 40 bytes in
//! all, laid out in the driver's expected order with no padding. The fields
//! a given direction does not use are zero. The byte layout is a fixed
//! binary contract with the driver:
//!
//! | offset | field         | direction            |
//! |--------|---------------|----------------------|
//! | 0      | size          | in (map)             |
//! | 8      | phys_addr     | in (map)             |
//! | 16     | sec_handle    | out (map), in (unmap)|
//! | 24     | virt_addr     | out (map), in (unmap)|
//! | 32     | obj_handle    | out (map), in (unmap)|

use vstd::prelude::*;
use vstd::bytes::*;
use vstd::seq_lib::*;
use vstd::slice::slice_subrange;
use vstd::assert_seqs_equal;

verus! {

/// The exact size of the wire record in bytes: five 8-byte fields.
pub const REQUEST_RECORD_BYTES: usize = 40;

/// The record sent to and received from the driver. The two opaque kernel
/// tokens (`sec_handle`, `obj_handle`) are capabilities, not addresses: they
/// are carried through unmodified and no arithmetic is ever done on them.
#[derive(Clone, Copy, Debug, PartialEq, Eq, Structural)]
pub struct PhysicalMemoryIoRequest {
    /// Number of bytes to map; set by the caller on map, zero on unmap.
    pub size: u64,
    /// Physical address to map; set by the caller on map, zero on unmap.
    pub phys_addr: u64,
    /// Opaque section token; driver-assigned on map, passed back on unmap.
    pub sec_handle: u64,
    /// Mapped virtual address; driver-assigned on map, passed back on unmap.
    pub virt_addr: u64,
    /// Opaque object token; driver-assigned on map, passed back on unmap.
    pub obj_handle: u64,
}

/// The record a map request carries: `phys_addr` and `size` set, every
/// token field zero.
pub open spec fn spec_map_request(phys_addr: u64, size: u64) -> PhysicalMemoryIoRequest {
    PhysicalMemoryIoRequest {
        size: size,
        phys_addr: phys_addr,
        sec_handle: 0,
        virt_addr: 0,
        obj_handle: 0,
    }
}

/// The record an unmap request carries: the tokens and the virtual address
/// of the mapping to undo, with `size` and `phys_addr` zero (unused in this
/// direction).
pub open spec fn spec_unmap_request(sec_handle: u64, virt_addr: u64, obj_handle: u64) -> PhysicalMemoryIoRequest {
    PhysicalMemoryIoRequest {
        size: 0,
        phys_addr: 0,
        sec_handle: sec_handle,
        virt_addr: virt_addr,
        obj_handle: obj_handle,
    }
}

/// The wire form of a record: each field as 8 little-endian bytes, in field
/// order, 40 bytes in all.
pub open spec fn spec_encode(r: PhysicalMemoryIoRequest) -> Seq<u8> {
    spec_u64_to_le_bytes(r.size) + spec_u64_to_le_bytes(r.phys_addr)
        + spec_u64_to_le_bytes(r.sec_handle) + spec_u64_to_le_bytes(r.virt_addr)
        + spec_u64_to_le_bytes(r.obj_handle)
}

/// The record read back from a 40-byte wire buffer.
pub open spec fn spec_decode(s: Seq<u8>) -> PhysicalMemoryIoRequest
    recommends
        s.len() == REQUEST_RECORD_BYTES,
{
    PhysicalMemoryIoRequest {
        size: spec_u64_from_le_bytes(s.subrange(0, 8)),
        phys_addr: spec_u64_from_le_bytes(s.subrange(8, 16)),
        sec_handle: spec_u64_from_le_bytes(s.subrange(16, 24)),
        virt_addr: spec_u64_from_le_bytes(s.subrange(24, 32)),
        obj_handle: spec_u64_from_le_bytes(s.subrange(32, 40)),
    }
}

impl PhysicalMemoryIoRequest {
    /// Builds the record for a map request: address and size set, tokens
    /// zeroed for the driver to fill in.
    pub fn map_request(phys_addr: u64, size: u64) -> (r: Self)
        ensures
            r == spec_map_request(phys_addr, size),
    {
        PhysicalMemoryIoRequest {
            size: size,
            phys_addr: phys_addr,
            sec_handle: 0,
            virt_addr: 0,
            obj_handle: 0,
        }
    }

    /// Builds the record for an unmap request: tokens and virtual address
    /// copied in, the map-direction fields zeroed.
    pub fn unmap_request(sec_handle: u64, virt_addr: u64, obj_handle: u64) -> (r: Self)
        ensures
            r == spec_unmap_request(sec_handle, virt_addr, obj_handle),
    {
        PhysicalMemoryIoRequest {
            size: 0,
            phys_addr: 0,
            sec_handle: sec_handle,
            virt_addr: virt_addr,
            obj_handle: obj_handle,
        }
    }

    /// Serializes the record into its exact 40-byte wire form.
    pub fn encode(&self) -> (r: Vec<u8>)
        ensures
            r@ == spec_encode(*self),
            r@.len() == REQUEST_RECORD_BYTES,
    {
        proof {
            lemma_auto_spec_u64_to_from_le_bytes();
        }
        let mut out: Vec<u8> = Vec::new();
        append_u64_le(&mut out, self.size);
        append_u64_le(&mut out, self.phys_addr);
        append_u64_le(&mut out, self.sec_handle);
        append_u64_le(&mut out, self.virt_addr);
        append_u64_le(&mut out, self.obj_handle);
        out
    }

    /// Reads a record back from a wire buffer. Returns the record exactly
    /// when the buffer is the record's exact size, as the driver requires;
    /// any other length is refused.
    pub fn decode(bytes: &[u8]) -> (r: Option<Self>)
        ensures
            bytes@.len() == REQUEST_RECORD_BYTES ==> r == Some(spec_decode(bytes@)),
            bytes@.len() != REQUEST_RECORD_BYTES ==> r is None,
    {
        if bytes.len() != REQUEST_RECORD_BYTES {
            return None;
        }
        let size = u64_from_le_bytes(slice_subrange(bytes, 0, 8));
        let phys_addr = u64_from_le_bytes(slice_subrange(bytes, 8, 16));
        let sec_handle = u64_from_le_bytes(slice_subrange(bytes, 16, 24));
        let virt_addr = u64_from_le_bytes(slice_subrange(bytes, 24, 32));
        let obj_handle = u64_from_le_bytes(slice_subrange(bytes, 32, 40));
        Some(PhysicalMemoryIoRequest { size, phys_addr, sec_handle, virt_addr, obj_handle })
    }
}

impl Default for PhysicalMemoryIoRequest {
    /// The all-zero record.
    fn default() -> (r: Self)
        ensures
            r == spec_map_request(0, 0),
    {
        PhysicalMemoryIoRequest {
            size: 0,
            phys_addr: 0,
            sec_handle: 0,
            virt_addr: 0,
            obj_handle: 0,
        }
    }
}

/// Appends the 8 little-endian bytes of `v` to `out`.
fn append_u64_le(out: &mut Vec<u8>, v: u64)
    ensures
        final(out)@ == old(out)@ + spec_u64_to_le_bytes(v),
{
    let mut bytes = u64_to_le_bytes(v);
    out.append(&mut bytes);
}

/// Layout law: the wire form of every record is exactly 40 bytes, with the
/// five fields' little-endian encodings at offsets 0, 8, 16, 24 and 32.
pub proof fn lemma_record_layout(r: PhysicalMemoryIoRequest)
    ensures
        spec_encode(r).len() == REQUEST_RECORD_BYTES,
        spec_encode(r).subrange(0, 8) == spec_u64_to_le_bytes(r.size),
        spec_encode(r).subrange(8, 16) == spec_u64_to_le_bytes(r.phys_addr),
        spec_encode(r).subrange(16, 24) == spec_u64_to_le_bytes(r.sec_handle),
        spec_encode(r).subrange(24, 32) == spec_u64_to_le_bytes(r.virt_addr),
        spec_encode(r).subrange(32, 40) == spec_u64_to_le_bytes(r.obj_handle),
{
    lemma_auto_spec_u64_to_from_le_bytes();
    assert_seqs_equal!(spec_encode(r).subrange(0, 8) == spec_u64_to_le_bytes(r.size));
    assert_seqs_equal!(spec_encode(r).subrange(8, 16) == spec_u64_to_le_bytes(r.phys_addr));
    assert_seqs_equal!(spec_encode(r).subrange(16, 24) == spec_u64_to_le_bytes(r.sec_handle));
    assert_seqs_equal!(spec_encode(r).subrange(24, 32) == spec_u64_to_le_bytes(r.virt_addr));
    assert_seqs_equal!(spec_encode(r).subrange(32, 40) == spec_u64_to_le_bytes(r.obj_handle));
}

/// Round-trip law, one direction: decoding the wire form of a record gives
/// the record back, so the wire form carries every field exactly.
pub proof fn lemma_decode_of_encode(r: PhysicalMemoryIoRequest)
    ensures
        spec_decode(spec_encode(r)) == r,
{
    lemma_auto_spec_u64_to_from_le_bytes();
    lemma_record_layout(r);
}

/// Round-trip law, other direction: the wire form of the record read from a
/// 40-byte buffer is that buffer again, so no byte of a response is lost or
/// invented by decoding.
pub proof fn lemma_encode_of_decode(s: Seq<u8>)
    requires
        s.len() == REQUEST_RECORD_BYTES,
    ensures
        spec_encode(spec_decode(s)) == s,
{
    lemma_auto_spec_u64_to_from_le_bytes();
    assert_seqs_equal!(spec_encode(spec_decode(s)) == s, i => {
        if i < 8 {
            assert(spec_encode(spec_decode(s))[i] == s.subrange(0, 8)[i]);
        } else if i < 16 {
            assert(spec_encode(spec_decode(s))[i] == s.subrange(8, 16)[i - 8]);
        } else if i < 24 {
            assert(spec_encode(spec_decode(s))[i] == s.subrange(16, 24)[i - 16]);
        } else if i < 32 {
            assert(spec_encode(spec_decode(s))[i] == s.subrange(24, 32)[i - 24]);
        } else {
            assert(spec_encode(spec_decode(s))[i] == s.subrange(32, 40)[i - 32]);
        }
    });
}

} // verus!
