use winio_mapper::record::PhysicalMemoryIoRequest;
use winio_mapper::record::REQUEST_RECORD_BYTES;

#[test]
fn layout_is_five_le_fields_in_forty_bytes() {
    let record = PhysicalMemoryIoRequest {
        size: 0x1122_3344_5566_7788,
        phys_addr: 0x99AA_BBCC_DDEE_FF00,
        sec_handle: 0x0102_0304_0506_0708,
        virt_addr: 0x1020_3040_5060_7080,
        obj_handle: 0xF1F2_F3F4_F5F6_F7F8,
    };
    let bytes = record.encode();
    assert_eq!(bytes.len(), 40);
    assert_eq!(bytes.len(), REQUEST_RECORD_BYTES);
    assert_eq!(&bytes[0..8], &record.size.to_le_bytes());
    assert_eq!(&bytes[8..16], &record.phys_addr.to_le_bytes());
    assert_eq!(&bytes[16..24], &record.sec_handle.to_le_bytes());
    assert_eq!(&bytes[24..32], &record.virt_addr.to_le_bytes());
    assert_eq!(&bytes[32..40], &record.obj_handle.to_le_bytes());
}

#[test]
fn encode_then_decode_gives_the_record_back() {
    let record = PhysicalMemoryIoRequest {
        size: 4096,
        phys_addr: 0x10_0000,
        sec_handle: 0xDEAD_BEEF,
        virt_addr: 0x7FFE_0000_1000,
        obj_handle: 0xCAFE_F00D,
    };
    let bytes = record.encode();
    let back = PhysicalMemoryIoRequest::decode(&bytes).expect("a 40-byte buffer must decode");
    assert_eq!(back, record);
}

#[test]
fn decode_refuses_every_other_length() {
    assert!(PhysicalMemoryIoRequest::decode(&[]).is_none());
    assert!(PhysicalMemoryIoRequest::decode(&[0u8; 39]).is_none());
    assert!(PhysicalMemoryIoRequest::decode(&[0u8; 41]).is_none());
    assert!(PhysicalMemoryIoRequest::decode(&[0u8; 8]).is_none());
    assert!(PhysicalMemoryIoRequest::decode(&[0u8; 40]).is_some());
}

#[test]
fn map_request_sets_address_and_size_and_zeroes_tokens() {
    let record = PhysicalMemoryIoRequest::map_request(0x2000, 4096);
    assert_eq!(record.phys_addr, 0x2000);
    assert_eq!(record.size, 4096);
    assert_eq!(record.sec_handle, 0);
    assert_eq!(record.virt_addr, 0);
    assert_eq!(record.obj_handle, 0);
}

#[test]
fn unmap_request_carries_tokens_and_zeroes_map_fields() {
    let record = PhysicalMemoryIoRequest::unmap_request(0x11, 0x7000_0000, 0x22);
    assert_eq!(record.sec_handle, 0x11);
    assert_eq!(record.virt_addr, 0x7000_0000);
    assert_eq!(record.obj_handle, 0x22);
    assert_eq!(record.size, 0);
    assert_eq!(record.phys_addr, 0);
}

#[test]
fn default_record_is_all_zero() {
    let record = PhysicalMemoryIoRequest::default();
    assert_eq!(record, PhysicalMemoryIoRequest::map_request(0, 0));
    assert_eq!(record.encode(), vec![0u8; 40]);
}
