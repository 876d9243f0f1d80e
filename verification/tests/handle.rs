use winio_mapper::handle::RawHandle;

#[test]
fn null_handle_is_null_and_not_valid() {
    let h = RawHandle::null();
    assert!(h.is_null());
    assert!(!h.is_valid());
    assert_eq!(h.handle(), 0);
}

#[test]
fn nonzero_handle_is_valid() {
    let h = RawHandle::new(0xDEAD);
    assert!(!h.is_null());
    assert!(h.is_valid());
    assert_eq!(h.handle(), 0xDEAD);
}

#[test]
fn default_handle_is_null() {
    assert_eq!(RawHandle::default(), RawHandle::null());
}

#[test]
fn handles_compare_by_value() {
    assert_eq!(RawHandle::new(3), RawHandle::new(3));
    assert_ne!(RawHandle::new(3), RawHandle::new(4));
    assert_eq!(RawHandle::new(0), RawHandle::null());
}
