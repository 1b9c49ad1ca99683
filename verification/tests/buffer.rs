use cedarwasm::allocate;

#[test]
fn test_allocate() {
    let ptr1 = allocate(1024);
    assert!(!ptr1.as_ptr().is_null(), "pointer is null");
}

#[test]
fn allocate_gives_the_requested_number_of_bytes() {
    assert_eq!(allocate(1024).len(), 1024);
    assert_eq!(allocate(1).len(), 1);
    assert_eq!(allocate(7).len(), 7);
}

#[test]
fn allocate_zero_is_legal() {
    let buffer = allocate(0);
    assert_eq!(buffer.len(), 0);
    assert!(!buffer.as_ptr().is_null());
}

#[test]
fn allocated_bytes_start_as_zero() {
    assert_eq!(allocate(3), vec![0u8, 0u8, 0u8]);
    assert!(allocate(4096).iter().all(|b| *b == 0));
}

#[test]
fn allocated_buffer_takes_writes_up_to_its_size() {
    let mut buffer = allocate(5);
    buffer.copy_from_slice(b"abcde");
    assert_eq!(buffer, b"abcde".to_vec());
}

#[test]
fn buffers_are_independent() {
    let mut first = allocate(4);
    let second = allocate(4);
    first[0] = 9;
    assert_eq!(first, vec![9u8, 0, 0, 0]);
    assert_eq!(second, vec![0u8, 0, 0, 0]);
}
