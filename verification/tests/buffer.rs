use dfu_core::buffer::Buffer;

#[test]
fn new_buffer_is_empty_with_all_its_room() {
    let mut buffer = Buffer::new(6);
    assert!(buffer.is_empty());
    assert_eq!(buffer.room(), 6);
    assert!(buffer.pending().is_empty());
    assert_eq!(buffer.spare().len(), 6);
}

#[test]
fn buffer_without_capacity() {
    let mut buffer = Buffer::new(0);
    assert!(buffer.is_empty());
    assert_eq!(buffer.room(), 0);
    assert!(buffer.spare().is_empty());
    buffer.filled(0);
    buffer.consume(3);
    assert!(buffer.pending().is_empty());
}

#[test]
fn fill_in_parts_and_consume() {
    let mut buffer = Buffer::new(6);
    buffer.spare()[..4].copy_from_slice(b"abcd");
    buffer.filled(4);
    assert_eq!(buffer.pending(), b"abcd");
    assert_eq!(buffer.room(), 2);
    assert!(!buffer.is_empty());

    buffer.spare().copy_from_slice(b"ef");
    buffer.filled(2);
    assert_eq!(buffer.pending(), b"abcdef");
    assert_eq!(buffer.room(), 0);

    buffer.consume(2);
    assert_eq!(buffer.pending(), b"cdef");
    assert_eq!(buffer.room(), 2);

    buffer.spare()[..1].copy_from_slice(b"g");
    buffer.filled(1);
    assert_eq!(buffer.pending(), b"cdefg");

    buffer.consume(0);
    assert_eq!(buffer.pending(), b"cdefg");

    buffer.consume(5);
    assert!(buffer.is_empty());
    assert_eq!(buffer.room(), 6);
}

#[test]
fn consume_more_than_is_pending() {
    let mut buffer = Buffer::new(4);
    buffer.spare()[..3].copy_from_slice(b"xyz");
    buffer.filled(3);
    buffer.consume(100);
    assert!(buffer.is_empty());
    assert_eq!(buffer.room(), 4);
}
