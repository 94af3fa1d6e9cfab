use shadow_reg::log_buffer::LogBuffer;
use shadow_reg::log_buffer::LOG_BUFFER_SIZE;

#[test]
fn test_new_buffer_is_empty() {
    let buf = LogBuffer::new();
    assert_eq!(buf.get_position(), 0);
    assert_eq!(buf.get_raw_buffer().len(), LOG_BUFFER_SIZE);
    assert!(buf.get_raw_buffer().iter().all(|&b| b == 0));
}

#[test]
fn test_write_advances_position() {
    let mut buf = LogBuffer::new();
    buf.write_to_buffer(b"hello");
    assert_eq!(buf.get_position(), 5);
    assert_eq!(&buf.get_raw_buffer()[0..5], b"hello");

    buf.write_to_buffer(b" world");
    assert_eq!(buf.get_position(), 11);
    assert_eq!(&buf.get_raw_buffer()[0..11], b"hello world");
}

#[test]
fn test_empty_write_changes_nothing() {
    let mut buf = LogBuffer::new();
    buf.write_to_buffer(b"abc");
    buf.write_to_buffer(b"");
    assert_eq!(buf.get_position(), 3);
    assert_eq!(&buf.get_raw_buffer()[0..3], b"abc");
}

#[test]
fn test_wrap_around() {
    let mut buf = LogBuffer::new();
    // Fill all but three bytes, then write five: the last two wrap to the
    // front.
    let filler = vec![b'x'; LOG_BUFFER_SIZE - 3];
    buf.write_to_buffer(&filler);
    buf.write_to_buffer(b"abcde");
    assert_eq!(buf.get_position(), 2);
    let raw = buf.get_raw_buffer();
    assert_eq!(raw[LOG_BUFFER_SIZE - 3], b'a');
    assert_eq!(raw[LOG_BUFFER_SIZE - 2], b'b');
    assert_eq!(raw[LOG_BUFFER_SIZE - 1], b'c');
    assert_eq!(raw[0], b'd');
    assert_eq!(raw[1], b'e');
}

#[test]
fn test_get_buffer_reorders_from_position() {
    let mut buf = LogBuffer::new();
    let filler = vec![b'x'; LOG_BUFFER_SIZE - 2];
    buf.write_to_buffer(&filler);
    buf.write_to_buffer(b"abcd");
    // Position is now 2; the coherent view starts at the oldest byte.
    let view = buf.get_buffer();
    assert_eq!(view.len(), LOG_BUFFER_SIZE);
    // The view's last four bytes are the newest data in write order.
    assert_eq!(&view[LOG_BUFFER_SIZE - 4..], b"abcd");
    // And it starts where the raw buffer's position points.
    assert_eq!(view[0], buf.get_raw_buffer()[buf.get_position()]);
}

#[test]
fn test_overwrite_wraps_many_times() {
    let mut buf = LogBuffer::new();
    // Writing the buffer size plus one byte leaves position at one.
    let big = vec![b'y'; LOG_BUFFER_SIZE + 1];
    buf.write_to_buffer(&big);
    assert_eq!(buf.get_position(), 1);
    assert!(buf.get_raw_buffer().iter().all(|&b| b == b'y'));
}
