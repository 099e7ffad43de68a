use relay_conn::datagram_buffer::{BufferFull, DatagramBuffer};
use relay_conn::stream_buffer::StreamBuffer;

#[test]
fn stream_buffer_appends_and_drains() {
    let mut b = StreamBuffer::new(8);
    assert!(b.is_empty());
    assert_eq!(b.remaining(), 8);
    assert_eq!(b.capacity(), 8);
    b.read_from(&[1, 2, 3]);
    b.read_from(&[4, 5]);
    assert_eq!(b.pending(), &[1, 2, 3, 4, 5]);
    assert_eq!(b.remaining(), 3);
    b.consume(2);
    assert_eq!(b.pending(), &[3, 4, 5]);
    b.consume(3);
    assert!(b.is_empty());
    assert_eq!(b.remaining(), 8);
}

#[test]
fn stream_buffer_fills_to_capacity() {
    let mut b = StreamBuffer::new(4);
    b.read_from(&[1, 2, 3, 4]);
    assert_eq!(b.remaining(), 0);
    assert!(!b.is_empty());
}

#[test]
fn datagram_buffer_keeps_boundaries() {
    let mut d = DatagramBuffer::new(10);
    assert!(d.is_empty());
    assert_eq!(d.front(), None);
    assert_eq!(d.read_from(&[1, 2, 3]), Ok(()));
    assert_eq!(d.read_from(&[]), Ok(()));
    assert_eq!(d.read_from(&[4, 5]), Ok(()));
    assert_eq!(d.remaining(), 5);
    assert_eq!(d.front(), Some(&[1u8, 2, 3][..]));
    d.consume_front();
    assert_eq!(d.front(), Some(&[][..]));
    d.consume_front();
    assert_eq!(d.front(), Some(&[4u8, 5][..]));
    d.consume_front();
    assert!(d.is_empty());
    assert_eq!(d.remaining(), 10);
}

#[test]
fn datagram_buffer_refuses_whole_datagram() {
    let mut d = DatagramBuffer::new(6);
    assert_eq!(d.read_from(&[1, 2, 3, 4]), Ok(()));
    assert_eq!(d.read_from(&[5, 6, 7]), Err(BufferFull));
    assert_eq!(d.remaining(), 2);
    assert_eq!(d.front(), Some(&[1u8, 2, 3, 4][..]));
    assert_eq!(d.read_from(&[5, 6]), Ok(()));
    assert_eq!(d.remaining(), 0);
    assert_eq!(d.read_from(&[]), Ok(()));
    assert_eq!(d.read_from(&[9]), Err(BufferFull));
}

#[test]
fn datagram_larger_than_capacity_refused() {
    let mut d = DatagramBuffer::new(3);
    assert_eq!(d.read_from(&[1, 2, 3, 4]), Err(BufferFull));
    assert!(d.is_empty());
    assert_eq!(d.remaining(), 3);
}

