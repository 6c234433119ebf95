use ring_buffer::buffer::{BufferFullError, CircularBuffer};

#[test]
fn scenario_capacity_four() {
    let mut b: CircularBuffer<u32> = CircularBuffer::new(4);
    assert_eq!(b.write(10), Ok(()));
    assert_eq!(b.write(20), Ok(()));
    assert_eq!(b.write(30), Ok(()));
    assert_eq!(b.len(), 3);
    assert!(!b.is_full());
    assert_eq!(b.write(40), Ok(()));
    assert_eq!(b.len(), 4);
    assert!(b.is_full());
    assert_eq!(b.write(50), Err(BufferFullError));
    assert_eq!(b.len(), 4);
    assert_eq!(b.read(), Some(10));
    assert_eq!(b.read(), Some(20));
    assert_eq!(b.read(), Some(30));
    assert_eq!(b.read(), Some(40));
    assert_eq!(b.read(), None);
    assert_eq!(b.len(), 0);
    assert!(b.is_empty());
}

#[test]
fn count_tracks_pushes() {
    let mut b: CircularBuffer<u8> = CircularBuffer::new(8);
    for k in 0..8u8 {
        assert_eq!(b.len(), k as usize);
        assert_eq!(b.is_full(), k == 8);
        assert_eq!(b.write(k), Ok(()));
    }
    assert_eq!(b.len(), 8);
    assert!(b.is_full());
}

#[test]
fn fifo_order() {
    let mut b: CircularBuffer<u8> = CircularBuffer::new(5);
    for v in [7u8, 3, 9, 1, 200] {
        assert_eq!(b.write(v), Ok(()));
    }
    for v in [7u8, 3, 9, 1, 200] {
        assert_eq!(b.read(), Some(v));
    }
    assert!(b.is_empty());
}

#[test]
fn write_on_full_changes_nothing() {
    let mut b: CircularBuffer<u8> = CircularBuffer::new(2);
    assert_eq!(b.write(1), Ok(()));
    assert_eq!(b.write(2), Ok(()));
    assert_eq!(b.write(3), Err(BufferFullError));
    assert_eq!(b.write(4), Err(BufferFullError));
    assert_eq!(b.len(), 2);
    assert_eq!(b.read(), Some(1));
    assert_eq!(b.read(), Some(2));
    assert_eq!(b.read(), None);
}

#[test]
fn read_on_empty_changes_nothing() {
    let mut b: CircularBuffer<u8> = CircularBuffer::new(3);
    assert_eq!(b.read(), None);
    assert_eq!(b.read(), None);
    assert!(b.is_empty());
    assert_eq!(b.len(), 0);
    assert_eq!(b.write(42), Ok(()));
    assert_eq!(b.read(), Some(42));
    assert_eq!(b.read(), None);
}

#[test]
fn wrap_around_full_cycles() {
    let mut b: CircularBuffer<u16> = CircularBuffer::new(4);
    for v in [1u16, 2, 3, 4] {
        assert_eq!(b.write(v), Ok(()));
    }
    for v in [1u16, 2, 3, 4] {
        assert_eq!(b.read(), Some(v));
    }
    assert!(b.is_empty());
    for v in [500u16, 600, 700, 800] {
        assert_eq!(b.write(v), Ok(()));
    }
    assert!(b.is_full());
    for v in [500u16, 600, 700, 800] {
        assert_eq!(b.read(), Some(v));
    }
    assert_eq!(b.read(), None);
}

#[test]
fn wrap_around_interleaved() {
    let mut b: CircularBuffer<u8> = CircularBuffer::new(3);
    assert_eq!(b.write(1), Ok(()));
    assert_eq!(b.write(2), Ok(()));
    assert_eq!(b.read(), Some(1));
    assert_eq!(b.write(3), Ok(()));
    assert_eq!(b.write(4), Ok(()));
    assert!(b.is_full());
    assert_eq!(b.read(), Some(2));
    assert_eq!(b.read(), Some(3));
    assert_eq!(b.write(5), Ok(()));
    assert_eq!(b.read(), Some(4));
    assert_eq!(b.read(), Some(5));
    assert_eq!(b.read(), None);
}

#[test]
fn queries_are_idempotent() {
    let mut b: CircularBuffer<u8> = CircularBuffer::new(1);
    assert_eq!(b.is_empty(), b.is_empty());
    assert_eq!(b.is_full(), b.is_full());
    assert!(b.is_empty());
    assert!(!b.is_full());
    assert_eq!(b.write(9), Ok(()));
    assert_eq!(b.is_empty(), b.is_empty());
    assert_eq!(b.is_full(), b.is_full());
    assert!(!b.is_empty());
    assert!(b.is_full());
}

#[test]
fn zero_capacity_rejects_everything() {
    let mut b: CircularBuffer<u8> = CircularBuffer::new(0);
    assert!(b.is_empty());
    assert!(b.is_full());
    assert_eq!(b.write(1), Err(BufferFullError));
    assert_eq!(b.read(), None);
    assert_eq!(b.len(), 0);
}
