use oto::ring::{RingBuffer, MAX_CAPACITY};

fn contents(ring: &RingBuffer) -> Vec<i32> {
    let (front, wrapped) = ring.read_available();
    let mut all = front.to_vec();
    all.extend_from_slice(wrapped);
    all
}

#[test]
fn new_ring_is_empty() {
    let ring = RingBuffer::new(8);
    assert_eq!(ring.len(), 0);
    assert!(ring.is_empty());
    assert_eq!(ring.vacancy(), 8);
    assert_eq!(ring.capacity(), 8);
    let (front, wrapped) = ring.read_available();
    assert!(front.is_empty());
    assert!(wrapped.is_empty());
}

#[test]
fn write_appends_in_order() {
    let mut ring = RingBuffer::new(8);
    assert_eq!(ring.write(&[1, 2, 3]), 3);
    assert_eq!(ring.write(&[4, 5]), 2);
    assert_eq!(ring.len(), 5);
    assert_eq!(ring.vacancy(), 3);
    assert!(!ring.is_empty());
    assert_eq!(contents(&ring), vec![1, 2, 3, 4, 5]);
}

#[test]
fn write_truncates_when_full() {
    let mut ring = RingBuffer::new(4);
    assert_eq!(ring.write(&[1, 2, 3, 4, 5, 6]), 4);
    assert_eq!(ring.len(), 4);
    assert_eq!(ring.vacancy(), 0);
    assert_eq!(contents(&ring), vec![1, 2, 3, 4]);
    assert_eq!(ring.write(&[7]), 0);
    assert_eq!(contents(&ring), vec![1, 2, 3, 4]);
    assert_eq!(ring.write(&[]), 0);
}

#[test]
fn write_never_exceeds_vacancy() {
    let mut ring = RingBuffer::new(5);
    let mut next = 0;
    for round in 0..40usize {
        let chunk: Vec<i32> = (next..next + (round % 7) as i32).collect();
        let room = ring.vacancy();
        let taken = ring.write(&chunk);
        assert_eq!(taken, room.min(chunk.len()));
        assert!(ring.len() <= ring.capacity());
        assert_eq!(ring.len() + ring.vacancy(), 5);
        next += taken as i32;
        ring.advance_read(round % 3);
    }
}

#[test]
fn advance_read_drops_the_oldest() {
    let mut ring = RingBuffer::new(8);
    ring.write(&[10, 20, 30, 40]);
    assert_eq!(ring.advance_read(0), 0);
    assert_eq!(contents(&ring), vec![10, 20, 30, 40]);
    assert_eq!(ring.advance_read(3), 3);
    assert_eq!(contents(&ring), vec![40]);
    assert_eq!(ring.vacancy(), 7);
    assert_eq!(ring.advance_read(5), 1);
    assert!(ring.is_empty());
    assert_eq!(ring.advance_read(1), 0);
}

#[test]
fn read_available_honours_wrap_around() {
    let mut ring = RingBuffer::new(4);
    ring.write(&[1, 2, 3, 4]);
    ring.advance_read(3);
    assert_eq!(ring.write(&[5, 6, 7, 8]), 3);
    let (front, wrapped) = ring.read_available();
    assert_eq!(front, &[4]);
    assert_eq!(wrapped, &[5, 6, 7]);
    assert_eq!(ring.len(), 4);
    ring.advance_read(2);
    assert_eq!(contents(&ring), vec![6, 7]);
}

#[test]
fn clear_drops_everything() {
    let mut ring = RingBuffer::new(4);
    ring.write(&[1, 2, 3]);
    assert_eq!(ring.clear(), 3);
    assert!(ring.is_empty());
    assert_eq!(ring.vacancy(), 4);
    assert_eq!(ring.clear(), 0);
    assert_eq!(ring.write(&[9, 8]), 2);
    assert_eq!(contents(&ring), vec![9, 8]);
}

#[test]
fn capacity_one_ring_works() {
    let mut ring = RingBuffer::new(1);
    assert_eq!(ring.write(&[7, 8]), 1);
    assert_eq!(contents(&ring), vec![7]);
    assert_eq!(ring.advance_read(1), 1);
    assert_eq!(ring.write(&[8]), 1);
    assert_eq!(contents(&ring), vec![8]);
}

#[test]
fn capacity_limit_leaves_room_for_the_storage() {
    assert_eq!(MAX_CAPACITY, 0x1fff_ffff);
    assert!((MAX_CAPACITY as u128) * 4 <= isize::MAX as u128);
}
