use zbl::queue::{PendingFrameQueue, RawFrame};

fn raw(id: u64) -> RawFrame {
    RawFrame { id, width: 800, height: 600, format: 87 }
}

#[test]
fn queue_len_never_exceeds_capacity() {
    for capacity in [1usize, 2, 5, 32] {
        let mut q = PendingFrameQueue::new(capacity);
        for id in 0..(capacity as u64 * 3 + 7) {
            q.offer(raw(id));
            assert!(q.len() <= capacity);
        }
    }
}

#[test]
fn queue_overflow_drops_incoming_not_oldest() {
    let mut q = PendingFrameQueue::new(32);
    for id in 0..40u64 {
        let accepted = q.offer(raw(id));
        assert_eq!(accepted, id < 32);
    }
    assert_eq!(q.len(), 32);
    assert_eq!(q.dropped, 8);
    for id in 0..32u64 {
        let f = q.poll().expect("a retained frame");
        assert_eq!(f.id, id);
    }
    assert!(q.poll().is_none());
}

#[test]
fn queue_poll_is_fifo() {
    let mut q = PendingFrameQueue::new(4);
    assert!(q.poll().is_none());
    q.offer(raw(10));
    q.offer(raw(11));
    assert_eq!(q.poll().unwrap().id, 10);
    q.offer(raw(12));
    assert_eq!(q.poll().unwrap().id, 11);
    assert_eq!(q.poll().unwrap().id, 12);
    assert!(q.poll().is_none());
    assert_eq!(q.dropped, 0);
}

#[test]
fn queue_clear_releases_frames_and_keeps_metric() {
    let mut q = PendingFrameQueue::new(2);
    q.offer(raw(1));
    q.offer(raw(2));
    q.offer(raw(3));
    assert_eq!(q.dropped, 1);
    q.clear();
    assert!(q.is_empty());
    assert_eq!(q.capacity, 2);
    assert_eq!(q.dropped, 1);
}
