use parrot::{ParrotError, Queue, RangeField, Track};

fn track(id: u64, secs: Option<u64>) -> Track {
    Track { id, duration_ms: secs.map(|s| s * 1000) }
}

fn ids(tracks: &[Track]) -> Vec<u64> {
    tracks.iter().map(|t| t.id).collect()
}

fn queue_of(n: u64) -> Queue {
    let mut q = Queue::new();
    for i in 0..n {
        q.append(track(i, Some(60)));
    }
    q
}

#[test]
fn end_to_end_enqueue_insert_skip() {
    let (a, b, c, d) = (track(1, Some(60)), track(2, Some(30)), track(3, None), track(4, Some(10)));
    let mut q = Queue::new();
    assert_eq!(ids(&q.append(a)), vec![1]);
    assert_eq!(q.current(), Some(a));
    q.append(b);
    assert_eq!(ids(&q.append(c)), vec![1, 2, 3]);
    assert_eq!(ids(&q.insert_at(d, 1).unwrap()), vec![1, 4, 2, 3]);
    assert_eq!(ids(&q.force_skip_top().unwrap()), vec![4, 2, 3]);
    assert_eq!(q.current(), Some(d));
}

#[test]
fn insert_at_places_track_and_keeps_order() {
    for i in 1..=4usize {
        let mut q = queue_of(4);
        let s = q.insert_at(track(99, None), i).unwrap();
        assert_eq!(s.len(), 5);
        assert_eq!(s[i].id, 99);
        let mut rest = ids(&s);
        rest.remove(i);
        assert_eq!(rest, vec![0, 1, 2, 3]);
        assert_eq!(ids(&q.snapshot()), ids(&s));
    }
}

#[test]
fn insert_at_out_of_range_leaves_queue() {
    let mut q = queue_of(3);
    for i in [0usize, 4, 100] {
        assert_eq!(
            q.insert_at(track(9, None), i),
            Err(ParrotError::OutOfRange { field: RangeField::Index, value: i as u64, min: 1, max: 3 })
        );
        assert_eq!(ids(&q.snapshot()), vec![0, 1, 2]);
    }
}

#[test]
fn insert_at_on_short_queue_appends() {
    let mut q = Queue::new();
    assert_eq!(ids(&q.insert_at(track(5, None), 1).unwrap()), vec![5]);
    assert_eq!(ids(&q.insert_at(track(6, None), 7).unwrap()), vec![5, 6]);
}

#[test]
fn rotate_short_queue_fails() {
    for n in 0..3 {
        let mut q = queue_of(n);
        assert_eq!(q.rotate(1), Err(ParrotError::InvalidOperation));
        assert_eq!(q.len(), n as usize);
        assert_eq!(ids(&q.snapshot()), (0..n).collect::<Vec<u64>>());
    }
}

#[test]
fn rotate_keeps_current_and_round_trips() {
    let mut q = queue_of(5);
    assert_eq!(ids(&q.rotate(1).unwrap()), vec![0, 4, 1, 2, 3]);
    assert_eq!(ids(&q.rotate(3).unwrap()), vec![0, 1, 2, 3, 4]);
    assert_eq!(ids(&q.rotate(6).unwrap()), vec![0, 3, 4, 1, 2]);
    assert_eq!(ids(&q.rotate(2).unwrap()), vec![0, 1, 2, 3, 4]);
    assert_eq!(ids(&q.rotate(4).unwrap()), vec![0, 1, 2, 3, 4]);
}

#[test]
fn force_skip_on_empty_fails() {
    let mut q = Queue::new();
    assert_eq!(q.force_skip_top(), Err(ParrotError::NothingPlaying));
    assert_eq!(q.require_current(), Err(ParrotError::NothingPlaying));
    assert_eq!(q.current(), None);
}

#[test]
fn clear_pending_keeps_current() {
    let mut q = queue_of(4);
    assert_eq!(ids(&q.clear_pending().unwrap()), vec![0]);
    assert_eq!(q.clear_pending(), Err(ParrotError::QueueEmpty));
    let mut e = Queue::new();
    assert_eq!(e.clear_pending(), Err(ParrotError::QueueEmpty));
}

#[test]
fn stop_empties_queue() {
    let mut q = queue_of(3);
    assert!(q.stop().unwrap().is_empty());
    assert!(q.is_empty());
    assert_eq!(q.stop(), Err(ParrotError::NothingPlaying));
}
