use parrot::{estimate_wait, Mode, Track, UNBOUNDED_WAIT_MS};

fn track(id: u64, secs: Option<u64>) -> Track {
    Track { id, duration_ms: secs.map(|s| s * 1000) }
}

#[test]
fn wait_behind_live_stream_is_unbounded() {
    let q = [track(1, Some(60)), track(2, Some(30)), track(3, None), track(4, Some(20))];
    assert_eq!(estimate_wait(&q, 10_000, Mode::End), Some(UNBOUNDED_WAIT_MS));
    let next = [track(1, Some(60)), track(4, Some(20)), track(2, Some(30)), track(3, None)];
    assert_eq!(estimate_wait(&next, 10_000, Mode::Next), Some(50_000));
}

#[test]
fn wait_sums_tracks_between() {
    let q = [track(1, Some(60)), track(2, Some(30)), track(3, Some(45)), track(4, None)];
    assert_eq!(estimate_wait(&q, 10_000, Mode::End), Some(125_000));
    assert_eq!(estimate_wait(&q[..2], 10_000, Mode::End), Some(50_000));
    assert_eq!(estimate_wait(&q[..1], 10_000, Mode::End), Some(50_000));
}

#[test]
fn wait_edge_cases() {
    assert_eq!(estimate_wait(&[], 0, Mode::Next), None);
    let live = [track(1, None), track(2, Some(30))];
    assert_eq!(estimate_wait(&live, 5, Mode::Next), Some(UNBOUNDED_WAIT_MS));
    let over = [track(1, Some(10)), track(2, Some(30))];
    assert_eq!(estimate_wait(&over, 20_000, Mode::Next), Some(0));
    let huge = [
        Track { id: 1, duration_ms: Some(u64::MAX - 1) },
        Track { id: 2, duration_ms: Some(u64::MAX - 1) },
        Track { id: 3, duration_ms: Some(1) },
    ];
    assert_eq!(estimate_wait(&huge, 0, Mode::Jump), Some(UNBOUNDED_WAIT_MS));
}
