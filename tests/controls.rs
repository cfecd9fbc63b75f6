use parrot::{
    seek_target, Queue, Track, engine_outcome, parse_timestamp, repeat_outcome, LoopAction, ParrotError, RangeField,
};

#[test]
fn timestamps() {
    assert_eq!(parse_timestamp("1:30"), Ok(90));
    assert_eq!(parse_timestamp("0:05"), Ok(5));
    assert_eq!(parse_timestamp("+2:+1"), Ok(121));
    assert_eq!(parse_timestamp("3:4:5"), Ok(184));
    assert_eq!(parse_timestamp("x:30"), Err(ParrotError::MinutesParse));
    assert_eq!(parse_timestamp(":30"), Err(ParrotError::MinutesParse));
    assert_eq!(parse_timestamp("5"), Err(ParrotError::SecondsParse));
    assert_eq!(parse_timestamp("5:"), Err(ParrotError::SecondsParse));
    assert_eq!(parse_timestamp("5:-1"), Err(ParrotError::SecondsParse));
    assert_eq!(parse_timestamp("18446744073709551616:0"), Err(ParrotError::MinutesParse));
    assert_eq!(
        parse_timestamp("18446744073709551615:0"),
        Err(ParrotError::OutOfRange {
            field: RangeField::Timestamp,
            value: u64::MAX,
            min: 0,
            max: u64::MAX / 60,
        })
    );
}

#[test]
fn loop_and_engine_outcomes() {
    assert_eq!(repeat_outcome(true, true), Ok(LoopAction::Disable));
    assert_eq!(repeat_outcome(false, true), Ok(LoopAction::Enable));
    assert_eq!(repeat_outcome(false, false), Err(ParrotError::OperationFailed));
    assert_eq!(engine_outcome(true), Ok(()));
    assert_eq!(engine_outcome(false), Err(ParrotError::OperationFailed));
}

#[test]
fn seek_within_current_track() {
    let mut q = Queue::new();
    assert_eq!(seek_target(&q, 10), Err(ParrotError::NothingPlaying));
    q.append(Track { id: 1, duration_ms: Some(90_500) });
    assert_eq!(seek_target(&q, 90), Ok(90));
    assert_eq!(
        seek_target(&q, 91),
        Err(ParrotError::OutOfRange { field: RangeField::Timestamp, value: 91, min: 0, max: 90 })
    );
    let mut live = Queue::new();
    live.append(Track { id: 2, duration_ms: None });
    assert_eq!(seek_target(&live, 100_000), Ok(100_000));
}
