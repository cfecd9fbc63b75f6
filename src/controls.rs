use vstd::prelude::*;

use crate::errors::{ParrotError, RangeField};
use crate::queue::Queue;
use crate::text::{find_colon, next_colon, parse_u64, parse_u64_range};

verus! {

/// The position that a `minutes:seconds` timestamp names, in seconds. Text
/// after a second `:` is ignored.
pub open spec fn seek_seconds(s: Seq<char>) -> Result<u64, ParrotError> {
    let c1 = next_colon(s, 0);
    match parse_u64(s.subrange(0, c1)) {
        None => Err(ParrotError::MinutesParse),
        Some(m) => if c1 >= s.len() {
            Err(ParrotError::SecondsParse)
        } else {
            match parse_u64(s.subrange(c1 + 1, next_colon(s, c1 + 1))) {
                None => Err(ParrotError::SecondsParse),
                Some(sec) => if m * 60 + sec > u64::MAX {
                    Err(
                        ParrotError::OutOfRange {
                            field: RangeField::Timestamp,
                            value: m,
                            min: 0,
                            max: ((u64::MAX - sec) / 60) as u64,
                        },
                    )
                } else {
                    Ok((m * 60 + sec) as u64)
                },
            }
        },
    }
}

/// Reads a `minutes:seconds` seek timestamp as a number of seconds.
pub fn parse_timestamp(s: &str) -> (r: Result<u64, ParrotError>)
    ensures
        r == seek_seconds(s@),
{
    let c1 = find_colon(s, 0);
    let minutes = match parse_u64_range(s, 0, c1) {
        None => return Err(ParrotError::MinutesParse),
        Some(m) => m,
    };
    let n = s.unicode_len();
    if c1 >= n {
        return Err(ParrotError::SecondsParse);
    }
    let c2 = find_colon(s, c1 + 1);
    let seconds = match parse_u64_range(s, c1 + 1, c2) {
        None => return Err(ParrotError::SecondsParse),
        Some(sec) => sec,
    };
    if minutes > (u64::MAX - seconds) / 60 {
        proof {
            let m = minutes as int;
            let sec = seconds as int;
            assert(m * 60 + sec > u64::MAX) by (nonlinear_arith)
                requires
                    m > (u64::MAX - sec) / 60,
                    0 <= sec <= u64::MAX,
            ;
        }
        return Err(
            ParrotError::OutOfRange {
                field: RangeField::Timestamp,
                value: minutes,
                min: 0,
                max: (u64::MAX - seconds) / 60,
            },
        );
    }
    proof {
        let m = minutes as int;
        let sec = seconds as int;
        assert(m * 60 + sec <= u64::MAX) by (nonlinear_arith)
            requires
                m <= (u64::MAX - sec) / 60,
                0 <= sec <= u64::MAX,
        ;
    }
    Ok(minutes * 60 + seconds)
}

/// Where a seek to `seconds` lands in the track now playing in `q`:
/// nowhere on an empty queue, out of range past the end of a finite track,
/// and at `seconds` otherwise (a live stream has no end).
pub open spec fn seek_target_spec(q: Seq<crate::queue::Track>, seconds: u64) -> Result<
    u64,
    ParrotError,
> {
    if q.len() == 0 {
        Err(ParrotError::NothingPlaying)
    } else {
        match q[0].duration_ms {
            Some(d) => if seconds * 1000 > d {
                Err(
                    ParrotError::OutOfRange {
                        field: RangeField::Timestamp,
                        value: seconds,
                        min: 0,
                        max: d / 1000,
                    },
                )
            } else {
                Ok(seconds)
            },
            None => Ok(seconds),
        }
    }
}

/// Checks a seek to `seconds` against the track now playing in `queue`.
pub fn seek_target(queue: &Queue, seconds: u64) -> (r: Result<u64, ParrotError>)
    ensures
        r == seek_target_spec(queue@, seconds),
{
    let current = match queue.current() {
        None => return Err(ParrotError::NothingPlaying),
        Some(t) => t,
    };
    match current.duration_ms {
        None => Ok(seconds),
        Some(d) => {
            let last = d / 1000;
            proof {
                let s = seconds as int;
                let dd = d as int;
                let l = last as int;
                assert(s * 1000 > dd <==> s > l) by (nonlinear_arith)
                    requires
                        l == dd / 1000,
                        dd >= 0,
                        s >= 0,
                ;
            }
            if seconds > last {
                Err(
                    ParrotError::OutOfRange {
                        field: RangeField::Timestamp,
                        value: seconds,
                        min: 0,
                        max: last,
                    },
                )
            } else {
                Ok(seconds)
            }
        },
    }
}

/// Which of the two loop controls to send to the current track.
#[derive(Clone, Copy, Debug, PartialEq, Eq, Structural)]
pub enum LoopAction {
    Enable,
    Disable,
}

/// The control that flips looping: off when the track loops, on otherwise.
pub fn loop_toggle(was_looping: bool) -> (r: LoopAction)
    ensures
        r == (if was_looping {
            LoopAction::Disable
        } else {
            LoopAction::Enable
        }),
{
    if was_looping {
        LoopAction::Disable
    } else {
        LoopAction::Enable
    }
}

/// The outcome of a loop toggle once the engine has answered: the action
/// taken when it `accepted`, `OperationFailed` otherwise.
pub fn repeat_outcome(was_looping: bool, accepted: bool) -> (r: Result<LoopAction, ParrotError>)
    ensures
        accepted ==> r == Ok::<LoopAction, ParrotError>(
            if was_looping {
                LoopAction::Disable
            } else {
                LoopAction::Enable
            },
        ),
        !accepted ==> r == Err::<LoopAction, ParrotError>(ParrotError::OperationFailed),
{
    if accepted {
        Ok(loop_toggle(was_looping))
    } else {
        Err(ParrotError::OperationFailed)
    }
}

/// The outcome of a pause, resume or other control request once the
/// engine has answered.
pub fn engine_outcome(accepted: bool) -> (r: Result<(), ParrotError>)
    ensures
        accepted ==> r is Ok,
        !accepted ==> r == Err::<(), ParrotError>(ParrotError::OperationFailed),
{
    if accepted {
        Ok(())
    } else {
        Err(ParrotError::OperationFailed)
    }
}

} // verus!
