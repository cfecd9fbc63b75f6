use vstd::prelude::*;

use crate::play::Mode;
use crate::queue::Track;

verus! {

/// The wait reported for a track that will never play, because a live
/// stream stands before it.
pub const UNBOUNDED_WAIT_MS: u64 = 0xffff_ffff_ffff_ffff;

/// `x` clipped to what a `u64` can hold.
pub open spec fn saturate(x: int) -> u64 {
    if x >= UNBOUNDED_WAIT_MS {
        UNBOUNDED_WAIT_MS
    } else {
        x as u64
    }
}

/// Whether some track of `s` is a live stream.
pub open spec fn has_live(s: Seq<Track>) -> bool {
    exists|i: int| 0 <= i < s.len() && (#[trigger] s[i]).duration_ms is None
}

/// The summed length of the finite tracks of `s`.
pub open spec fn total_ms(s: Seq<Track>) -> int
    decreases s.len(),
{
    if s.len() == 0 {
        0
    } else {
        total_ms(s.drop_last()) + match s.last().duration_ms {
            Some(d) => d as int,
            None => 0,
        }
    }
}

proof fn lemma_total_nonneg(s: Seq<Track>)
    ensures
        total_ms(s) >= 0,
    decreases s.len(),
{
    if s.len() > 0 {
        lemma_total_nonneg(s.drop_last());
    }
}

/// What is left of a track of length `d` once `elapsed` has played.
pub open spec fn remaining_ms(d: u64, elapsed: u64) -> int {
    if d >= elapsed {
        d - elapsed
    } else {
        0
    }
}

/// The tracks strictly between the one now playing and the last one.
pub open spec fn between(q: Seq<Track>) -> Seq<Track> {
    if q.len() >= 2 {
        q.subrange(1, q.len() - 1)
    } else {
        Seq::empty()
    }
}

/// The wait before the track just placed in `q` starts: at index 1 for
/// `Mode::Next`, at the back otherwise. `elapsed` is how far the current
/// track has played. `None` for an empty queue.
pub open spec fn wait_ms(q: Seq<Track>, elapsed: u64, mode: Mode) -> Option<u64> {
    if q.len() == 0 {
        None
    } else {
        match q[0].duration_ms {
            None => Some(UNBOUNDED_WAIT_MS),
            Some(d) => if mode == Mode::Next {
                Some(saturate(remaining_ms(d, elapsed)))
            } else if has_live(between(q)) {
                Some(UNBOUNDED_WAIT_MS)
            } else {
                Some(saturate(remaining_ms(d, elapsed) + total_ms(between(q))))
            },
        }
    }
}

/// Estimates how long the track just placed in `queue` waits before it
/// plays (see `wait_ms`).
pub fn estimate_wait(queue: &[Track], elapsed_ms: u64, mode: Mode) -> (r: Option<u64>)
    ensures
        r == wait_ms(queue@, elapsed_ms, mode),
{
    if queue.len() == 0 {
        return None;
    }
    let top = match queue[0].duration_ms {
        None => return Some(UNBOUNDED_WAIT_MS),
        Some(d) => d,
    };
    let remaining: u64 = if top >= elapsed_ms {
        top - elapsed_ms
    } else {
        0
    };
    if mode == Mode::Next {
        return Some(remaining);
    }
    let ghost q = queue@;
    let end: usize = if queue.len() >= 2 {
        queue.len() - 1
    } else {
        1
    };
    let mut acc: u64 = remaining;
    let mut i: usize = 1;
    while i < end
        invariant
            q == queue@,
            q.len() >= 1,
            end == (if q.len() >= 2 {
                q.len() - 1
            } else {
                1
            }),
            1 <= i <= end,
            q[0].duration_ms == Some(top),
            remaining == remaining_ms(top, elapsed_ms),
            mode != Mode::Next,
            !has_live(q.subrange(1, i as int)),
            acc == saturate(remaining + total_ms(q.subrange(1, i as int))),
        decreases end - i,
    {
        let ghost before = q.subrange(1, i as int);
        let ghost after = q.subrange(1, i + 1);
        assert(after.drop_last() =~= before);
        match queue[i].duration_ms {
            None => {
                assert(after[i - 1] == q[i as int]);
                assert(between(q) =~= q.subrange(1, q.len() - 1));
                assert(between(q)[i - 1] == q[i as int]);
                assert(has_live(between(q)));
                return Some(UNBOUNDED_WAIT_MS);
            },
            Some(d) => {
                assert(after.last() == q[i as int]);
                assert(total_ms(after) == total_ms(before) + d);
                let ghost x = remaining + total_ms(before);
                proof {
                    lemma_total_nonneg(before);
                }
                acc = if acc > UNBOUNDED_WAIT_MS - d {
                    UNBOUNDED_WAIT_MS
                } else {
                    acc + d
                };
                assert(acc == saturate(x + d));
                assert(!has_live(after)) by {
                    assert forall|j: int| 0 <= j < after.len() implies (
                    #[trigger] after[j]).duration_ms is Some by {
                        if j < before.len() {
                            assert(after[j] == before[j]);
                        }
                    }
                }
            },
        }
        i += 1;
    }
    assert(q.subrange(1, i as int) =~= between(q));
    Some(acc)
}

} // verus!
