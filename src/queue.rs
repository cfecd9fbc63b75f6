use vstd::prelude::*;

use crate::errors::{ParrotError, RangeField};

verus! {

/// A queued track as the core sees it: an identity into the audio engine
/// and its length in milliseconds (`None` for a live stream).
#[derive(Clone, Copy, Debug, PartialEq, Eq, Structural)]
pub struct Track {
    pub id: u64,
    pub duration_ms: Option<u64>,
}

/// Where the pending item at index `j` comes from after a right rotation
/// by `k` of `m` pending items (`k < m`).
pub open spec fn rotation_source(j: int, k: int, m: int) -> int {
    if j >= k {
        j - k
    } else {
        j + m - k
    }
}

/// Where the pending item at index `i` goes under a right rotation by `k`
/// of `m` pending items (`k < m`).
pub open spec fn rotation_target(i: int, k: int, m: int) -> int {
    if i + k < m {
        i + k
    } else {
        i + k - m
    }
}

/// `p` rotated right by `n` positions, with wrap-around.
pub open spec fn rotated_right(p: Seq<Track>, n: nat) -> Seq<Track> {
    Seq::new(p.len(), |j: int| p[rotation_source(j, (n % p.len()) as int, p.len() as int)])
}

/// `q` with its head kept in place and the rest rotated right by `n`.
pub open spec fn rotate_pending(q: Seq<Track>, n: nat) -> Seq<Track> {
    seq![q[0]] + rotated_right(q.skip(1), n)
}

/// Whether `r` reports `expected`, with the queue going from `before` to
/// `after`: on success the queue became the expected sequence and `r` is a
/// snapshot of it; on failure the queue was left alone.
pub open spec fn reports(
    r: Result<Vec<Track>, ParrotError>,
    expected: Result<Seq<Track>, ParrotError>,
    before: Seq<Track>,
    after: Seq<Track>,
) -> bool {
    match expected {
        Ok(s) => after == s && r is Ok && r->Ok_0@ == s,
        Err(e) => after == before && r == Err::<Vec<Track>, ParrotError>(e),
    }
}

/// What `insert_at(t, index)` makes of `q`.
pub open spec fn insert_result(q: Seq<Track>, t: Track, index: int) -> Result<
    Seq<Track>,
    ParrotError,
> {
    if q.len() <= 1 {
        Ok(q.push(t))
    } else if 1 <= index <= q.len() {
        Ok(q.insert(index, t))
    } else {
        Err(
            ParrotError::OutOfRange {
                field: RangeField::Index,
                value: index as u64,
                min: 1,
                max: q.len() as u64,
            },
        )
    }
}

/// What `rotate(n)` makes of `q`.
pub open spec fn rotate_result(q: Seq<Track>, n: nat) -> Result<Seq<Track>, ParrotError> {
    if q.len() < 3 {
        Err(ParrotError::InvalidOperation)
    } else {
        Ok(rotate_pending(q, n))
    }
}

/// What `force_skip_top()` makes of `q`.
pub open spec fn skip_result(q: Seq<Track>) -> Result<Seq<Track>, ParrotError> {
    if q.len() == 0 {
        Err(ParrotError::NothingPlaying)
    } else {
        Ok(q.skip(1))
    }
}

/// The ordered playback queue of one session. Index 0, when present, is the
/// track now playing; the rest are pending.
pub struct Queue {
    tracks: Vec<Track>,
}

impl View for Queue {
    type V = Seq<Track>;

    closed spec fn view(&self) -> Seq<Track> {
        self.tracks@
    }
}

impl Queue {
    pub fn new() -> (r: Queue)
        ensures
            r@ == Seq::<Track>::empty(),
    {
        Queue { tracks: Vec::new() }
    }

    pub fn len(&self) -> (r: usize)
        ensures
            r == self@.len(),
    {
        self.tracks.len()
    }

    pub fn is_empty(&self) -> (r: bool)
        ensures
            r == (self@.len() == 0),
    {
        self.tracks.len() == 0
    }

    /// A fresh copy of the queue's contents.
    pub fn snapshot(&self) -> (r: Vec<Track>)
        ensures
            r@ == self@,
    {
        let r = self.tracks.clone();
        assert(r@ =~= self@);
        r
    }

    /// Adds `t` at the back and returns the queue as it is afterwards.
    pub fn append(&mut self, t: Track) -> (r: Vec<Track>)
        ensures
            final(self)@ == old(self)@.push(t),
            r@ == final(self)@,
    {
        self.tracks.push(t);
        self.snapshot()
    }

    /// The track now playing, if any.
    pub fn current(&self) -> (r: Option<Track>)
        ensures
            self@.len() == 0 ==> r is None,
            self@.len() > 0 ==> r == Some(self@[0]),
    {
        if self.tracks.len() == 0 {
            None
        } else {
            Some(self.tracks[0])
        }
    }

    /// The track now playing, or `NothingPlaying` on an empty queue.
    pub fn require_current(&self) -> (r: Result<Track, ParrotError>)
        ensures
            self@.len() == 0 ==> r == Err::<Track, ParrotError>(ParrotError::NothingPlaying),
            self@.len() > 0 ==> r == Ok::<Track, ParrotError>(self@[0]),
    {
        if self.tracks.len() == 0 {
            Err(ParrotError::NothingPlaying)
        } else {
            Ok(self.tracks[0])
        }
    }

    /// Puts `t` at position `index` (1 is "play next"); the tracks before
    /// and after it keep their order. Index 0 belongs to the track now
    /// playing and is never a target. While the queue holds at most one
    /// track this is `append`, whatever the index.
    pub fn insert_at(&mut self, t: Track, index: usize) -> (r: Result<Vec<Track>, ParrotError>)
        ensures
            reports(r, insert_result(old(self)@, t, index as int), old(self)@, final(self)@),
            1 <= index <= old(self)@.len() ==> final(self)@[index as int] == t && final(self)@.remove(
                index as int,
            ) == old(self)@,
    {
        let len = self.tracks.len();
        if len <= 1 {
            proof {
                if 1 <= index <= len {
                    assert(old(self)@.push(t).remove(index as int) =~= old(self)@);
                }
            }
            return Ok(self.append(t));
        }
        if index == 0 || index > len {
            return Err(
                ParrotError::OutOfRange {
                    field: RangeField::Index,
                    value: index as u64,
                    min: 1,
                    max: len as u64,
                },
            );
        }
        self.tracks.insert(index, t);
        assert(self@.remove(index as int) =~= old(self)@);
        Ok(self.snapshot())
    }

    /// Rotates the pending tracks right by `n` (with wrap-around), leaving
    /// the track now playing in place. Needs at least three tracks.
    pub fn rotate(&mut self, n: usize) -> (r: Result<Vec<Track>, ParrotError>)
        ensures
            reports(r, rotate_result(old(self)@, n as nat), old(self)@, final(self)@),
    {
        let len = self.tracks.len();
        if len < 3 {
            return Err(ParrotError::InvalidOperation);
        }
        let m = len - 1;
        let k = n % m;
        let ghost pending = self@.skip(1);
        let mut out: Vec<Track> = Vec::with_capacity(len);
        out.push(self.tracks[0]);
        let mut j: usize = 0;
        while j < m
            invariant
                m == len - 1,
                len == self@.len(),
                len >= 3,
                k == n % m,
                k < m,
                pending == self@.skip(1),
                j <= m,
                out@.len() == j + 1,
                out@[0] == self@[0],
                forall|i: int|
                    0 <= i < j ==> #[trigger] out@[i + 1] == rotated_right(pending, n as nat)[i],
            decreases m - j,
        {
            let src = if j >= k {
                j - k
            } else {
                m - k + j
            };
            out.push(self.tracks[1 + src]);
            j += 1;
        }
        assert(out@ =~= rotate_pending(self@, n as nat)) by {
            assert forall|i: int| 0 <= i < out@.len() implies out@[i] == rotate_pending(
                self@,
                n as nat,
            )[i] by {
                if i > 0 {
                    assert(out@[(i - 1) + 1] == rotated_right(pending, n as nat)[i - 1]);
                }
            }
        }
        self.tracks = out;
        Ok(self.snapshot())
    }

    /// Drops the track now playing, whatever its state; the next one
    /// becomes current.
    pub fn force_skip_top(&mut self) -> (r: Result<Vec<Track>, ParrotError>)
        ensures
            reports(r, skip_result(old(self)@), old(self)@, final(self)@),
    {
        if self.tracks.len() == 0 {
            return Err(ParrotError::NothingPlaying);
        }
        self.tracks.remove(0);
        assert(self@ =~= old(self)@.skip(1));
        Ok(self.snapshot())
    }

    /// Drops every pending track and keeps the one now playing.
    pub fn clear_pending(&mut self) -> (r: Result<Vec<Track>, ParrotError>)
        ensures
            old(self)@.len() <= 1 ==> r == Err::<Vec<Track>, ParrotError>(ParrotError::QueueEmpty)
                && final(self)@ == old(self)@,
            old(self)@.len() > 1 ==> r is Ok && final(self)@ == old(self)@.take(1),
            r matches Ok(s) ==> s@ == final(self)@,
    {
        if self.tracks.len() <= 1 {
            return Err(ParrotError::QueueEmpty);
        }
        self.tracks.truncate(1);
        assert(self@ =~= old(self)@.take(1));
        Ok(self.snapshot())
    }

    /// Stops playback: the track now playing and everything pending leave
    /// the queue.
    pub fn stop(&mut self) -> (r: Result<Vec<Track>, ParrotError>)
        ensures
            old(self)@.len() == 0 ==> r == Err::<Vec<Track>, ParrotError>(
                ParrotError::NothingPlaying,
            ) && final(self)@ == old(self)@,
            old(self)@.len() > 0 ==> r is Ok && final(self)@ == Seq::<Track>::empty(),
            r matches Ok(s) ==> s@ == final(self)@,
    {
        if self.tracks.len() == 0 {
            return Err(ParrotError::NothingPlaying);
        }
        self.tracks.truncate(0);
        assert(self@ =~= Seq::<Track>::empty());
        Ok(self.snapshot())
    }
}

} // verus!

verus! {

/// For every valid position `1 <= i <= len(q)`, inserting `t` at `i`
/// succeeds and puts `t` at `i`: the tracks before `i` stay where they
/// were, the rest follow `t` in their order, and the track now playing
/// stays current.
pub proof fn lemma_insert_places_track(q: Seq<Track>, t: Track, i: int)
    requires
        1 <= i <= q.len(),
    ensures
        insert_result(q, t, i) is Ok,
        ({
            let s = insert_result(q, t, i)->Ok_0;
            &&& s == q.subrange(0, i) + seq![t] + q.subrange(i, q.len() as int)
            &&& s.len() == q.len() + 1
            &&& s[i] == t
            &&& s.remove(i) == q
            &&& s[0] == q[0]
        }),
{
    let s = insert_result(q, t, i)->Ok_0;
    if q.len() <= 1 {
        assert(s =~= q.subrange(0, i) + seq![t] + q.subrange(i, q.len() as int));
    } else {
        assert(s =~= q.subrange(0, i) + seq![t] + q.subrange(i, q.len() as int));
    }
    assert(s.remove(i) =~= q);
}

/// On a queue of two or more tracks, inserting at index 0 or past the end
/// fails with `OutOfRange` and leaves the queue as it was.
pub proof fn lemma_insert_out_of_range(q: Seq<Track>, t: Track, index: int)
    requires
        q.len() >= 2,
        index == 0 || index > q.len(),
    ensures
        insert_result(q, t, index) == Err::<Seq<Track>, ParrotError>(
            ParrotError::OutOfRange {
                field: RangeField::Index,
                value: index as u64,
                min: 1,
                max: q.len() as u64,
            },
        ),
        forall|r: Result<Vec<Track>, ParrotError>, after: Seq<Track>|
            #[trigger] reports(r, insert_result(q, t, index), q, after) ==> after == q && r is Err,
{
}

/// Rotating the pending tracks by `n` and then by `len(pending) - n`
/// gives back the order it started from.
pub proof fn lemma_rotate_round_trip(q: Seq<Track>, n: nat)
    requires
        q.len() >= 3,
        n <= q.len() - 1,
    ensures
        rotate_pending(rotate_pending(q, n), (q.len() - 1 - n) as nat) == q,
{
    let m = (q.len() - 1) as int;
    let back = (m - n) as nat;
    let once = rotate_pending(q, n);
    let twice = rotate_pending(once, back);
    let k1 = (n % (m as nat)) as int;
    let k2 = (back % (m as nat)) as int;
    assert(once.skip(1) =~= rotated_right(q.skip(1), n));
    if n == 0 || n == m {
        vstd::arithmetic::div_mod::lemma_mod_self_0(m);
        vstd::arithmetic::div_mod::lemma_small_mod(0, m as nat);
        assert(k1 == 0 && k2 == 0);
    } else {
        vstd::arithmetic::div_mod::lemma_small_mod(n, m as nat);
        vstd::arithmetic::div_mod::lemma_small_mod(back, m as nat);
        assert(k1 == n && k2 == m - n);
    }
    assert forall|i: int| 0 <= i < q.len() implies twice[i] == q[i] by {
        if i > 0 {
            let j = i - 1;
            let mid = rotation_source(j, k2, m);
            assert(twice[i] == once.skip(1)[mid]);
            assert(once.skip(1)[mid] == q.skip(1)[rotation_source(mid, k1, m)]);
        }
    }
    assert(twice =~= q);
}

/// Rotation moves each pending track to exactly one pending slot: the track
/// at pending index `i` lands at `rotation_target(i, n % m, m)`, a slot
/// within range, and distinct indices land on distinct slots.
pub proof fn lemma_rotate_bijection(q: Seq<Track>, n: nat)
    requires
        q.len() >= 3,
    ensures
        ({
            let m = q.len() - 1;
            let k = (n % (m as nat)) as int;
            &&& forall|i: int|
                0 <= i < m ==> 0 <= #[trigger] rotation_target(i, k, m) < m
                    && rotate_pending(q, n)[1 + rotation_target(i, k, m)] == q[1 + i]
            &&& forall|i1: int, i2: int|
                0 <= i1 < m && 0 <= i2 < m && i1 != i2 ==> #[trigger] rotation_target(i1, k, m)
                    != #[trigger] rotation_target(i2, k, m)
        }),
{
    let m = (q.len() - 1) as int;
    let k = (n % (m as nat)) as int;
    vstd::arithmetic::div_mod::lemma_mod_bound(n as int, m);
    assert forall|i: int| 0 <= i < m implies 0 <= #[trigger] rotation_target(i, k, m) < m
        && rotate_pending(q, n)[1 + rotation_target(i, k, m)] == q[1 + i] by {
        let t = rotation_target(i, k, m);
        assert(rotation_source(t, k, m) == i);
        assert(rotate_pending(q, n)[1 + t] == rotated_right(q.skip(1), n)[t]);
    }
}

} // verus!
