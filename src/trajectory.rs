//! Trajectory assembly: the sliding window that cuts the stream of propagated
//! states into interpolation buckets, and the ordered map of segments that the
//! fitted buckets become.

use vstd::prelude::*;
use crate::time::{Duration, Epoch};

verus! {

/// The `k`-th full bucket of a stream of states: `samples` states starting at
/// `k * (samples - 1)`, so that each bucket starts on the last state of the one
/// before it.
pub open spec fn bucket_of<T>(history: Seq<T>, samples: int, k: int) -> Seq<T> {
    history.subrange(k * (samples - 1), k * (samples - 1) + samples)
}

proof fn lemma_buckets_survive_push<T>(history: Seq<T>, x: T, published: Seq<Seq<T>>, p: int)
    requires
        p >= 2,
        published.len() * (p - 1) < history.len(),
        forall|k: int| 0 <= k < published.len() ==> #[trigger] published[k] == bucket_of(history, p, k),
    ensures
        forall|k: int|
            0 <= k < published.len() ==> #[trigger] published[k] == bucket_of(history.push(x), p, k),
{
    assert forall|k: int| 0 <= k < published.len() implies #[trigger] published[k] == bucket_of(
        history.push(x),
        p,
        k,
    ) by {
        assert(k * (p - 1) + p <= published.len() * (p - 1) + 1) by (nonlinear_arith)
            requires
                0 <= k < published.len(),
                p >= 2,
        ;
        assert(k * (p - 1) >= 0) by (nonlinear_arith)
            requires
                0 <= k,
                p >= 2,
        ;
        assert(bucket_of(history, p, k) =~= bucket_of(history.push(x), p, k));
    }
}

/// Cuts the stream of states into buckets of `samples` states. The window holds
/// the states not yet published, together with the last state of the previous
/// bucket; once it holds `2 * samples` states its first `samples` are published.
pub struct Bucketer<T> {
    pub samples: usize,
    pub window: Vec<T>,
    /// Every state received so far, the start state first.
    pub history: Ghost<Seq<T>>,
    /// Every bucket published so far.
    pub published: Ghost<Seq<Seq<T>>>,
}

impl<T: Copy> Bucketer<T> {
    pub open spec fn offset(self) -> int {
        self.published@.len() * (self.samples - 1)
    }

    pub open spec fn wf(self) -> bool {
        &&& 2 <= self.samples <= usize::MAX / 2
        &&& self.history@.len() >= 1
        &&& 0 <= self.offset() < self.history@.len()
        &&& self.window@ == self.history@.subrange(self.offset(), self.history@.len() as int)
        &&& self.window@.len() < 2 * self.samples
        &&& forall|k: int|
            0 <= k < self.published@.len() ==> #[trigger] self.published@[k] == bucket_of(
                self.history@,
                self.samples as int,
                k,
            )
    }

    /// A window holding the start state alone.
    pub fn new(start: T, samples: usize) -> (r: Bucketer<T>)
        requires
            2 <= samples <= usize::MAX / 2,
        ensures
            r.wf(),
            r.samples == samples,
            r.history@ == seq![start],
            r.published@.len() == 0,
    {
        let mut window: Vec<T> = Vec::new();
        window.push(start);
        let ghost h: Seq<T> = seq![start];
        let ghost e: Seq<Seq<T>> = Seq::empty();
        let r = Bucketer { samples, window, history: Ghost(h), published: Ghost(e) };
        assert(r.window@ =~= r.history@.subrange(0, 1));
        r
    }

    /// Takes in the next state. When the window becomes full, its first
    /// `samples` states are returned as a bucket, and all but the last of them
    /// leave the window.
    pub fn push(&mut self, state: T) -> (r: Option<Vec<T>>)
        requires
            old(self).wf(),
        ensures
            final(self).wf(),
            final(self).samples == old(self).samples,
            final(self).history@ == old(self).history@.push(state),
            r is Some <==> old(self).window@.len() + 1 == 2 * old(self).samples,
            r is Some ==> final(self).published@ == old(self).published@.push(r->0@),
            r is Some ==> r->0@ == bucket_of(
                final(self).history@,
                old(self).samples as int,
                old(self).published@.len() as int,
            ),
            r is None ==> final(self).published@ == old(self).published@,
    {
        let p = self.samples;
        let ghost old_offset = self.offset();
        let ghost k = self.published@.len() as int;
        self.window.push(state);
        let ghost extended = self.history@.push(state);
        self.history = Ghost(extended);
        assert(self.window@ =~= self.history@.subrange(old_offset, self.history@.len() as int));
        proof {
            lemma_buckets_survive_push(old(self).history@, state, self.published@, p as int);
        }
        if self.window.len() < 2 * p {
            return None;
        }
        let out = copy_range(&self.window, 0, p);
        let rest = copy_range(&self.window, p - 1, 2 * p);
        self.window = rest;
        assert(k * (p - 1) == old_offset);
        assert((k + 1) * (p - 1) == k * (p - 1) + (p - 1)) by (nonlinear_arith);
        let ghost h = self.history@;
        assert(out@ =~= h.subrange(old_offset, old_offset + p));
        assert(out@ == bucket_of(h, p as int, k));
        let ghost with_out = self.published@.push(out@);
        self.published = Ghost(with_out);
        assert(self.window@ =~= self.history@.subrange(self.offset(), self.history@.len() as int));
        assert(self.published@[k] == bucket_of(self.history@, p as int, k));
        Some(out)
    }

    /// Fewer states than one bucket were ever received.
    pub fn too_short(&self) -> (r: bool)
        ensures
            r == (self.window@.len() < self.samples),
    {
        self.window.len() < self.samples
    }

    /// The bucket that closes the stream: what is left in the window, which
    /// starts on the last state of the previous bucket. There is none when
    /// that state is all the window holds.
    pub fn finish(&self) -> (r: Vec<Vec<T>>)
        requires
            self.wf(),
        ensures
            tail_spec(self.window@, r@),
    {
        tail_buckets(&self.window)
    }
}

/// The final bucket of a stream: the whole remaining window, when it holds at
/// least two states to join.
pub open spec fn tail_spec<T>(window: Seq<T>, buckets: Seq<Vec<T>>) -> bool {
    if window.len() >= 2 {
        buckets.len() == 1 && buckets[0]@ == window
    } else {
        buckets.len() == 0
    }
}

fn copy_range<T: Copy>(v: &Vec<T>, lo: usize, hi: usize) -> (r: Vec<T>)
    requires
        lo <= hi <= v@.len(),
    ensures
        r@ == v@.subrange(lo as int, hi as int),
{
    let mut out: Vec<T> = Vec::new();
    let mut i: usize = lo;
    while i < hi
        invariant
            lo <= i <= hi <= v@.len(),
            out@ == v@.subrange(lo as int, i as int),
        decreases hi - i,
    {
        out.push(v[i]);
        i = i + 1;
        assert(out@ =~= v@.subrange(lo as int, i as int));
    }
    out
}

/// The bucket that closes a stream whose remaining window is `window`.
pub fn tail_buckets<T: Copy>(window: &Vec<T>) -> (r: Vec<Vec<T>>)
    ensures
        tail_spec(window@, r@),
{
    let n = window.len();
    let mut r: Vec<Vec<T>> = Vec::new();
    if n >= 2 {
        r.push(copy_range(window, 0, n));
        assert(window@.subrange(0, n as int) =~= window@);
    }
    r
}

/// Consecutive full buckets are contiguous: each holds `samples` states and ends
/// on the very state with which the next one starts, so no state is skipped and
/// only that boundary state is shared.
pub proof fn consecutive_buckets_share_boundary<T>(history: Seq<T>, samples: int, k: int)
    requires
        samples >= 2,
        k >= 0,
        (k + 1) * (samples - 1) + samples <= history.len(),
    ensures
        bucket_of(history, samples, k).len() == samples,
        bucket_of(history, samples, k + 1).len() == samples,
        bucket_of(history, samples, k).last() == bucket_of(history, samples, k + 1).first(),
{
    assert((k + 1) * (samples - 1) == k * (samples - 1) + samples - 1) by (nonlinear_arith);
    assert(k * (samples - 1) >= 0) by (nonlinear_arith)
        requires
            k >= 0,
            samples >= 2,
    ;
}

/// The fixed step that re-propagates a run too short to fill one bucket, so that
/// it yields at least `samples` states: the span divided by `samples - 1`, in the
/// direction of the span, and at least one nanosecond.
pub fn resample_step(span: Duration, samples: usize) -> (r: Duration)
    requires
        span.wf(),
        span.nanos != 0,
        samples >= 2,
    ensures
        ({
            let mag = if span.nanos < 0 { -span.nanos } else { span.nanos as int };
            let q = mag / (samples - 1);
            let q1 = if q == 0 { 1 } else { q };
            r.nanos == if span.nanos < 0 { -q1 } else { q1 }
        }),
        r.wf(),
{
    let mag = span.abs();
    let q: i128 = mag.nanos / ((samples - 1) as i128);
    let q1: i128 = if q == 0 { 1 } else { q };
    assert(q <= mag.nanos) by (nonlinear_arith)
        requires
            q as int == (mag.nanos as int) / ((samples - 1) as int),
            mag.nanos > 0,
            samples >= 2,
    ;
    if span.nanos < 0 {
        Duration { nanos: -q1 }
    } else {
        Duration { nanos: q1 }
    }
}

/// Why a trajectory refused a segment or a query.
#[derive(Clone, Copy, Debug, PartialEq, Eq, Structural)]
pub enum TrajError {
    /// The segment is empty, or it does not start where the trajectory begins
    /// or where its last segment ends.
    Discontinuous,
    /// The epoch lies outside the interval the trajectory covers.
    OutOfBounds,
}

/// A fitted piece of trajectory over `[start, end]`.
#[derive(Debug)]
pub struct Segment<S> {
    pub start: Epoch,
    pub end: Epoch,
    pub data: S,
}

/// Segments ordered by start epoch, each starting where the one before ends.
/// Segment `i` answers for the epochs from its start up to its end, which
/// belongs to the next segment; the last one answers up to its end included.
pub struct Trajectory<S> {
    pub start: Epoch,
    pub segments: Vec<Segment<S>>,
}

/// Segment `i` of `segs` answers for epoch `t`.
pub open spec fn governs<S>(segs: Seq<Segment<S>>, i: int, t: Epoch) -> bool {
    &&& 0 <= i < segs.len()
    &&& segs[i].start.nanos <= t.nanos
    &&& if i + 1 < segs.len() {
        t.nanos < segs[i + 1].start.nanos
    } else {
        t.nanos <= segs[i].end.nanos
    }
}

impl<S> Trajectory<S> {
    pub open spec fn wf(self) -> bool {
        let segs = self.segments@;
        &&& segs.len() > 0 ==> segs[0].start == self.start
        &&& forall|i: int| 0 <= i < segs.len() ==> (#[trigger] segs[i]).start.nanos < segs[i].end.nanos
        &&& forall|i: int, j: int|
            0 <= i < j < segs.len() ==> (#[trigger] segs[i]).start.nanos < (#[trigger] segs[j]).start.nanos
        &&& forall|i: int| 0 <= i < segs.len() - 1 ==> (#[trigger] segs[i + 1]).start == segs[i].end
    }

    /// The epoch lies in the interval that the segments cover.
    pub open spec fn covers(self, t: Epoch) -> bool {
        let segs = self.segments@;
        &&& segs.len() > 0
        &&& self.start.nanos <= t.nanos
        &&& t.nanos <= segs.last().end.nanos
    }

    /// A trajectory that begins at `start` and holds no segment yet.
    pub fn new(start: Epoch) -> (r: Trajectory<S>)
        ensures
            r.wf(),
            r.start == start,
            r.segments@.len() == 0,
    {
        Trajectory { start, segments: Vec::new() }
    }

    /// The covered interval is extended by a segment that starts exactly where
    /// the last one ends. The first segment must start where the trajectory
    /// begins.
    pub open spec fn accepts_segment(self, seg: Segment<S>) -> bool {
        let segs = self.segments@;
        &&& seg.start.nanos < seg.end.nanos
        &&& if segs.len() == 0 {
            seg.start == self.start
        } else {
            seg.start == segs.last().end
        }
    }

    /// Appends a segment, keeping the segments contiguous and in order.
    pub fn append(&mut self, seg: Segment<S>) -> (r: Result<(), TrajError>)
        requires
            old(self).wf(),
        ensures
            final(self).wf(),
            final(self).start == old(self).start,
            r is Ok <==> old(self).accepts_segment(seg),
            r is Ok ==> final(self).segments@ == old(self).segments@.push(seg),
            r is Err ==> r == Err::<(), TrajError>(TrajError::Discontinuous)
                && final(self).segments@ == old(self).segments@,
    {
        if seg.end.nanos <= seg.start.nanos {
            return Err(TrajError::Discontinuous);
        }
        let n = self.segments.len();
        if n == 0 {
            if seg.start != self.start {
                return Err(TrajError::Discontinuous);
            }
        } else {
            if seg.start != self.segments[n - 1].end {
                return Err(TrajError::Discontinuous);
            }
        }
        self.segments.push(seg);
        Ok(())
    }

    /// The index of the segment that answers for epoch `t`.
    pub fn locate(&self, t: Epoch) -> (r: Result<usize, TrajError>)
        requires
            self.wf(),
        ensures
            r is Ok <==> self.covers(t),
            r matches Ok(i) ==> governs(self.segments@, i as int, t),
            r is Err ==> r == Err::<usize, TrajError>(TrajError::OutOfBounds),
    {
        let n = self.segments.len();
        if n == 0 || t.nanos < self.start.nanos || t.nanos > self.segments[n - 1].end.nanos {
            return Err(TrajError::OutOfBounds);
        }
        let mut i: usize = 0;
        while i + 1 < n
            invariant
                self.wf(),
                n == self.segments@.len(),
                n > 0,
                0 <= i < n,
                self.segments@[i as int].start.nanos <= t.nanos,
                t.nanos <= self.segments@[n - 1].end.nanos,
            decreases n - i,
        {
            if t.nanos < self.segments[i + 1].start.nanos {
                return Ok(i);
            }
            i = i + 1;
        }
        Ok(i)
    }

    /// The epoch where the covered interval ends, if any segment was appended.
    pub fn end_epoch(&self) -> (r: Option<Epoch>)
        ensures
            r is Some <==> self.segments@.len() > 0,
            r matches Some(e) ==> e == self.segments@.last().end,
    {
        let n = self.segments.len();
        if n == 0 {
            None
        } else {
            Some(self.segments[n - 1].end)
        }
    }
}

/// Consecutive segments abut: each starts exactly where the one before ends,
/// after its own start.
pub proof fn segments_abut<S>(traj: Trajectory<S>, i: int)
    requires
        traj.wf(),
        0 <= i < traj.segments@.len() - 1,
    ensures
        traj.segments@[i + 1].start == traj.segments@[i].end,
        traj.segments@[i].start.nanos < traj.segments@[i + 1].start.nanos,
{
    assert(traj.segments@[i].start.nanos < traj.segments@[i].end.nanos);
}

/// Segments never overlap: no two segments answer for the same epoch.
pub proof fn segments_do_not_overlap<S>(traj: Trajectory<S>, t: Epoch, i: int, j: int)
    requires
        traj.wf(),
        governs(traj.segments@, i, t),
        governs(traj.segments@, j, t),
    ensures
        i == j,
{
    let segs = traj.segments@;
    if i < j {
        assert(segs[i + 1].start.nanos <= segs[j].start.nanos) by {
            if i + 1 < j {
                assert(segs[i + 1].start.nanos < segs[j].start.nanos);
            }
        }
    } else if j < i {
        assert(segs[j + 1].start.nanos <= segs[i].start.nanos) by {
            if j + 1 < i {
                assert(segs[j + 1].start.nanos < segs[i].start.nanos);
            }
        }
    }
}

/// Segments leave no gap: every epoch of the covered interval has a segment
/// that answers for it.
pub proof fn segments_are_contiguous<S>(traj: Trajectory<S>, t: Epoch)
    requires
        traj.wf(),
        traj.covers(t),
    ensures
        exists|i: int| governs(traj.segments@, i, t),
{
    let segs = traj.segments@;
    let n = segs.len();
    if t.nanos >= segs[n - 1].start.nanos {
        assert(governs(segs, n - 1, t));
    } else {
        lemma_governed_below(segs, traj.start, t, n - 1);
    }
}

proof fn lemma_governed_below<S>(segs: Seq<Segment<S>>, start: Epoch, t: Epoch, m: int)
    requires
        0 <= m < segs.len(),
        segs[0].start == start,
        start.nanos <= t.nanos,
        t.nanos < segs[m].start.nanos,
        forall|i: int, j: int|
            0 <= i < j < segs.len() ==> (#[trigger] segs[i]).start.nanos < (#[trigger] segs[j]).start.nanos,
    ensures
        exists|i: int| governs(segs, i, t),
    decreases m,
{
    if m == 0 {
    } else if t.nanos >= segs[m - 1].start.nanos {
        assert(governs(segs, m - 1, t));
    } else {
        lemma_governed_below(segs, start, t, m - 1);
    }
}

/// Fewer events were found than the one asked for.
#[derive(Clone, Copy, Debug, PartialEq, Eq, Structural)]
pub struct InsufficientTriggers {
    /// The index of the event asked for (0 for the first).
    pub wanted: usize,
    pub found: usize,
}

/// The event of index `trigger` among those found, in the order found.
pub fn nth_event<T: Copy>(events: &Vec<T>, trigger: usize) -> (r: Result<T, InsufficientTriggers>)
    ensures
        r is Ok <==> trigger < events@.len(),
        r matches Ok(e) ==> e == events@[trigger as int],
        r matches Err(e) ==> e == (InsufficientTriggers { wanted: trigger, found: events.len() }),
{
    if trigger < events.len() {
        Ok(events[trigger])
    } else {
        Err(InsufficientTriggers { wanted: trigger, found: events.len() })
    }
}

} // verus!
