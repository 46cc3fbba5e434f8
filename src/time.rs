//! Epochs and durations as signed counts of nanoseconds.

use vstd::prelude::*;

verus! {

pub const NANOS_PER_SECOND: i128 = 1_000_000_000;

pub const NANOS_PER_MINUTE: i128 = 60_000_000_000;

pub const NANOS_PER_HOUR: i128 = 3_600_000_000_000;

pub const NANOS_PER_DAY: i128 = 86_400_000_000_000;

/// Largest magnitude, in nanoseconds, of a duration or of an epoch's offset
/// from the reference epoch (about 3.17e13 years).
pub const NANOS_LIMIT: i128 = 1_000_000_000_000_000_000_000_000_000_000;

/// A signed span of time, in nanoseconds.
#[derive(Clone, Copy, Debug, PartialEq, Eq, Structural)]
pub struct Duration {
    pub nanos: i128,
}

/// An instant, as the signed number of nanoseconds since the reference epoch.
#[derive(Clone, Copy, Debug, PartialEq, Eq, Structural)]
pub struct Epoch {
    pub nanos: i128,
}

pub open spec fn in_range(n: int) -> bool {
    -NANOS_LIMIT <= n <= NANOS_LIMIT
}

impl Duration {
    pub open spec fn wf(self) -> bool {
        in_range(self.nanos as int)
    }

    pub fn from_nanos(nanos: i128) -> (r: Duration)
        requires
            in_range(nanos as int),
        ensures
            r.nanos == nanos,
            r.wf(),
    {
        Duration { nanos }
    }

    pub fn from_seconds(seconds: i64) -> (r: Duration)
        ensures
            r.nanos == seconds as int * NANOS_PER_SECOND,
            r.wf(),
    {
        let ghost s = seconds as int;
        assert(s * 1_000_000_000 <= 9_223_372_036_854_775_807 * 1_000_000_000) by (nonlinear_arith)
            requires
                s <= 9_223_372_036_854_775_807,
        ;
        assert(s * 1_000_000_000 >= -9_223_372_036_854_775_808 * 1_000_000_000) by (nonlinear_arith)
            requires
                s >= -9_223_372_036_854_775_808,
        ;
        Duration { nanos: seconds as i128 * NANOS_PER_SECOND }
    }

    pub fn zero() -> (r: Duration)
        ensures
            r.nanos == 0,
    {
        Duration { nanos: 0 }
    }

    pub fn is_zero(&self) -> (r: bool)
        ensures
            r == (self.nanos == 0),
    {
        self.nanos == 0
    }

    /// The same span in the opposite direction of time.
    pub fn negated(&self) -> (r: Duration)
        requires
            self.wf(),
        ensures
            r.nanos == -self.nanos,
            r.wf(),
    {
        Duration { nanos: -self.nanos }
    }

    /// The magnitude of the span.
    pub fn abs(&self) -> (r: Duration)
        requires
            self.wf(),
        ensures
            r.nanos == if self.nanos < 0 { -self.nanos } else { self.nanos as int },
            r.wf(),
    {
        if self.nanos < 0 {
            Duration { nanos: -self.nanos }
        } else {
            *self
        }
    }
}

impl Epoch {
    pub open spec fn wf(self) -> bool {
        in_range(self.nanos as int)
    }

    pub fn from_nanos(nanos: i128) -> (r: Epoch)
        requires
            in_range(nanos as int),
        ensures
            r.nanos == nanos,
            r.wf(),
    {
        Epoch { nanos }
    }

    /// The epoch that lies `d` after this one (before it, for a negative `d`).
    pub fn shifted(&self, d: Duration) -> (r: Epoch)
        requires
            in_range(self.nanos + d.nanos),
        ensures
            r.nanos == self.nanos + d.nanos,
            r.wf(),
    {
        Epoch { nanos: self.nanos + d.nanos }
    }

    /// The span from `earlier` to this epoch (negative when `earlier` is later).
    pub fn since(&self, earlier: Epoch) -> (r: Duration)
        requires
            in_range(self.nanos - earlier.nanos),
        ensures
            r.nanos == self.nanos - earlier.nanos,
            r.wf(),
    {
        Duration { nanos: self.nanos - earlier.nanos }
    }
}

} // verus!
