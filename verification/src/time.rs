//! Time spans with sub-second resolution.
//!
//! The clock logic works on non-negative time spans measured in ticks. The
//! user interface deals in whole seconds, but ticks are finer grained so that
//! the periodic clock event may carry any span.

use vstd::prelude::*;

verus! {

/// Number of ticks in one second: one tick is one millisecond.
pub const TICKS_PER_SEC: u64 = 1000;

/// A non-negative time span, counted in ticks of [`TICKS_PER_SEC`] per second.
#[derive(Clone, Copy, PartialEq, Eq, Structural, Debug)]
pub struct Duration {
    pub ticks: u64,
}

impl Duration {
    /// Subtraction clamped at zero: a span never goes negative.
    pub open spec fn sat_sub(self, other: Duration) -> Duration {
        if self.ticks >= other.ticks {
            Duration { ticks: (self.ticks - other.ticks) as u64 }
        } else {
            Duration { ticks: 0 }
        }
    }

    /// The span of a whole number of seconds.
    pub open spec fn spec_secs(secs: int) -> Duration {
        Duration { ticks: (secs * TICKS_PER_SEC) as u64 }
    }

    /// The span rounded up to whole seconds.
    pub open spec fn spec_ceil_secs(self) -> u64 {
        if self.ticks % TICKS_PER_SEC == 0 {
            (self.ticks / TICKS_PER_SEC) as u64
        } else {
            (self.ticks / TICKS_PER_SEC + 1) as u64
        }
    }

    pub fn from_ticks(ticks: u64) -> (r: Duration)
        ensures
            r.ticks == ticks,
    {
        Duration { ticks }
    }

    pub fn from_secs(secs: u64) -> (r: Duration)
        requires
            secs <= u64::MAX / TICKS_PER_SEC,
        ensures
            r.ticks == secs * TICKS_PER_SEC,
    {
        Duration { ticks: secs * TICKS_PER_SEC }
    }

    pub fn from_millis(millis: u64) -> (r: Duration)
        ensures
            r.ticks == millis,
    {
        Duration { ticks: millis }
    }

    pub fn as_ticks(&self) -> (r: u64)
        ensures
            r == self.ticks,
    {
        self.ticks
    }

    /// Whole seconds, rounded down.
    pub fn as_secs(&self) -> (r: u64)
        ensures
            r == self.ticks / TICKS_PER_SEC,
    {
        self.ticks / TICKS_PER_SEC
    }

    /// Subtraction clamped at zero.
    pub fn saturating_sub(self, other: Duration) -> (r: Duration)
        ensures
            r == self.sat_sub(other),
    {
        if self.ticks >= other.ticks {
            Duration { ticks: self.ticks - other.ticks }
        } else {
            Duration { ticks: 0 }
        }
    }
}

} // verus!
