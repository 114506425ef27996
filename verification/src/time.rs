use vstd::prelude::*;

verus! {

/// The number of nanoseconds in a millisecond.
pub const NANOS_PER_MILLI: u64 = 1_000_000;

/// A span of time in whole nanoseconds: the time that passed between two
/// frames, or the length of an animation phase.
#[derive(Clone, Copy, Debug, PartialEq, Eq, Structural)]
pub struct TimeSpan {
    pub nanos: u64,
}

impl TimeSpan {
    /// The empty span.
    pub fn zero() -> (r: Self)
        ensures
            r.nanos == 0,
    {
        TimeSpan { nanos: 0 }
    }

    /// The longest span there is.
    pub fn max() -> (r: Self)
        ensures
            r.nanos == u64::MAX,
    {
        TimeSpan { nanos: u64::MAX }
    }

    /// A span of `nanos` nanoseconds.
    pub fn from_nanos(nanos: u64) -> (r: Self)
        ensures
            r.nanos == nanos,
    {
        TimeSpan { nanos }
    }

    /// A span of `millis` milliseconds, or the longest span if that many
    /// nanoseconds cannot be counted.
    pub fn from_millis(millis: u64) -> (r: Self)
        ensures
            r.nanos == if millis * NANOS_PER_MILLI <= u64::MAX {
                millis * NANOS_PER_MILLI
            } else {
                u64::MAX as int
            },
    {
        if millis <= u64::MAX / NANOS_PER_MILLI {
            TimeSpan { nanos: millis * NANOS_PER_MILLI }
        } else {
            TimeSpan { nanos: u64::MAX }
        }
    }

    /// The whole milliseconds in this span.
    pub fn as_millis(&self) -> (r: u64)
        ensures
            r == self.nanos / NANOS_PER_MILLI,
    {
        self.nanos / NANOS_PER_MILLI
    }

    /// Whether the span is empty.
    pub fn is_zero(&self) -> (r: bool)
        ensures
            r == (self.nanos == 0),
    {
        self.nanos == 0
    }

    /// What is left of this span after `other` has passed: the difference,
    /// floored at zero.
    pub fn saturating_sub(&self, other: TimeSpan) -> (r: Self)
        ensures
            r.nanos == if self.nanos >= other.nanos {
                self.nanos - other.nanos
            } else {
                0
            },
    {
        if self.nanos >= other.nanos {
            TimeSpan { nanos: self.nanos - other.nanos }
        } else {
            TimeSpan { nanos: 0 }
        }
    }

    /// The two spans one after the other, capped at the longest span.
    pub fn saturating_add(&self, other: TimeSpan) -> (r: Self)
        ensures
            r.nanos == if self.nanos + other.nanos <= u64::MAX {
                self.nanos + other.nanos
            } else {
                u64::MAX as int
            },
    {
        if other.nanos <= u64::MAX - self.nanos {
            TimeSpan { nanos: self.nanos + other.nanos }
        } else {
            TimeSpan { nanos: u64::MAX }
        }
    }
}

} // verus!
