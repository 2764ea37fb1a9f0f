//! Half-open ranges of the ray parameter.

use vstd::prelude::*;
use crate::scalar::Scalar;

verus! {

/// The parameters `t` with `start <= t < end`.
#[derive(Clone, Copy, Debug, PartialEq, Eq, Structural)]
pub struct Interval {
    pub start: Scalar,
    pub end: Scalar,
}

impl Interval {
    /// Whether neither bound is a NaN.
    pub open spec fn is_number(self) -> bool {
        !self.start.nan() && !self.end.nan()
    }

    /// Whether the number of rank `c` lies in the interval. An interval with
    /// a NaN bound holds nothing.
    pub open spec fn holds(self, c: int) -> bool {
        self.is_number() && self.start.rank() <= c < self.end.rank()
    }

    /// Whether `t` lies in the interval; a NaN never does.
    pub open spec fn contains_spec(self, t: Scalar) -> bool {
        !t.nan() && self.holds(t.rank())
    }

    /// Whether `end <= start` holds numerically. An interval for which it
    /// does holds no number; one with a NaN bound is not vacant by this test.
    pub open spec fn vacant_spec(self) -> bool {
        self.end.le_spec(self.start)
    }

    /// Whether both bounds are numerically equal to those of `other`.
    pub open spec fn same(self, other: Interval) -> bool {
        self.start.equals_spec(other.start) && self.end.equals_spec(other.end)
    }

    /// Whether every number of `other` lies in `self`, by the bounds.
    pub open spec fn encloses(self, other: Interval) -> bool {
        self.start.le_spec(other.start) && other.end.le_spec(self.end)
    }

    /// The interval with the same start and the given end.
    pub open spec fn with_end_spec(self, end: Scalar) -> Interval {
        Interval { start: self.start, end }
    }

    /// The interval from `start` to `end`.
    pub fn new(start: Scalar, end: Scalar) -> (r: Interval)
        ensures
            r == (Interval { start, end }),
    {
        Interval { start, end }
    }

    /// Whether `t` lies in the interval.
    pub fn contains(self, t: Scalar) -> (r: bool)
        ensures
            r == self.contains_spec(t),
    {
        self.start.le(t) && t.lt(self.end)
    }

    /// Whether `end <= start`.
    pub fn is_vacant(self) -> (r: bool)
        ensures
            r == self.vacant_spec(),
    {
        self.end.le(self.start)
    }

    /// The interval with the same start and the given end.
    pub fn with_end(self, end: Scalar) -> (r: Interval)
        ensures
            r == self.with_end_spec(end),
    {
        Interval { start: self.start, end }
    }
}

} // verus!
