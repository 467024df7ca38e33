//! The point at which an extremum was observed.

use vstd::prelude::*;

verus! {

/// A value together with the time at which it was observed. A time of zero
/// marks a point that was never set: its value means nothing.
#[derive(Clone, Copy, Debug, PartialEq, Eq, Structural)]
pub struct Point {
    pub value: u64,
    pub time: u64,
}

impl Point {
    /// Whether the point holds an observation.
    pub open spec fn is_set(self) -> bool {
        self.time > 0
    }

    /// The point that never was set.
    pub open spec fn unset() -> Point {
        Point { value: 0, time: 0 }
    }

    /// The largest observation after `value` was seen at `time`: the first
    /// observation is taken as it is, a later one only if it is strictly
    /// greater.
    pub open spec fn raised(self, value: u64, time: u64) -> Point {
        if self.is_set() && value <= self.value {
            self
        } else {
            Point { value, time }
        }
    }

    /// The smallest observation after `value` was seen at `time`: the first
    /// observation is taken as it is, a later one only if it is strictly
    /// less.
    pub open spec fn lowered(self, value: u64, time: u64) -> Point {
        if self.is_set() && value >= self.value {
            self
        } else {
            Point { value, time }
        }
    }

    pub fn new(value: u64, time: u64) -> (p: Point)
        ensures
            p == (Point { value, time }),
    {
        Point { value, time }
    }

    pub fn value(&self) -> (v: u64)
        ensures
            v == self.value,
    {
        self.value
    }

    pub fn time(&self) -> (t: u64)
        ensures
            t == self.time,
    {
        self.time
    }

    /// Publishes both fields at once.
    pub fn set(&mut self, value: u64, time: u64)
        ensures
            *final(self) == (Point { value, time }),
        no_unwind
    {
        self.value = value;
        self.time = time;
    }

    /// Keeps track of the largest observation.
    pub fn track_max(&mut self, value: u64, time: u64)
        ensures
            *final(self) == old(self).raised(value, time),
        no_unwind
    {
        if self.time > 0 {
            if value > self.value {
                self.set(value, time);
            }
        } else {
            self.set(value, time);
        }
    }

    /// Keeps track of the smallest observation.
    pub fn track_min(&mut self, value: u64, time: u64)
        ensures
            *final(self) == old(self).lowered(value, time),
        no_unwind
    {
        if self.time > 0 {
            if value < self.value {
                self.set(value, time);
            }
        } else {
            self.set(value, time);
        }
    }
}

} // verus!
