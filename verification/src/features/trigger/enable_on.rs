//! The schedule that says at which times of day the trigger is enabled.

use crate::clock::Time;
use vstd::prelude::*;

verus! {

/// A stretch of the day, from `start` to `end`, both included.
#[derive(Clone, Copy, Debug, PartialEq, Eq, Structural)]
pub struct TimeWindow {
    pub start: Time,
    pub end: Time,
}

impl TimeWindow {
    /// Whether `time` lies between the two ends of the window, the ends
    /// themselves included.
    pub open spec fn spec_contains(&self, time: Time) -> bool {
        self.start@ <= time@ <= self.end@
    }

    /// The window from `start` to `end`, both included.
    pub fn new(start: Time, end: Time) -> (r: TimeWindow)
        ensures
            r.start == start,
            r.end == end,
    {
        TimeWindow { start, end }
    }

    /// Whether `time` lies inside the window.
    pub fn contains(&self, time: Time) -> (r: bool)
        ensures
            r == self.spec_contains(time),
    {
        self.start.is_at_most(time) && time.is_at_most(self.end)
    }
}

/// When the trigger is enabled.
#[derive(Clone, Debug)]
pub enum EnableOnConditions {
    /// At every time of day.
    Always,
    /// At no time of day.
    Never,
    /// Inside any of the listed windows.
    TimeWindows { ranges: Vec<TimeWindow> },
}

impl EnableOnConditions {
    /// What the schedule says of `time`: always, never, or exactly when
    /// at least one window contains it.
    pub open spec fn spec_should_be_enabled(&self, time: Time) -> bool {
        match self {
            EnableOnConditions::Always => true,
            EnableOnConditions::Never => false,
            EnableOnConditions::TimeWindows { ranges } => exists|i: int|
                0 <= i < ranges@.len() && (#[trigger] ranges@[i]).spec_contains(time),
        }
    }

    /// Whether the trigger is enabled at `current_time`.
    pub fn should_be_enabled(&self, current_time: Time) -> (r: bool)
        ensures
            r == self.spec_should_be_enabled(current_time),
    {
        match self {
            EnableOnConditions::Always => true,
            EnableOnConditions::Never => false,
            EnableOnConditions::TimeWindows { ranges } => {
                let mut i: usize = 0;
                while i < ranges.len()
                    invariant
                        self matches EnableOnConditions::TimeWindows { ranges: listed }
                            && listed == ranges,
                        i <= ranges@.len(),
                        forall|j: int| 0 <= j < i ==> !(#[trigger] ranges@[j]).spec_contains(current_time),
                    decreases ranges@.len() - i,
                {
                    if ranges[i].contains(current_time) {
                        assert(ranges@[i as int].spec_contains(current_time));
                        return true;
                    }
                    i += 1;
                }
                false
            },
        }
    }
}

} // verus!
