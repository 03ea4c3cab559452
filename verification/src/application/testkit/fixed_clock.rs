//! Deterministic clock.
use vstd::prelude::*;
use crate::application::ports::clock::ClockPort;
use crate::domain::timestamp::Timestamp;

verus! {

/// A clock that always returns the same seeded instant.
#[derive(Debug, Clone, Copy, PartialEq, Eq, Structural)]
pub struct FixedClock {
    /// The instant, in Unix-epoch milliseconds.
    pub millis: i64,
}

impl FixedClock {
    /// Builds a clock pinned to `millis` since the Unix epoch.
    pub fn at_millis(millis: i64) -> (c: Self)
        ensures
            c.millis == millis,
    {
        FixedClock { millis }
    }
}

impl ClockPort for FixedClock {
    fn now(&self) -> (t: Timestamp)
        ensures
            t.0 == self.millis,
    {
        Timestamp::from_millis(self.millis)
    }
}

} // verus!
