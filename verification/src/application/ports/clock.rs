//! The clock port — the only sanctioned source of wall-clock time.
use vstd::prelude::*;
use crate::domain::timestamp::Timestamp;

verus! {

/// Supplies the current time as a domain `Timestamp`.
pub trait ClockPort {
    /// Returns the current instant.
    fn now(&self) -> Timestamp;
}

} // verus!
