//! Shared repository failure.
use vstd::prelude::*;

verus! {

/// A failure from a persistence adapter.
#[derive(Debug, Clone, Copy, PartialEq, Eq, Structural)]
pub enum RepoError {
    /// An I/O or connection-level failure.
    Io,
    /// A constraint was violated (e.g. the unique source-track-id dedup key).
    Constraint,
    /// A row could not be mapped to/from its domain type.
    Serialization,
}

} // verus!
