//! The audit log port's failure.
use vstd::prelude::*;

verus! {

/// Failure writing/reading the audit log.
#[derive(Debug, Clone, Copy, PartialEq, Eq, Structural)]
pub enum AuditError {
    /// An I/O failure persisting or reading an event.
    Io,
}

} // verus!
