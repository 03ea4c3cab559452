//! `ResumeDeferred` — puts every deferred track back on the triage queue.
use vstd::prelude::*;
use crate::application::ports::audit_log::AuditError;
use crate::application::ports::repo_error::RepoError;
use crate::domain::audit::{detail_insert, AuditDetail};

verus! {

/// Failure resuming deferred tracks.
#[derive(Debug, Clone, Copy, PartialEq, Eq, Structural)]
pub enum ResumeDeferredError {
    /// Reading or persisting tracks failed.
    Repo(RepoError),
    /// Recording the resume failed.
    Audit(AuditError),
}

/// The detail recorded for each resumed track.
pub fn resume_detail() -> (d: AuditDetail)
    ensures
        d@ == detail_insert(Seq::empty(), "action"@, "resume_deferred"@),
{
    AuditDetail::new().with("action", String::from_str("resume_deferred"))
}

} // verus!
