//! The fields of one audit event to record, and how an event is stamped from them.
use vstd::prelude::*;
use crate::domain::audit::{
    AuditDetail, AuditEvent, AuditEventId, AuditEventView, AuditKind, AuditOutcome, NewAuditEvent,
    PipelineStage, RunId,
};
use crate::domain::timestamp::Timestamp;
use crate::domain::track::TrackId;

verus! {

/// The fields describing one audit event to record.
#[derive(Debug)]
pub struct RecordParams {
    /// The run this event belongs to.
    pub run_id: RunId,
    /// The track this event concerns, if any (`None` for run-level events).
    pub track_id: Option<TrackId>,
    /// The pipeline stage.
    pub stage: PipelineStage,
    /// The event category.
    pub kind: AuditKind,
    /// The outcome.
    pub outcome: AuditOutcome,
    /// Structured, secret-free detail.
    pub detail: AuditDetail,
}

/// The event recorded for `params`, stamped with a minted id and the current time.
pub fn stamped_event(params: RecordParams, id: AuditEventId, occurred_at: Timestamp) -> (e:
    AuditEvent)
    ensures
        e@ == (AuditEventView {
            id,
            run_id: params.run_id,
            track_id: params.track_id,
            stage: params.stage,
            kind: params.kind,
            outcome: params.outcome,
            detail: params.detail@,
            occurred_at,
        }),
{
    AuditEvent::new(
        NewAuditEvent {
            id,
            run_id: params.run_id,
            track_id: params.track_id,
            stage: params.stage,
            kind: params.kind,
            outcome: params.outcome,
            detail: params.detail,
            occurred_at,
        },
    )
}

} // verus!
