//! `ApplyManualDecision` — commits one human triage action for one track.
//!
//! Accept the top suggestion, pick an existing crate, create a crate on the fly, or defer. A
//! committed assignment lands the track in `ManuallyDecided`, which every later pass treats as
//! untouchable; deferring decides nothing and records no decision.
use vstd::prelude::*;
use crate::application::audit_recorder::{stamped_event, RecordParams};
use crate::application::ports::audit_log::AuditError;
use crate::application::testkit::in_memory_audit_log::InMemoryAuditLog;
use crate::application::testkit::in_memory_crate_repository::{
    lemma_position_of_crate, position_of_crate, spec_find_or_create, InMemoryCrateRepository,
};
use crate::application::testkit::in_memory_decision_repository::{
    latest_index, InMemoryDecisionRepository,
};
use crate::application::testkit::in_memory_track_repository::{
    lemma_position_of, library_wf, position_of, source_conflict, spec_upsert,
    InMemoryTrackRepository,
};
use crate::application::ports::crate_repository::CrateSpec;
use crate::application::ports::repo_error::RepoError;
use crate::domain::audit::{
    detail_insert, AuditDetail, AuditEventId, AuditEventView, AuditKind, AuditOutcome,
    PipelineStage, RunId,
};
use crate::domain::classification::{
    ClassificationDecision, ClassificationReason, DecisionId, DecisionSource, NewDecision,
};
use crate::domain::crate_::{Crate, CrateId, CrateOrigin, CrateView};
use crate::domain::timestamp::Timestamp;
use crate::domain::track::{Track, TrackId, TrackStatus, TrackView};

verus! {

/// What the human chose to do with a queued track.
#[derive(Debug, PartialEq, Eq)]
pub enum TriageAction {
    /// Take the crate the classifier suggested (the track's latest decision).
    AcceptSuggestion,
    /// File into a crate that already exists.
    AssignToCrate(CrateId),
    /// File into `genre`, creating that crate if it does not exist yet.
    CreateCrate {
        /// The genre to file under.
        genre: String,
    },
    /// Put the track back for a later session without deciding.
    Defer,
}

impl TriageAction {
    /// The action token recorded in the audit trail.
    pub open spec fn spec_str(&self) -> Seq<char> {
        match self {
            TriageAction::AcceptSuggestion => "accept_suggestion"@,
            TriageAction::AssignToCrate(_) => "assign_to_crate"@,
            TriageAction::CreateCrate { .. } => "create_crate"@,
            TriageAction::Defer => "defer"@,
        }
    }

    /// Lowercase token for audit detail.
    pub fn as_str(&self) -> (s: &'static str)
        ensures
            s@ == self.spec_str(),
    {
        match self {
            TriageAction::AcceptSuggestion => "accept_suggestion",
            TriageAction::AssignToCrate(_) => "assign_to_crate",
            TriageAction::CreateCrate { .. } => "create_crate",
            TriageAction::Defer => "defer",
        }
    }
}

/// The track after a triage action.
#[derive(Debug)]
pub struct TriagedTrack {
    /// The updated track.
    pub track: Track,
    /// The crate it was filed into (`None` when deferred).
    pub crate_id: Option<CrateId>,
}

/// Failure applying a triage action.
#[derive(Debug, Clone, Copy, PartialEq, Eq, Structural)]
pub enum ApplyManualDecisionError {
    /// No track with that id exists.
    TrackNotFound,
    /// The chosen crate does not exist.
    CrateNotFound,
    /// The track has no classification decision to accept a suggestion from.
    NoSuggestion,
    /// Persisting the track, crate, or decision failed.
    Repo(RepoError),
    /// Recording the triage event failed.
    Audit(AuditError),
}

/// The crate a suggestion points at: the latest decision's crate, or `NoSuggestion` when the
/// track was never classified.
pub fn suggested_crate(latest: Option<&ClassificationDecision>) -> (r: Result<
    CrateId,
    ApplyManualDecisionError,
>)
    ensures
        match latest {
            Some(d) => r == Ok::<CrateId, ApplyManualDecisionError>(d.spec_crate_id()),
            None => r == Err::<CrateId, ApplyManualDecisionError>(
                ApplyManualDecisionError::NoSuggestion,
            ),
        },
{
    match latest {
        Some(decision) => Ok(decision.crate_id()),
        None => Err(ApplyManualDecisionError::NoSuggestion),
    }
}

/// The crate a user picked, if it still exists; `CrateNotFound` rather than filing into a
/// dangling id.
pub fn existing_crate(found: Option<&Crate>) -> (r: Result<CrateId, ApplyManualDecisionError>)
    ensures
        match found {
            Some(c) => r == Ok::<CrateId, ApplyManualDecisionError>(c@.id),
            None => r == Err::<CrateId, ApplyManualDecisionError>(
                ApplyManualDecisionError::CrateNotFound,
            ),
        },
{
    match found {
        Some(crate_) => Ok(crate_.id()),
        None => Err(ApplyManualDecisionError::CrateNotFound),
    }
}

/// The crate to resolve for a genre the human named: no role, stamped `Manual` if created here.
pub fn manual_crate_spec(genre: &str) -> (spec: CrateSpec)
    ensures
        spec.genre@ == genre@,
        spec.role is None,
        spec.origin == CrateOrigin::Manual,
{
    CrateSpec { genre: genre.to_owned(), role: None, origin: CrateOrigin::Manual }
}

/// Applies a resolved target to the track: filed by a human into the crate, or deferred when
/// there is no target.
pub fn triaged(track: &Track, target: Option<CrateId>) -> (t: TriagedTrack)
    ensures
        t.crate_id == target,
        match target {
            Some(c) => t.track@ == (TrackView {
                crate_id: Some(c),
                status: TrackStatus::ManuallyDecided,
                ..track@
            }),
            None => t.track@ == (TrackView { status: TrackStatus::Deferred, ..track@ }),
        },
{
    match target {
        Some(crate_id) => TriagedTrack { track: track.assigned_manual(crate_id), crate_id: target },
        None => TriagedTrack { track: track.deferred(), crate_id: None },
    }
}

/// The `Manual` decision recording a human's pick: no model confidence, reason `ManualPick`,
/// no alternatives.
pub fn manual_decision_record(
    id: DecisionId,
    track_id: TrackId,
    crate_id: CrateId,
    decided_at: Timestamp,
) -> (d: ClassificationDecision)
    ensures
        d.spec_id() == id,
        d.spec_track_id() == track_id,
        d.spec_crate_id() == crate_id,
        d.spec_source() == DecisionSource::Manual,
        d.spec_confidence() is None,
        d.spec_reason() == ClassificationReason::ManualPick,
        d.spec_alternatives().len() == 0,
        d.spec_decided_at() == decided_at,
{
    ClassificationDecision::new(
        NewDecision {
            id,
            track_id,
            crate_id,
            source: DecisionSource::Manual,
            confidence: None,
            reason: ClassificationReason::ManualPick,
            alternatives: Vec::new(),
            decided_at,
        },
    )
}

/// The outcome recorded for a triage action: deferring leaves the track pending, everything
/// else updates its filing.
pub fn triage_outcome(action: &TriageAction) -> (o: AuditOutcome)
    ensures
        o == (if *action == TriageAction::Defer {
            AuditOutcome::Started
        } else {
            AuditOutcome::Updated
        }),
{
    match action {
        TriageAction::Defer => AuditOutcome::Started,
        _ => AuditOutcome::Updated,
    }
}

/// The triage detail: the action, and the crate the track came from and went to, where known.
pub open spec fn spec_triage_detail(
    action: Seq<char>,
    from_crate: Option<CrateId>,
    to_crate: Option<CrateId>,
) -> Seq<(Seq<char>, Seq<char>)> {
    let base = detail_insert(Seq::empty(), "action"@, action);
    let with_from = match from_crate {
        Some(from) => detail_insert(base, "from_crate"@, from.spec_text()),
        None => base,
    };
    match to_crate {
        Some(to) => detail_insert(with_from, "to_crate"@, to.spec_text()),
        None => with_from,
    }
}

/// Builds the secret-free triage detail map (action + from → to crate).
pub fn triage_detail(
    action: &TriageAction,
    from_crate: Option<CrateId>,
    to_crate: Option<CrateId>,
) -> (d: AuditDetail)
    ensures
        d@ == spec_triage_detail(action.spec_str(), from_crate, to_crate),
{
    let mut detail = AuditDetail::new().with("action", String::from_str(action.as_str()));
    if let Some(from) = from_crate {
        detail = detail.with("from_crate", from.to_string());
    }
    if let Some(to) = to_crate {
        detail = detail.with("to_crate", to.to_string());
    }
    detail
}

/// What committing a triage action writes.
#[derive(Debug)]
pub struct TriageEffects {
    /// The track as it is to be stored, and the crate it was filed into.
    pub triaged: TriagedTrack,
    /// The `Manual` decision to append; `None` when deferring, which decides nothing.
    pub decision: Option<ClassificationDecision>,
    /// The audit outcome of the action.
    pub outcome: AuditOutcome,
    /// The audit detail of the action (from → to crate).
    pub detail: AuditDetail,
}

/// The effects of applying `action` to `track` once its target is resolved (`None` defers):
/// the filed or deferred track, the manual decision for a filing, and the triage audit.
pub fn triage_effects(
    track: &Track,
    action: &TriageAction,
    target: Option<CrateId>,
    decision_id: DecisionId,
    decided_at: Timestamp,
) -> (e: TriageEffects)
    ensures
        e.triaged.crate_id == target,
        match target {
            Some(c) => {
                &&& e.triaged.track@ == (TrackView {
                    crate_id: Some(c),
                    status: TrackStatus::ManuallyDecided,
                    ..track@
                })
                &&& e.decision matches Some(d) && d.spec_id() == decision_id && d.spec_track_id()
                    == track@.id && d.spec_crate_id() == c && d.spec_source()
                    == DecisionSource::Manual && d.spec_confidence() is None && d.spec_reason()
                    == ClassificationReason::ManualPick && d.spec_alternatives().len() == 0
                    && d.spec_decided_at() == decided_at
            },
            None => {
                &&& e.triaged.track@ == (TrackView { status: TrackStatus::Deferred, ..track@ })
                &&& e.decision is None
            },
        },
        e.outcome == (if *action == TriageAction::Defer {
            AuditOutcome::Started
        } else {
            AuditOutcome::Updated
        }),
        e.detail@ == spec_triage_detail(action.spec_str(), track@.crate_id, target),
{
    let triaged = triaged(track, target);
    let decision = match target {
        Some(crate_id) => Some(manual_decision_record(decision_id, track.id(), crate_id, decided_at)),
        None => None,
    };
    TriageEffects {
        triaged,
        decision,
        outcome: triage_outcome(action),
        detail: triage_detail(action, track.crate_id(), target),
    }
}

/// The error a triage action meets in these stores, if any: no track with the id; a picked
/// crate that does not exist; a suggestion to accept for a track that has no decision.
pub open spec fn spec_triage_error(
    tracks: Seq<TrackView>,
    crates: Seq<CrateView>,
    decisions: Seq<ClassificationDecision>,
    track_id: TrackId,
    action: TriageAction,
) -> Option<ApplyManualDecisionError> {
    if position_of(tracks, track_id) is None {
        Some(ApplyManualDecisionError::TrackNotFound)
    } else {
        match action {
            TriageAction::AssignToCrate(c) => if position_of_crate(crates, c) is None {
                Some(ApplyManualDecisionError::CrateNotFound)
            } else {
                None
            },
            TriageAction::AcceptSuggestion => if latest_index(decisions, track_id) is None {
                Some(ApplyManualDecisionError::NoSuggestion)
            } else {
                None
            },
            _ => None,
        }
    }
}

/// The crate a triage action files into, in these stores (`None` defers): the latest
/// decision's crate, the picked crate, or the crate resolved for the named genre.
pub open spec fn spec_triage_target(
    crates: Seq<CrateView>,
    decisions: Seq<ClassificationDecision>,
    track_id: TrackId,
    action: TriageAction,
    fresh_crate: CrateId,
) -> Option<CrateId> {
    match action {
        TriageAction::AcceptSuggestion => Some(
            decisions[latest_index(decisions, track_id)->0].spec_crate_id(),
        ),
        TriageAction::AssignToCrate(c) => Some(c),
        TriageAction::CreateCrate { genre } => Some(
            spec_find_or_create(crates, genre@, None, CrateOrigin::Manual, fresh_crate).1.id,
        ),
        TriageAction::Defer => None,
    }
}

/// A track after a triage action with this target: filed by a human, or deferred.
pub open spec fn spec_triaged(track: TrackView, target: Option<CrateId>) -> TrackView {
    match target {
        Some(c) => TrackView { crate_id: Some(c), status: TrackStatus::ManuallyDecided, ..track },
        None => TrackView { status: TrackStatus::Deferred, ..track },
    }
}

/// Applies one triage action to the track `track_id` in the stores. An unknown track, a
/// dangling crate pick or a suggestion that does not exist is refused, and then nothing is
/// written anywhere. Otherwise the track is filed (or deferred), a crate named on the fly is
/// created, a filing appends its `Manual` decision (a deferral none), and one triage event is
/// audited.
pub fn apply_triage(
    tracks: &mut InMemoryTrackRepository,
    crates: &mut InMemoryCrateRepository,
    decisions: &mut InMemoryDecisionRepository,
    audit: &mut InMemoryAuditLog,
    track_id: TrackId,
    action: &TriageAction,
    ids: (RunId, AuditEventId, DecisionId, CrateId),
    decided_at: Timestamp,
) -> (r: Result<TriagedTrack, ApplyManualDecisionError>)
    ensures
        match spec_triage_error(old(tracks)@, old(crates)@, old(decisions)@, track_id, *action) {
            Some(e) => {
                &&& r == Err::<TriagedTrack, ApplyManualDecisionError>(e)
                &&& final(tracks)@ == old(tracks)@
                &&& final(crates)@ == old(crates)@
                &&& final(decisions)@ == old(decisions)@
                &&& final(audit)@ == old(audit)@
            },
            None => {
                let target = spec_triage_target(old(crates)@, old(decisions)@, track_id, *action, ids.3);
                let before = old(tracks)@[position_of(old(tracks)@, track_id)->0];
                &&& r matches Ok(t) && t.crate_id == target && t.track@ == spec_triaged(before, target)
                &&& final(tracks)@ == spec_upsert(old(tracks)@, spec_triaged(before, target))
                &&& final(crates)@ == (match *action {
                    TriageAction::CreateCrate { genre } => spec_find_or_create(
                        old(crates)@,
                        genre@,
                        None,
                        CrateOrigin::Manual,
                        ids.3,
                    ).0,
                    _ => old(crates)@,
                })
                &&& match target {
                    Some(c) => {
                        &&& final(decisions)@.len() == old(decisions)@.len() + 1
                        &&& final(decisions)@.drop_last() == old(decisions)@
                        &&& final(decisions)@.last().spec_id() == ids.2
                        &&& final(decisions)@.last().spec_track_id() == track_id
                        &&& final(decisions)@.last().spec_crate_id() == c
                        &&& final(decisions)@.last().spec_source() == DecisionSource::Manual
                        &&& final(decisions)@.last().spec_confidence() is None
                        &&& final(decisions)@.last().spec_reason() == ClassificationReason::ManualPick
                        &&& final(decisions)@.last().spec_alternatives().len() == 0
                        &&& final(decisions)@.last().spec_decided_at() == decided_at
                    },
                    None => final(decisions)@ == old(decisions)@,
                }
                &&& final(audit)@ == old(audit)@.push(
                    AuditEventView {
                        id: ids.1,
                        run_id: ids.0,
                        track_id: Some(track_id),
                        stage: PipelineStage::Triage,
                        kind: AuditKind::TriageAction,
                        outcome: if *action == TriageAction::Defer {
                            AuditOutcome::Started
                        } else {
                            AuditOutcome::Updated
                        },
                        detail: spec_triage_detail(action.spec_str(), before.crate_id, target),
                        occurred_at: decided_at,
                    },
                )
            },
        },
{
    let (run_id, event_id, decision_id, fresh_crate) = ids;
    let track = match tracks.find_by_id(track_id) {
        Some(t) => t,
        None => return Err(ApplyManualDecisionError::TrackNotFound),
    };
    proof {
        lemma_position_of(tracks@, track_id);
    }
    let ghost i = position_of(tracks@, track_id)->0;
    let target: Option<CrateId> = match action {
        TriageAction::AcceptSuggestion => {
            let latest = decisions.find_latest_for_track(track_id);
            let suggested = match &latest {
                Some(d) => suggested_crate(Some(d)),
                None => suggested_crate(None),
            };
            match suggested {
                Ok(c) => Some(c),
                Err(e) => return Err(e),
            }
        },
        TriageAction::AssignToCrate(c) => {
            let found = crates.find_by_id(*c);
            proof {
                lemma_position_of_crate(crates@, *c);
            }
            let picked = match &found {
                Some(k) => existing_crate(Some(k)),
                None => existing_crate(None),
            };
            match picked {
                Ok(id) => Some(id),
                Err(e) => return Err(e),
            }
        },
        TriageAction::CreateCrate { genre } => {
            let created = crates.find_or_create(&manual_crate_spec(genre.as_str()), fresh_crate);
            Some(created.id())
        },
        TriageAction::Defer => None,
    };
    let effects = triage_effects(&track, action, target, decision_id, decided_at);
    proof {
        assert forall|j: int| 0 <= j < tracks@.len() && (#[trigger] tracks@[j]).source_track_id
            == effects.triaged.track@.source_track_id implies tracks@[j].id == effects.triaged.track@.id by {
            if j != i {
                assert(tracks@[j].source_track_id != tracks@[i].source_track_id);
            }
        }
        assert(!source_conflict(tracks@, effects.triaged.track@));
    }
    match tracks.upsert(&effects.triaged.track) {
        Ok(()) => {},
        Err(e) => return Err(ApplyManualDecisionError::Repo(e)),
    }
    match effects.decision {
        Some(d) => decisions.record(d),
        None => {},
    }
    let params = RecordParams {
        run_id,
        track_id: Some(track_id),
        stage: PipelineStage::Triage,
        kind: AuditKind::TriageAction,
        outcome: effects.outcome,
        detail: effects.detail,
    };
    audit.record(stamped_event(params, event_id, decided_at));
    Ok(effects.triaged)
}

} // verus!
