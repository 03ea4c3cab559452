//! `RouteToTriage` — decides a track's final status from its confidence against the threshold.
//!
//! At or above the threshold the track is auto-classified into its crate; below it, the track
//! goes to the manual triage queue. A `ManuallyDecided` track is never re-routed, and an
//! uncertain tempo sends a track to triage however confident its genre is.
use vstd::prelude::*;
use crate::application::ports::audit_log::AuditError;
use crate::application::ports::repo_error::RepoError;
use crate::application::use_cases::classify_track::Classification;
use crate::domain::audio::TempoAmbiguity;
use crate::domain::audit::{detail_insert, AuditDetail};
use crate::domain::confidence::{Confidence, ConfidenceThreshold};
use crate::domain::track::{Track, TrackStatus, TrackView};
use crate::text::{fixed3, fixed3_text};

verus! {

/// The routing decision for a track.
#[derive(Debug, Clone, Copy, PartialEq, Eq, Structural)]
pub enum RouteOutcome {
    /// Confidence met the threshold — auto-classified into its crate.
    Auto,
    /// Confidence fell short (or the tempo is uncertain) — sent to the triage queue.
    Triage,
    /// The track was already decided by a human and left untouched.
    PreservedManual,
}

impl RouteOutcome {
    /// The status token recorded for an outcome.
    pub open spec fn spec_str(self) -> Seq<char> {
        match self {
            RouteOutcome::Auto => "auto_classified"@,
            RouteOutcome::Triage => "in_triage"@,
            RouteOutcome::PreservedManual => "preserved_manual"@,
        }
    }

    /// Lowercase token for audit detail.
    pub fn as_str(self) -> (s: &'static str)
        ensures
            s@ == self.spec_str(),
    {
        match self {
            RouteOutcome::Auto => "auto_classified",
            RouteOutcome::Triage => "in_triage",
            RouteOutcome::PreservedManual => "preserved_manual",
        }
    }
}

/// A track after routing, plus the decision taken.
#[derive(Debug)]
pub struct RoutedTrack {
    /// The (possibly updated) track.
    pub track: Track,
    /// What the router decided.
    pub outcome: RouteOutcome,
}

/// Failure routing a track.
#[derive(Debug, Clone, Copy, PartialEq, Eq, Structural)]
pub enum RouteError {
    /// Persisting the routed track failed.
    Repo(RepoError),
    /// Recording the routing event failed.
    Audit(AuditError),
}

/// The routing rule: a human's decision stands; an uncertain tempo or a confidence below the
/// threshold goes to triage (dropping the crate); otherwise the track is filed automatically.
pub open spec fn spec_route(
    track: TrackView,
    classification: Classification,
    threshold: ConfidenceThreshold,
) -> (TrackView, RouteOutcome) {
    if track.status == TrackStatus::ManuallyDecided {
        (track, RouteOutcome::PreservedManual)
    } else if track.tempo_ambiguity == Some(TempoAmbiguity::HalfOrDoubleTime)
        || classification.confidence@ < threshold@ {
        (
            TrackView {
                crate_id: None,
                confidence: Some(classification.confidence),
                status: TrackStatus::InTriage,
                ..track
            },
            RouteOutcome::Triage,
        )
    } else {
        (
            TrackView {
                crate_id: Some(classification.crate_id),
                confidence: Some(classification.confidence),
                status: TrackStatus::AutoClassified,
                ..track
            },
            RouteOutcome::Auto,
        )
    }
}

/// Where routing sends a track that no human decided, at a replayed confidence: triage for an
/// uncertain tempo or a confidence below the threshold, otherwise filed automatically.
pub open spec fn spec_route_outcome(
    track: TrackView,
    confidence: Confidence,
    threshold: ConfidenceThreshold,
) -> RouteOutcome {
    if track.tempo_ambiguity == Some(TempoAmbiguity::HalfOrDoubleTime) || confidence@ < threshold@ {
        RouteOutcome::Triage
    } else {
        RouteOutcome::Auto
    }
}

/// The threshold is a floor: a track no human decided, with a certain tempo, is filed
/// automatically exactly when its confidence is at or above the threshold, and only a
/// confidence strictly below it sends the track to triage.
pub proof fn lemma_threshold_is_a_floor(
    track: TrackView,
    classification: Classification,
    threshold: ConfidenceThreshold,
)
    requires
        track.status != TrackStatus::ManuallyDecided,
        track.tempo_ambiguity != Some(TempoAmbiguity::HalfOrDoubleTime),
    ensures
        spec_route(track, classification, threshold).1 == RouteOutcome::Auto
            <==> classification.confidence@ >= threshold@,
        spec_route(track, classification, threshold).1 == RouteOutcome::Triage
            <==> classification.confidence@ < threshold@,
        spec_route(track, classification, threshold).1 == RouteOutcome::Auto ==> spec_route(
            track,
            classification,
            threshold,
        ).0.status == TrackStatus::AutoClassified && spec_route(track, classification, threshold).0.crate_id
            == Some(classification.crate_id),
        spec_route_outcome(track, classification.confidence, threshold) == RouteOutcome::Auto
            <==> classification.confidence@ >= threshold@,
{
}

/// Routes `track` given its classification and the current threshold.
///
/// A `PreservedManual` outcome means the track is returned unchanged and nothing is to be
/// persisted or recorded; otherwise the routed track is to be stored and the routing audited.
pub fn route(
    track: &Track,
    classification: &Classification,
    threshold: ConfidenceThreshold,
) -> (r: RoutedTrack)
    ensures
        (r.track@, r.outcome) == spec_route(track@, *classification, threshold),
{
    if track.is_manually_decided() {
        return RoutedTrack { track: track.clone(), outcome: RouteOutcome::PreservedManual };
    }
    if track.has_uncertain_tempo() || !classification.confidence.meets(threshold) {
        RoutedTrack {
            track: track.sent_to_triage(classification.confidence),
            outcome: RouteOutcome::Triage,
        }
    } else {
        RoutedTrack {
            track: track.assigned_auto(classification.crate_id, classification.confidence),
            outcome: RouteOutcome::Auto,
        }
    }
}

/// Routing never moves a track a human decided, and whatever it moves keeps every measurement
/// and every scanned field: only the crate, the confidence and the status change.
pub proof fn lemma_route_keeps_human_decisions(
    track: TrackView,
    classification: Classification,
    threshold: ConfidenceThreshold,
)
    ensures
        track.status == TrackStatus::ManuallyDecided ==> spec_route(track, classification, threshold)
            == (track, RouteOutcome::PreservedManual),
        track.status != TrackStatus::ManuallyDecided ==> spec_route(
            track,
            classification,
            threshold,
        ).0.status != TrackStatus::ManuallyDecided,
        track.status != TrackStatus::ManuallyDecided && track.tempo_ambiguity == Some(
            TempoAmbiguity::HalfOrDoubleTime,
        ) ==> spec_route(track, classification, threshold).1 == RouteOutcome::Triage,
        spec_route(track, classification, threshold).0.bpm == track.bpm,
        spec_route(track, classification, threshold).0.energy == track.energy,
        spec_route(track, classification, threshold).0.id == track.id,
{
}

/// The routing detail: status, confidence and threshold (three decimals), and the reason when
/// an uncertain tempo sent the track to triage.
pub open spec fn spec_routing_detail(
    confidence: int,
    threshold: int,
    outcome: RouteOutcome,
    uncertain_tempo: bool,
) -> Seq<(Seq<char>, Seq<char>)> {
    let base = detail_insert(
        detail_insert(
            detail_insert(Seq::empty(), "status"@, outcome.spec_str()),
            "confidence"@,
            fixed3(confidence as nat),
        ),
        "threshold"@,
        fixed3(threshold as nat),
    );
    if uncertain_tempo {
        detail_insert(base, "triage_reason"@, "uncertain_tempo"@)
    } else {
        base
    }
}

/// Builds the secret-free routing-detail map.
pub fn routing_detail(
    classification: &Classification,
    threshold: ConfidenceThreshold,
    outcome: RouteOutcome,
    uncertain_tempo: bool,
) -> (d: AuditDetail)
    ensures
        d@ == spec_routing_detail(classification.confidence@, threshold@, outcome, uncertain_tempo),
{
    let detail = AuditDetail::new()
        .with("status", String::from_str(outcome.as_str()))
        .with("confidence", fixed3_text(classification.confidence.value() as u64))
        .with("threshold", fixed3_text(threshold.value() as u64));
    if uncertain_tempo {
        return detail.with("triage_reason", String::from_str("uncertain_tempo"));
    }
    detail
}

/// Routes a track and says what is to be recorded: nothing for a human's decision, which
/// stays untouched and unwritten; otherwise the routing detail to audit once the routed track
/// is stored.
pub fn route_effects(
    track: &Track,
    classification: &Classification,
    threshold: ConfidenceThreshold,
) -> (r: (RoutedTrack, Option<AuditDetail>))
    ensures
        (r.0.track@, r.0.outcome) == spec_route(track@, *classification, threshold),
        r.0.outcome == RouteOutcome::PreservedManual ==> r.1 is None,
        r.0.outcome != RouteOutcome::PreservedManual ==> (r.1 matches Some(d) && d@
            == spec_routing_detail(
            classification.confidence@,
            threshold@,
            r.0.outcome,
            track@.tempo_ambiguity == Some(TempoAmbiguity::HalfOrDoubleTime),
        )),
{
    let routed = route(track, classification, threshold);
    if routed.outcome == RouteOutcome::PreservedManual {
        return (routed, None);
    }
    let detail = routing_detail(classification, threshold, routed.outcome, track.has_uncertain_tempo());
    (routed, Some(detail))
}

} // verus!
