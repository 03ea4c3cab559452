//! `AnalyzeAudio` — writes one track's deterministic BPM / Camelot key / energy.
//!
//! This use case only measures; a track that cannot be analyzed is a reported outcome, never
//! an error that ends the run.
use vstd::prelude::*;
use crate::application::ports::audio_analyzer::AnalyzeError;
use crate::application::ports::audit_log::AuditError;
use crate::application::ports::repo_error::RepoError;
use crate::domain::audio::AudioFeatures;
use crate::domain::audit::{detail_insert, AuditDetail, AuditOutcome};
use crate::domain::track::{Track, TrackView};
use crate::text::{decimal, decimal_text};

verus! {

/// Why a track carries no audio features.
#[derive(Debug, Clone, Copy, PartialEq, Eq, Structural)]
pub enum AnalyzeSkipReason {
    /// The track has no downloaded audio — expected when download is off.
    NoAudio,
    /// The file could not be decoded.
    Decode,
    /// The file holds no analyzable audio (silence).
    Silence,
    /// Decoding worked but analysis failed.
    Analysis,
}

impl AnalyzeSkipReason {
    /// The reason token recorded in the audit trail.
    pub open spec fn spec_str(self) -> Seq<char> {
        match self {
            AnalyzeSkipReason::NoAudio => "no_audio"@,
            AnalyzeSkipReason::Decode => "decode_failed"@,
            AnalyzeSkipReason::Silence => "silence"@,
            AnalyzeSkipReason::Analysis => "analysis_failed"@,
        }
    }

    /// Lowercase token for audit detail.
    pub fn as_str(self) -> (s: &'static str)
        ensures
            s@ == self.spec_str(),
    {
        match self {
            AnalyzeSkipReason::NoAudio => "no_audio",
            AnalyzeSkipReason::Decode => "decode_failed",
            AnalyzeSkipReason::Silence => "silence",
            AnalyzeSkipReason::Analysis => "analysis_failed",
        }
    }
}

/// What happened for one track.
#[derive(Debug, PartialEq)]
pub enum AnalyzeOutcome {
    /// Features were measured and persisted.
    Analyzed(Box<Track>),
    /// No features; the run continues.
    Skipped(AnalyzeSkipReason),
}

/// Failure analyzing — infrastructure only, never one track's bad audio.
#[derive(Debug, Clone, Copy, PartialEq, Eq, Structural)]
pub enum AnalyzeAudioError {
    /// Persisting the analyzed track failed.
    Repo(RepoError),
    /// Recording the trail failed.
    Audit(AuditError),
}

/// The skip reason for an analyzer failure.
pub open spec fn spec_skip_reason(error: AnalyzeError) -> AnalyzeSkipReason {
    match error {
        AnalyzeError::Decode => AnalyzeSkipReason::Decode,
        AnalyzeError::Analysis => AnalyzeSkipReason::Analysis,
        AnalyzeError::Silence => AnalyzeSkipReason::Silence,
    }
}

/// Maps the analyzer's failure onto the skip reason reported to the user.
pub fn skip_reason(error: AnalyzeError) -> (r: AnalyzeSkipReason)
    ensures
        r == spec_skip_reason(error),
{
    match error {
        AnalyzeError::Decode => AnalyzeSkipReason::Decode,
        AnalyzeError::Analysis => AnalyzeSkipReason::Analysis,
        AnalyzeError::Silence => AnalyzeSkipReason::Silence,
    }
}

/// The audit outcome of a skip: "no audio" is the expected degradation, everything else a
/// failure.
pub fn skip_outcome(reason: AnalyzeSkipReason) -> (o: AuditOutcome)
    ensures
        o == (if reason == AnalyzeSkipReason::NoAudio {
            AuditOutcome::SkippedNoAudio
        } else {
            AuditOutcome::Failed
        }),
{
    match reason {
        AnalyzeSkipReason::NoAudio => AuditOutcome::SkippedNoAudio,
        _ => AuditOutcome::Failed,
    }
}

/// The detail of a skip: its reason token.
pub fn skip_detail(reason: AnalyzeSkipReason) -> (d: AuditDetail)
    ensures
        d@ == detail_insert(Seq::empty(), "reason"@, reason.spec_str()),
{
    AuditDetail::new().with("reason", String::from_str(reason.as_str()))
}

/// The detail of a successful analysis: the measured values, with the key recorded as `none`
/// when no key was detectable.
pub open spec fn spec_features_detail(features: AudioFeatures) -> Seq<(Seq<char>, Seq<char>)> {
    let base = detail_insert(
        detail_insert(
            detail_insert(Seq::empty(), "bpm"@, decimal(features.bpm as nat)),
            "tempo"@,
            features.tempo_ambiguity.spec_str(),
        ),
        "energy"@,
        decimal(features.energy@ as nat),
    );
    match features.key {
        Some(key) => detail_insert(base, "key"@, key.spec_text()),
        None => detail_insert(base, "key"@, "none"@),
    }
}

/// Builds the audit detail for a successful analysis.
pub fn features_detail(features: &AudioFeatures) -> (d: AuditDetail)
    ensures
        d@ == spec_features_detail(*features),
{
    let detail = AuditDetail::new()
        .with("bpm", decimal_text(features.bpm as u64))
        .with("tempo", String::from_str(features.tempo_ambiguity.as_str()))
        .with("energy", decimal_text(features.energy.value() as u64));
    match features.key {
        Some(key) => detail.with("key", key.to_string()),
        None => detail.with("key", String::from_str("none")),
    }
}

/// What an analysis comes to: the track carrying its measurements (to be stored), audited as
/// updated with the measured values; or a skip with its reason, audited as failed.
pub fn analysis_result(track: &Track, result: Result<AudioFeatures, AnalyzeError>) -> (r: (
    AnalyzeOutcome,
    AuditOutcome,
    AuditDetail,
))
    ensures
        match result {
            Ok(f) => {
                &&& r.0 matches AnalyzeOutcome::Analyzed(t) && t@ == (TrackView {
                    bpm: Some(f.bpm),
                    tempo_ambiguity: Some(f.tempo_ambiguity),
                    camelot_key: f.key,
                    energy: Some(f.energy),
                    ..track@
                })
                &&& r.1 == AuditOutcome::Updated
                &&& r.2@ == spec_features_detail(f)
            },
            Err(error) => {
                &&& r.0 == AnalyzeOutcome::Skipped(spec_skip_reason(error))
                &&& r.1 == AuditOutcome::Failed
                &&& r.2@ == detail_insert(Seq::empty(), "reason"@, spec_skip_reason(error).spec_str())
            },
        },
{
    match result {
        Ok(features) => (
            AnalyzeOutcome::Analyzed(Box::new(track.analyzed(features))),
            AuditOutcome::Updated,
            features_detail(&features),
        ),
        Err(error) => {
            let reason = skip_reason(error);
            (AnalyzeOutcome::Skipped(reason), skip_outcome(reason), skip_detail(reason))
        },
    }
}

/// What analysing a track without downloaded audio comes to: the expected skip, audited as
/// such rather than as a failure.
pub fn no_audio_result() -> (r: (AnalyzeOutcome, AuditOutcome, AuditDetail))
    ensures
        r.0 == AnalyzeOutcome::Skipped(AnalyzeSkipReason::NoAudio),
        r.1 == AuditOutcome::SkippedNoAudio,
        r.2@ == detail_insert(Seq::empty(), "reason"@, "no_audio"@),
{
    let reason = AnalyzeSkipReason::NoAudio;
    (AnalyzeOutcome::Skipped(reason), skip_outcome(reason), skip_detail(reason))
}

} // verus!
