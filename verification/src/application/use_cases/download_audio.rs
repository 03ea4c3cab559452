//! `DownloadAudio` — fetches one track's audio, behind the explicit opt-in gate.
//!
//! The setting is consulted on every call, and when downloading is off nothing is fetched;
//! a failed download is a reported outcome, not an error.
use vstd::prelude::*;
use crate::application::ports::audio_downloader::{DownloadError, DownloadedAudio};
use crate::application::ports::audit_log::AuditError;
use crate::application::ports::repo_error::RepoError;
use crate::domain::audit::{detail_insert, AuditDetail};
use crate::domain::audit::AuditOutcome;
use crate::domain::track::{Track, TrackView};

verus! {

/// Why a track ended up without freshly downloaded audio.
#[derive(Debug, Clone, Copy, PartialEq, Eq, Structural)]
pub enum SkipReason {
    /// The user has not opted in (the default).
    DownloadDisabled,
    /// The track is deleted, geo-blocked, or otherwise gone.
    Unavailable,
    /// The download tool is not installed — every other track will hit this too.
    ToolMissing,
    /// A local I/O failure writing the file.
    Io,
}

impl SkipReason {
    /// The reason token recorded in the audit trail.
    pub open spec fn spec_str(self) -> Seq<char> {
        match self {
            SkipReason::DownloadDisabled => "download_disabled"@,
            SkipReason::Unavailable => "unavailable"@,
            SkipReason::ToolMissing => "tool_missing"@,
            SkipReason::Io => "io_error"@,
        }
    }

    /// Whether a reason recurs for every remaining track.
    pub open spec fn spec_is_environmental(self) -> bool {
        self == SkipReason::DownloadDisabled || self == SkipReason::ToolMissing
    }

    /// Lowercase token for audit detail.
    pub fn as_str(self) -> (s: &'static str)
        ensures
            s@ == self.spec_str(),
    {
        match self {
            SkipReason::DownloadDisabled => "download_disabled",
            SkipReason::Unavailable => "unavailable",
            SkipReason::ToolMissing => "tool_missing",
            SkipReason::Io => "io_error",
        }
    }

    /// Whether this reason will recur for every remaining track, so a batch run should stop
    /// the download stage instead of retrying it per track.
    pub fn is_environmental(self) -> (b: bool)
        ensures
            b == self.spec_is_environmental(),
    {
        match self {
            SkipReason::DownloadDisabled => true,
            SkipReason::ToolMissing => true,
            _ => false,
        }
    }
}

/// What happened for one track.
#[derive(Debug, PartialEq)]
pub enum DownloadOutcome {
    /// Audio was fetched; the track now carries a local path.
    Downloaded(Track),
    /// The track already had usable local audio — nothing was fetched.
    AlreadyPresent(Track),
    /// No audio was fetched; the run continues regardless.
    Skipped(SkipReason),
}

/// Failure downloading — reserved for infrastructure, never for one track's bad luck.
#[derive(Debug, Clone, Copy, PartialEq, Eq, Structural)]
pub enum DownloadAudioError {
    /// Reading settings or persisting the track failed.
    Repo(RepoError),
    /// Recording the trail failed.
    Audit(AuditError),
}

/// The step a download takes for one track.
#[derive(Debug, Clone, Copy, PartialEq, Eq, Structural)]
pub enum DownloadStep {
    /// Do not download: record the skip.
    Skip(SkipReason),
    /// The audio is already on disk: record it and fetch nothing.
    AlreadyPresent,
    /// Ask the downloader.
    Fetch,
}

/// The step for one track: without the user's opt-in nothing is fetched, and audio already on
/// disk is not fetched again.
pub fn download_step(download_enabled: bool, has_usable_audio: bool) -> (s: DownloadStep)
    ensures
        s == (if !download_enabled {
            DownloadStep::Skip(SkipReason::DownloadDisabled)
        } else if has_usable_audio {
            DownloadStep::AlreadyPresent
        } else {
            DownloadStep::Fetch
        }),
{
    if !download_enabled {
        DownloadStep::Skip(SkipReason::DownloadDisabled)
    } else if has_usable_audio {
        DownloadStep::AlreadyPresent
    } else {
        DownloadStep::Fetch
    }
}

/// The skip reason for a downloader failure.
pub open spec fn spec_skip_reason(error: DownloadError) -> SkipReason {
    match error {
        DownloadError::Unavailable => SkipReason::Unavailable,
        DownloadError::ToolMissing => SkipReason::ToolMissing,
        DownloadError::Io => SkipReason::Io,
    }
}

/// Maps the downloader's failure onto the skip reason reported to the user.
pub fn skip_reason(error: DownloadError) -> (r: SkipReason)
    ensures
        r == spec_skip_reason(error),
{
    match error {
        DownloadError::Unavailable => SkipReason::Unavailable,
        DownloadError::ToolMissing => SkipReason::ToolMissing,
        DownloadError::Io => SkipReason::Io,
    }
}

/// The detail of a skip: its reason token.
pub fn skip_detail(reason: SkipReason) -> (d: AuditDetail)
    ensures
        d@ == detail_insert(Seq::empty(), "reason"@, reason.spec_str()),
{
    AuditDetail::new().with("reason", String::from_str(reason.as_str()))
}

/// The detail of a download that happened or was not needed: `result` is `downloaded`, with
/// the `path` the audio went to, or `already_present` when there is no new path.
pub open spec fn spec_result_detail(path: Option<Seq<char>>) -> Seq<(Seq<char>, Seq<char>)> {
    match path {
        Some(p) => detail_insert(detail_insert(Seq::empty(), "result"@, "downloaded"@), "path"@, p),
        None => detail_insert(Seq::empty(), "result"@, "already_present"@),
    }
}

/// Builds the detail of a download that happened (`Some` of where the audio went) or was not
/// needed (`None`).
pub fn result_detail(path: Option<&str>) -> (d: AuditDetail)
    ensures
        d@ == spec_result_detail(
            match path {
                Some(p) => Some(p@),
                None => None,
            },
        ),
{
    match path {
        Some(p) => AuditDetail::new().with("result", String::from_str("downloaded")).with(
            "path",
            p.to_owned(),
        ),
        None => AuditDetail::new().with("result", String::from_str("already_present")),
    }
}

/// What a download attempt comes to: the track carrying its new audio (to be stored), audited
/// as created; or a skip with its reason, audited as failed — never an error that ends the run.
pub fn fetch_result(track: &Track, result: Result<DownloadedAudio, DownloadError>) -> (r: (
    DownloadOutcome,
    AuditOutcome,
    AuditDetail,
))
    ensures
        match result {
            Ok(audio) => {
                &&& r.0 matches DownloadOutcome::Downloaded(t) && t@ == (TrackView {
                    local_audio_path: Some(audio.path@),
                    ..track@
                })
                &&& r.1 == AuditOutcome::Created
                &&& r.2@ == spec_result_detail(Some(audio.path@))
            },
            Err(error) => {
                &&& r.0 == DownloadOutcome::Skipped(spec_skip_reason(error))
                &&& r.1 == AuditOutcome::Failed
                &&& r.2@ == detail_insert(Seq::empty(), "reason"@, spec_skip_reason(error).spec_str())
            },
        },
{
    match result {
        Ok(audio) => {
            let detail = result_detail(Some(audio.path.as_str()));
            (DownloadOutcome::Downloaded(track.downloaded(audio.path)), AuditOutcome::Created, detail)
        },
        Err(error) => {
            let reason = skip_reason(error);
            (DownloadOutcome::Skipped(reason), AuditOutcome::Failed, skip_detail(reason))
        },
    }
}

} // verus!
