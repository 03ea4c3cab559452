//! `AnalyzeLibrary` — the opt-in audio path over the whole library: download, analyze, then
//! re-file by energy role. The bookkeeping and the halting rule live here.
use vstd::prelude::*;
use crate::application::ports::repo_error::RepoError;
use crate::application::use_cases::analyze_audio::{AnalyzeAudioError, AnalyzeOutcome};
use crate::application::use_cases::classify_track::ClassifyTrackError;
use crate::application::use_cases::download_audio::{DownloadAudioError, DownloadOutcome, SkipReason};
use crate::application::use_cases::route_to_triage::{RouteError, RouteOutcome};
use crate::domain::track::Track;

verus! {

/// Counts describing one audio-enrichment run.
#[derive(Debug, Clone, Copy, PartialEq, Eq, Structural)]
pub struct AnalyzeLibrarySummary {
    /// Tracks whose audio was fetched in this run.
    pub downloaded: usize,
    /// Tracks that already had their audio.
    pub already_present: usize,
    /// Tracks that gained BPM/key/energy.
    pub analyzed: usize,
    /// Analyzed tracks re-filed automatically.
    pub refined: usize,
    /// Tracks sent to triage — sub-threshold, or an uncertain tempo.
    pub sent_to_triage: usize,
    /// Tracks left alone because a human had already decided them.
    pub preserved_manual: usize,
    /// Tracks that ended the run with no audio features, for any reason.
    pub skipped: usize,
    /// Set when the run stopped early because downloading is impossible for every track.
    pub halted: Option<SkipReason>,
}

impl Default for AnalyzeLibrarySummary {
    fn default() -> (s: Self)
        ensures
            s == (AnalyzeLibrarySummary {
                downloaded: 0,
                already_present: 0,
                analyzed: 0,
                refined: 0,
                sent_to_triage: 0,
                preserved_manual: 0,
                skipped: 0,
                halted: None,
            }),
    {
        AnalyzeLibrarySummary {
            downloaded: 0,
            already_present: 0,
            analyzed: 0,
            refined: 0,
            sent_to_triage: 0,
            preserved_manual: 0,
            skipped: 0,
            halted: None,
        }
    }
}

/// Failure enriching the library — infrastructure only.
#[derive(Debug, Clone, Copy, PartialEq, Eq, Structural)]
pub enum AnalyzeLibraryError {
    /// A download step hit infrastructure trouble.
    Download(DownloadAudioError),
    /// An analysis step hit infrastructure trouble.
    Analyze(AnalyzeAudioError),
    /// Re-classifying an analyzed track failed.
    Classify(ClassifyTrackError),
    /// Re-routing an analyzed track failed.
    Route(RouteError),
    /// Reading settings or listing tracks failed.
    Repo(RepoError),
}

/// Whether every counter can take one more.
pub open spec fn has_room(s: AnalyzeLibrarySummary) -> bool {
    &&& s.downloaded < usize::MAX
    &&& s.already_present < usize::MAX
    &&& s.analyzed < usize::MAX
    &&& s.refined < usize::MAX
    &&& s.sent_to_triage < usize::MAX
    &&& s.preserved_manual < usize::MAX
    &&& s.skipped < usize::MAX
}

/// Counts a download outcome and hands back the track to analyze, if there is one. An
/// environmental skip (opt-out, missing tool) halts the run: this track and the `remaining`
/// tracks after it, which the run will not attempt, all end it without audio features and are
/// counted as skipped.
pub fn record_download(
    summary: &mut AnalyzeLibrarySummary,
    outcome: DownloadOutcome,
    remaining: usize,
) -> (r: Option<Track>)
    requires
        has_room(*old(summary)),
        old(summary).skipped + remaining < usize::MAX,
    ensures
        match outcome {
            DownloadOutcome::Downloaded(t) => {
                &&& r == Some(t)
                &&& *final(summary) == AnalyzeLibrarySummary {
                    downloaded: (old(summary).downloaded + 1) as usize,
                    ..*old(summary)
                }
            },
            DownloadOutcome::AlreadyPresent(t) => {
                &&& r == Some(t)
                &&& *final(summary) == AnalyzeLibrarySummary {
                    already_present: (old(summary).already_present + 1) as usize,
                    ..*old(summary)
                }
            },
            DownloadOutcome::Skipped(reason) => {
                &&& r is None
                &&& final(summary).skipped == old(summary).skipped + 1 + (if reason.spec_is_environmental() {
                    remaining as int
                } else {
                    0
                })
                &&& final(summary).halted == (if reason.spec_is_environmental() {
                    Some(reason)
                } else {
                    old(summary).halted
                })
                &&& final(summary).downloaded == old(summary).downloaded
                &&& final(summary).already_present == old(summary).already_present
                &&& final(summary).analyzed == old(summary).analyzed
                &&& final(summary).refined == old(summary).refined
                &&& final(summary).sent_to_triage == old(summary).sent_to_triage
                &&& final(summary).preserved_manual == old(summary).preserved_manual
            },
        },
{
    match outcome {
        DownloadOutcome::Downloaded(track) => {
            summary.downloaded = summary.downloaded + 1;
            Some(track)
        },
        DownloadOutcome::AlreadyPresent(track) => {
            summary.already_present = summary.already_present + 1;
            Some(track)
        },
        DownloadOutcome::Skipped(reason) => {
            summary.skipped = summary.skipped + 1;
            if reason.is_environmental() {
                summary.skipped = summary.skipped + remaining;
                summary.halted = Some(reason);
            }
            None
        },
    }
}

/// Counts an analysis outcome and hands back the analyzed track to re-file, if there is one.
pub fn record_analysis(summary: &mut AnalyzeLibrarySummary, outcome: AnalyzeOutcome) -> (r: Option<
    Track,
>)
    requires
        has_room(*old(summary)),
    ensures
        match outcome {
            AnalyzeOutcome::Analyzed(t) => {
                &&& r == Some(*t)
                &&& *final(summary) == AnalyzeLibrarySummary {
                    analyzed: (old(summary).analyzed + 1) as usize,
                    ..*old(summary)
                }
            },
            AnalyzeOutcome::Skipped(_) => {
                &&& r is None
                &&& *final(summary) == AnalyzeLibrarySummary {
                    skipped: (old(summary).skipped + 1) as usize,
                    ..*old(summary)
                }
            },
        },
{
    match outcome {
        AnalyzeOutcome::Analyzed(track) => {
            summary.analyzed = summary.analyzed + 1;
            Some(*track)
        },
        AnalyzeOutcome::Skipped(_) => {
            summary.skipped = summary.skipped + 1;
            None
        },
    }
}

/// Counts how an analyzed track was re-filed.
pub fn record_refinement(summary: &mut AnalyzeLibrarySummary, outcome: RouteOutcome)
    requires
        has_room(*old(summary)),
    ensures
        *final(summary) == (match outcome {
            RouteOutcome::Auto => AnalyzeLibrarySummary {
                refined: (old(summary).refined + 1) as usize,
                ..*old(summary)
            },
            RouteOutcome::Triage => AnalyzeLibrarySummary {
                sent_to_triage: (old(summary).sent_to_triage + 1) as usize,
                ..*old(summary)
            },
            RouteOutcome::PreservedManual => AnalyzeLibrarySummary {
                preserved_manual: (old(summary).preserved_manual + 1) as usize,
                ..*old(summary)
            },
        }),
{
    match outcome {
        RouteOutcome::Auto => summary.refined = summary.refined + 1,
        RouteOutcome::Triage => summary.sent_to_triage = summary.sent_to_triage + 1,
        RouteOutcome::PreservedManual => summary.preserved_manual = summary.preserved_manual + 1,
    }
}

} // verus!
