//! `ClassifyLibrary` — classification and routing over every freshly scanned track. Only
//! `Scanned` tracks are processed, so re-running leaves routed and decided tracks alone.
use vstd::prelude::*;
use crate::application::ports::repo_error::RepoError;
use crate::application::use_cases::classify_track::ClassifyTrackError;
use crate::application::use_cases::route_to_triage::{RouteError, RouteOutcome};
use crate::domain::track::{Track, TrackStatus};

verus! {

/// Counts describing one classify-all run.
#[derive(Debug, Clone, Copy, PartialEq, Eq, Structural)]
pub struct ClassifyLibrarySummary {
    /// Tracks auto-classified.
    pub auto_classified: usize,
    /// Tracks routed to the triage queue.
    pub sent_to_triage: usize,
    /// Tracks skipped (already routed or manually decided).
    pub skipped: usize,
}

/// Failure classifying the library.
#[derive(Debug, Clone, Copy, PartialEq, Eq, Structural)]
pub enum ClassifyLibraryError {
    /// A per-track classification failed.
    Classify(ClassifyTrackError),
    /// A per-track routing failed.
    Route(RouteError),
    /// Loading settings or listing tracks failed.
    Repo(RepoError),
}

/// Whether a track still awaits classification (only freshly scanned tracks do).
pub fn needs_classification(track: &Track) -> (b: bool)
    ensures
        b == (track@.status == TrackStatus::Scanned),
{
    match track.status() {
        TrackStatus::Scanned => true,
        _ => false,
    }
}

/// How one track moves the (auto-classified, sent to triage, skipped) counts: `None` or a
/// preserved human decision counts as skipped.
pub open spec fn spec_classify_count(counts: (nat, nat, nat), outcome: Option<RouteOutcome>) -> (
    nat,
    nat,
    nat,
) {
    match outcome {
        Some(RouteOutcome::Auto) => (counts.0 + 1, counts.1, counts.2),
        Some(RouteOutcome::Triage) => (counts.0, counts.1 + 1, counts.2),
        _ => (counts.0, counts.1, counts.2 + 1),
    }
}

/// The counts of a classify-all run over tracks with these outcomes, from nothing.
pub open spec fn spec_classify_counts(outcomes: Seq<Option<RouteOutcome>>) -> (nat, nat, nat)
    decreases outcomes.len(),
{
    if outcomes.len() == 0 {
        (0, 0, 0)
    } else {
        spec_classify_count(spec_classify_counts(outcomes.drop_last()), outcomes.last())
    }
}

/// Every track listed is counted exactly once: the three counts add up to the number of
/// tracks.
pub proof fn lemma_classify_counts_add_up(outcomes: Seq<Option<RouteOutcome>>)
    ensures
        spec_classify_counts(outcomes).0 + spec_classify_counts(outcomes).1 + spec_classify_counts(
            outcomes,
        ).2 == outcomes.len(),
    decreases outcomes.len(),
{
    if outcomes.len() > 0 {
        lemma_classify_counts_add_up(outcomes.drop_last());
    }
}

/// Counts one track: `None` for a track that was skipped, otherwise its routing outcome
/// (a preserved human decision counts as skipped).
pub fn record_classified(summary: ClassifyLibrarySummary, outcome: Option<RouteOutcome>) -> (s:
    ClassifyLibrarySummary)
    requires
        summary.auto_classified < usize::MAX,
        summary.sent_to_triage < usize::MAX,
        summary.skipped < usize::MAX,
    ensures
        (s.auto_classified as nat, s.sent_to_triage as nat, s.skipped as nat) == spec_classify_count(
            (summary.auto_classified as nat, summary.sent_to_triage as nat, summary.skipped as nat),
            outcome,
        ),
        s == (match outcome {
            Some(RouteOutcome::Auto) => ClassifyLibrarySummary {
                auto_classified: (summary.auto_classified + 1) as usize,
                ..summary
            },
            Some(RouteOutcome::Triage) => ClassifyLibrarySummary {
                sent_to_triage: (summary.sent_to_triage + 1) as usize,
                ..summary
            },
            _ => ClassifyLibrarySummary { skipped: (summary.skipped + 1) as usize, ..summary },
        }),
{
    match outcome {
        Some(RouteOutcome::Auto) => ClassifyLibrarySummary {
            auto_classified: summary.auto_classified + 1,
            ..summary
        },
        Some(RouteOutcome::Triage) => ClassifyLibrarySummary {
            sent_to_triage: summary.sent_to_triage + 1,
            ..summary
        },
        _ => ClassifyLibrarySummary { skipped: summary.skipped + 1, ..summary },
    }
}

/// The summary of a classify-all run from each listed track's outcome, in order (`None` for
/// a track left alone): every track is counted exactly once.
pub fn summarize_classified(outcomes: &[Option<RouteOutcome>]) -> (s: ClassifyLibrarySummary)
    ensures
        (s.auto_classified as nat, s.sent_to_triage as nat, s.skipped as nat)
            == spec_classify_counts(outcomes@),
        s.auto_classified + s.sent_to_triage + s.skipped == outcomes@.len(),
{
    let mut summary = ClassifyLibrarySummary { auto_classified: 0, sent_to_triage: 0, skipped: 0 };
    let mut i: usize = 0;
    while i < outcomes.len()
        invariant
            i <= outcomes.len(),
            (summary.auto_classified as nat, summary.sent_to_triage as nat, summary.skipped as nat)
                == spec_classify_counts(outcomes@.take(i as int)),
        decreases outcomes.len() - i,
    {
        proof {
            lemma_classify_counts_add_up(outcomes@.take(i as int));
            assert(outcomes@.take(i + 1).drop_last() =~= outcomes@.take(i as int));
        }
        summary = record_classified(summary, outcomes[i]);
        i = i + 1;
    }
    proof {
        assert(outcomes@.take(outcomes.len() as int) =~= outcomes@);
        lemma_classify_counts_add_up(outcomes@);
    }
    summary
}

} // verus!
