//! `ScanLikes` — lists a profile's likes, deduplicates the batch, and persists only tracks not
//! already in the library (an idempotent incremental scan). The counts and their audit detail
//! live here.
use vstd::prelude::*;
use crate::application::ports::audit_log::AuditError;
use crate::application::ports::likes_source::LikesSourceError;
use crate::application::ports::repo_error::RepoError;
use crate::application::use_cases::deduplicate_library::DedupResult;
use crate::domain::audit::{detail_insert, AuditDetail};
use crate::domain::track::Track;
use crate::text::{decimal, decimal_text};

verus! {

/// Counts describing one scan run.
#[derive(Debug, Clone, Copy, PartialEq, Eq, Structural)]
pub struct ScanSummary {
    /// Total likes returned by the source (before dedup).
    pub liked_total: usize,
    /// Duplicates collapsed within this batch.
    pub duplicates_collapsed: usize,
    /// New tracks persisted this run.
    pub new_tracks: usize,
    /// Unique tracks already present from a prior run (left untouched).
    pub already_in_library: usize,
}

/// Failure during a scan.
#[derive(Debug, Clone, Copy, PartialEq, Eq, Structural)]
pub enum ScanError {
    /// The likes source failed.
    Source(LikesSourceError),
    /// A repository operation failed.
    Repo(RepoError),
    /// Recording an audit event failed.
    Audit(AuditError),
}

/// The counts a scan starts its per-like pass with: every like the source returned (the kept
/// ones and the collapsed duplicates), the duplicates collapsed, and nothing imported yet.
pub fn start_summary(dedup: &DedupResult) -> (s: ScanSummary)
    requires
        dedup.unique@.len() + dedup.duplicates_skipped <= usize::MAX,
    ensures
        s == (ScanSummary {
            liked_total: (dedup.unique@.len() + dedup.duplicates_skipped) as usize,
            duplicates_collapsed: dedup.duplicates_skipped,
            new_tracks: 0,
            already_in_library: 0,
        }),
{
    ScanSummary {
        liked_total: dedup.unique.len() + dedup.duplicates_skipped,
        duplicates_collapsed: dedup.duplicates_skipped,
        new_tracks: 0,
        already_in_library: 0,
    }
}

/// Decides one unique like of the batch from what the library holds under its source id: one
/// already there is left untouched (not imported) and counted as such; any other is to be
/// imported and is counted as new.
pub fn record_scanned(summary: ScanSummary, existing: &Option<Track>) -> (r: (ScanSummary, bool))
    requires
        summary.new_tracks < usize::MAX,
        summary.already_in_library < usize::MAX,
    ensures
        r.1 == (existing is None),
        r.0 == (if existing is Some {
            ScanSummary { already_in_library: (summary.already_in_library + 1) as usize, ..summary }
        } else {
            ScanSummary { new_tracks: (summary.new_tracks + 1) as usize, ..summary }
        }),
{
    match existing {
        Some(_) => (
            ScanSummary { already_in_library: summary.already_in_library + 1, ..summary },
            false,
        ),
        None => (ScanSummary { new_tracks: summary.new_tracks + 1, ..summary }, true),
    }
}

/// The run-completion detail: the four counts in decimal.
pub open spec fn spec_summary_detail(s: ScanSummary) -> Seq<(Seq<char>, Seq<char>)> {
    detail_insert(
        detail_insert(
            detail_insert(
                detail_insert(Seq::empty(), "liked_total"@, decimal(s.liked_total as nat)),
                "duplicates_collapsed"@,
                decimal(s.duplicates_collapsed as nat),
            ),
            "new_tracks"@,
            decimal(s.new_tracks as nat),
        ),
        "already_in_library"@,
        decimal(s.already_in_library as nat),
    )
}

/// Builds the secret-free detail map for a run-completion event.
pub fn summary_detail(summary: &ScanSummary) -> (d: AuditDetail)
    ensures
        d@ == spec_summary_detail(*summary),
{
    AuditDetail::new()
        .with("liked_total", decimal_text(summary.liked_total as u64))
        .with("duplicates_collapsed", decimal_text(summary.duplicates_collapsed as u64))
        .with("new_tracks", decimal_text(summary.new_tracks as u64))
        .with("already_in_library", decimal_text(summary.already_in_library as u64))
}

/// The detail of a newly imported track: its source id.
pub fn new_track_detail(source_track_id: &str) -> (d: AuditDetail)
    ensures
        d@ == detail_insert(Seq::empty(), "source_track_id"@, source_track_id@),
{
    AuditDetail::new().with("source_track_id", source_track_id.to_owned())
}

} // verus!
