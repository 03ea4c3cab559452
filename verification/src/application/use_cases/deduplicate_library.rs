//! `DeduplicateLibrary` — collapses liked tracks by source track id; the first occurrence of
//! each id wins, and every collapsed duplicate is reported for the audit trail.
use vstd::prelude::*;
use crate::domain::audit::{detail_insert, AuditDetail};
use crate::domain::track::{texts, LikedTrack};
use crate::text::str_eq;

verus! {

/// The outcome of deduplication.
#[derive(Debug, PartialEq, Eq)]
pub struct DedupResult {
    /// The unique liked tracks (first occurrence of each source track id wins).
    pub unique: Vec<LikedTrack>,
    /// How many duplicates were collapsed.
    pub duplicates_skipped: usize,
}

/// Whether some track in `s` has source id `id`.
pub open spec fn has_source_id(s: Seq<LikedTrack>, id: Seq<char>) -> bool {
    exists|k: int| 0 <= k < s.len() && (#[trigger] s[k]).source_track_id@ == id
}

/// The first occurrence of each source id, in input order.
pub open spec fn first_occurrences(s: Seq<LikedTrack>) -> Seq<LikedTrack>
    decreases s.len(),
{
    if s.len() == 0 {
        Seq::empty()
    } else {
        let r = first_occurrences(s.drop_last());
        if has_source_id(r, s.last().source_track_id@) {
            r
        } else {
            r.push(s.last())
        }
    }
}

/// The source ids of the collapsed duplicates, in input order.
pub open spec fn duplicate_ids(s: Seq<LikedTrack>) -> Seq<Seq<char>>
    decreases s.len(),
{
    if s.len() == 0 {
        Seq::empty()
    } else {
        let d = duplicate_ids(s.drop_last());
        if has_source_id(first_occurrences(s.drop_last()), s.last().source_track_id@) {
            d.push(s.last().source_track_id@)
        } else {
            d
        }
    }
}

/// Deduplication keeps one track per source id, keeps every source id that occurred, and
/// accounts for every input as kept or collapsed.
pub proof fn lemma_dedup(s: Seq<LikedTrack>)
    ensures
        forall|i: int, j: int|
            0 <= i < j < first_occurrences(s).len() ==> (#[trigger] first_occurrences(s)[i]).source_track_id@
                != (#[trigger] first_occurrences(s)[j]).source_track_id@,
        forall|k: int| 0 <= k < s.len() ==> has_source_id(first_occurrences(s), (#[trigger] s[k]).source_track_id@),
        forall|k: int| 0 <= k < first_occurrences(s).len() ==> s.contains(#[trigger] first_occurrences(s)[k]),
        first_occurrences(s).len() + duplicate_ids(s).len() == s.len(),
    decreases s.len(),
{
    if s.len() > 0 {
        let p = s.drop_last();
        lemma_dedup(p);
        let r = first_occurrences(p);
        let last = s.last();
        assert forall|k: int| 0 <= k < s.len() implies has_source_id(first_occurrences(s), (#[trigger] s[k]).source_track_id@) by {
            if k < s.len() - 1 {
                assert(p[k] == s[k]);
                assert(has_source_id(r, p[k].source_track_id@));
                let w = choose|w: int| 0 <= w < r.len() && (#[trigger] r[w]).source_track_id@ == p[k].source_track_id@;
                if !has_source_id(r, last.source_track_id@) {
                    assert(r.push(last)[w] == r[w]);
                }
            } else if !has_source_id(r, last.source_track_id@) {
                assert(r.push(last)[r.len() as int] == last);
            }
        }
        assert forall|k: int| 0 <= k < first_occurrences(s).len() implies s.contains(#[trigger] first_occurrences(s)[k]) by {
            if k < r.len() {
                assert(first_occurrences(s)[k] == r[k]);
                assert(p.contains(r[k]));
                let w = choose|w: int| 0 <= w < p.len() && p[w] == r[k];
                assert(s[w] == r[k]);
            } else {
                assert(s[s.len() - 1] == last);
            }
        }
    }
}

/// Returns the unique subset of `liked` (first occurrence wins) and the source ids of the
/// collapsed duplicates, in order.
pub fn deduplicate(liked: Vec<LikedTrack>) -> (r: (DedupResult, Vec<String>))
    ensures
        r.0.unique@ == first_occurrences(liked@),
        r.0.duplicates_skipped == duplicate_ids(liked@).len(),
        texts(r.1@) == duplicate_ids(liked@),
        r.0.unique@.len() + r.0.duplicates_skipped == liked@.len(),
{
    let n = liked.len();
    let mut unique: Vec<LikedTrack> = Vec::new();
    let mut skipped: Vec<String> = Vec::new();
    let mut i: usize = 0;
    while i < n
        invariant
            n == liked@.len(),
            i <= n,
            unique@ == first_occurrences(liked@.take(i as int)),
            texts(skipped@) == duplicate_ids(liked@.take(i as int)),
            skipped@.len() <= i,
        decreases n - i,
    {
        let ghost prefix = liked@.take(i as int);
        let ghost next = liked@.take(i + 1);
        assert(next.drop_last() =~= prefix);
        assert(next.last() == liked@[i as int]);
        proof {
            lemma_dedup(prefix);
        }
        let mut seen = false;
        let mut j: usize = 0;
        while j < unique.len()
            invariant
                j <= unique.len(),
                unique@ == first_occurrences(prefix),
                i < n,
                n == liked@.len(),
                seen == (exists|k: int| 0 <= k < j && (#[trigger] unique@[k]).source_track_id@
                    == liked@[i as int].source_track_id@),
            decreases unique.len() - j,
        {
            if str_eq(unique[j].source_track_id.as_str(), liked[i].source_track_id.as_str()) {
                seen = true;
            }
            j = j + 1;
        }
        let track = liked[i].clone();
        if seen {
            skipped.push(track.source_track_id);
            assert(texts(skipped@) =~= duplicate_ids(next));
        } else {
            unique.push(track);
            assert(texts(skipped@) =~= duplicate_ids(next));
        }
        i = i + 1;
    }
    assert(liked@.take(n as int) =~= liked@);
    proof {
        lemma_dedup(liked@);
    }
    let duplicates_skipped = skipped.len();
    (DedupResult { unique, duplicates_skipped }, skipped)
}

/// The detail of a collapsed duplicate: its source id (public metadata).
pub fn skip_detail(source_track_id: &str) -> (d: AuditDetail)
    ensures
        d@ == detail_insert(Seq::empty(), "source_track_id"@, source_track_id@),
{
    AuditDetail::new().with("source_track_id", source_track_id.to_owned())
}

} // verus!
