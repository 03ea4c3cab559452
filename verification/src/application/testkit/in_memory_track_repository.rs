//! In-memory track store with the persistence contract's dedup and idempotency semantics:
//! the source track id is unique, and an upsert never undoes a human's decision.
use vstd::prelude::*;
use crate::application::ports::repo_error::RepoError;
use crate::application::use_cases::adjust_threshold::track_views;
use crate::domain::crate_::CrateId;
use crate::domain::track::{Track, TrackId, TrackStatus, TrackView};
use crate::text::str_eq;

verus! {

/// Whether no two tracks share an internal id or a source id.
pub open spec fn library_wf(s: Seq<TrackView>) -> bool {
    forall|i: int, j: int|
        0 <= i < j < s.len() ==> (#[trigger] s[i]).id != (#[trigger] s[j]).id
            && s[i].source_track_id != s[j].source_track_id
}

/// The position of the track with internal id `id`, if any.
pub open spec fn position_of(s: Seq<TrackView>, id: TrackId) -> Option<int>
    decreases s.len(),
{
    if s.len() == 0 {
        None
    } else if s[0].id == id {
        Some(0)
    } else {
        match position_of(s.drop_first(), id) {
            Some(i) => Some(i + 1),
            None => None,
        }
    }
}

/// The position of the track with source id `source_id`, if any.
pub open spec fn position_of_source(s: Seq<TrackView>, source_id: Seq<char>) -> Option<int>
    decreases s.len(),
{
    if s.len() == 0 {
        None
    } else if s[0].source_track_id == source_id {
        Some(0)
    } else {
        match position_of_source(s.drop_first(), source_id) {
            Some(i) => Some(i + 1),
            None => None,
        }
    }
}

/// Whether `t` claims a source id already held by a track with another internal id.
pub open spec fn source_conflict(s: Seq<TrackView>, t: TrackView) -> bool {
    exists|i: int| 0 <= i < s.len() && (#[trigger] s[i]).source_track_id == t.source_track_id
        && s[i].id != t.id
}

/// The library after upserting `t` (without a source conflict): a track with the same id is
/// replaced unless that would undo a human decision; a new id is appended.
pub open spec fn spec_upsert(s: Seq<TrackView>, t: TrackView) -> Seq<TrackView> {
    match position_of(s, t.id) {
        Some(i) => if s[i].status == TrackStatus::ManuallyDecided && t.status
            != TrackStatus::ManuallyDecided {
            s
        } else {
            s.update(i, t)
        },
        None => s.push(t),
    }
}

/// `position_of` finds the first track with the id, and only when there is one.
pub proof fn lemma_position_of(s: Seq<TrackView>, id: TrackId)
    ensures
        match position_of(s, id) {
            Some(i) => 0 <= i < s.len() && s[i].id == id && forall|j: int|
                0 <= j < i ==> (#[trigger] s[j]).id != id,
            None => forall|j: int| 0 <= j < s.len() ==> (#[trigger] s[j]).id != id,
        },
    decreases s.len(),
{
    if s.len() > 0 {
        lemma_position_of(s.drop_first(), id);
        if s[0].id != id {
            assert forall|j: int| 1 <= j < s.len() implies s[j] == s.drop_first()[j - 1] by {}
        }
    }
}

/// `position_of_source` finds the first track with the source id, and only when there is one.
proof fn lemma_position_of_source(s: Seq<TrackView>, source_id: Seq<char>)
    ensures
        match position_of_source(s, source_id) {
            Some(i) => 0 <= i < s.len() && s[i].source_track_id == source_id && forall|j: int|
                0 <= j < i ==> (#[trigger] s[j]).source_track_id != source_id,
            None => forall|j: int| 0 <= j < s.len() ==> (#[trigger] s[j]).source_track_id != source_id,
        },
    decreases s.len(),
{
    if s.len() > 0 {
        lemma_position_of_source(s.drop_first(), source_id);
        if s[0].source_track_id != source_id {
            assert forall|j: int| 1 <= j < s.len() implies s[j] == s.drop_first()[j - 1] by {}
        }
    }
}

/// An upsert keeps ids and source ids unique.
proof fn lemma_upsert_wf(s: Seq<TrackView>, t: TrackView)
    requires
        library_wf(s),
        !source_conflict(s, t),
    ensures
        library_wf(spec_upsert(s, t)),
{
    lemma_position_of(s, t.id);
    let r = spec_upsert(s, t);
    match position_of(s, t.id) {
        Some(i) => {
            assert forall|a: int, b: int| 0 <= a < b < r.len() implies (#[trigger] r[a]).id != (#[trigger] r[b]).id
                && r[a].source_track_id != r[b].source_track_id by {
                if a == i || b == i {
                    let o = if a == i { b } else { a };
                    assert(s[o].id != t.id);
                    if s[o].source_track_id == t.source_track_id {
                        assert(source_conflict(s, t));
                    }
                }
            }
        },
        None => {
            assert forall|a: int, b: int| 0 <= a < b < r.len() implies (#[trigger] r[a]).id != (#[trigger] r[b]).id
                && r[a].source_track_id != r[b].source_track_id by {
                if b == s.len() {
                    assert(r[a] == s[a]);
                    if s[a].source_track_id == t.source_track_id {
                        assert(source_conflict(s, t));
                    }
                }
            }
        },
    }
}

/// An upsert never undoes a human decision: every track that was `ManuallyDecided` still is.
pub proof fn lemma_upsert_keeps_human_decisions(s: Seq<TrackView>, t: TrackView, i: int)
    requires
        0 <= i < s.len(),
        s[i].status == TrackStatus::ManuallyDecided,
    ensures
        spec_upsert(s, t).len() >= s.len(),
        spec_upsert(s, t)[i].status == TrackStatus::ManuallyDecided,
{
    lemma_position_of(s, t.id);
}

/// Reading back after an upsert: the track is found under its id, holding what was written —
/// unless a human decision it would have undone was kept instead — and its source id leads to
/// it, so a later scan sees it as already in the library.
pub proof fn lemma_upsert_then_find(s: Seq<TrackView>, t: TrackView)
    requires
        library_wf(s),
        !source_conflict(s, t),
    ensures
        position_of(spec_upsert(s, t), t.id) is Some,
        ({
            let r = spec_upsert(s, t);
            let i = position_of(r, t.id)->0;
            r[i] == t || (r[i] == s[i] && s[i].status == TrackStatus::ManuallyDecided && t.status
                != TrackStatus::ManuallyDecided)
        }),
        spec_upsert(s, t)[position_of(spec_upsert(s, t), t.id)->0] == t ==> position_of_source(
            spec_upsert(s, t),
            t.source_track_id,
        ) == position_of(spec_upsert(s, t), t.id),
{
    lemma_position_of(s, t.id);
    lemma_upsert_wf(s, t);
    let r = spec_upsert(s, t);
    lemma_position_of(r, t.id);
    lemma_position_of_source(r, t.source_track_id);
    match position_of(s, t.id) {
        Some(i) => {
            assert(r[i].id == t.id);
        },
        None => {
            assert(r[s.len() as int] == t);
        },
    }
}

/// A `TrackRepository` backed by an in-memory list.
#[derive(Debug)]
pub struct InMemoryTrackRepository {
    tracks: Vec<Track>,
}

impl View for InMemoryTrackRepository {
    type V = Seq<TrackView>;

    closed spec fn view(&self) -> Seq<TrackView> {
        track_views(self.tracks@)
    }
}

/// The tracks with status `status`, in library order.
pub open spec fn with_status(s: Seq<TrackView>, status: TrackStatus) -> Seq<TrackView>
    decreases s.len(),
{
    if s.len() == 0 {
        Seq::empty()
    } else if s.last().status == status {
        with_status(s.drop_last(), status).push(s.last())
    } else {
        with_status(s.drop_last(), status)
    }
}

/// The tracks filed into `crate_id`, in library order.
pub open spec fn in_crate(s: Seq<TrackView>, crate_id: CrateId) -> Seq<TrackView>
    decreases s.len(),
{
    if s.len() == 0 {
        Seq::empty()
    } else if s.last().crate_id == Some(crate_id) {
        in_crate(s.drop_last(), crate_id).push(s.last())
    } else {
        in_crate(s.drop_last(), crate_id)
    }
}

/// Whether a track is filed into `crate_id`.
pub open spec fn filed_into(crate_id: CrateId) -> spec_fn(TrackView) -> bool {
    |t: TrackView| t.crate_id == Some(crate_id)
}

/// Whether a track holds `status`.
pub open spec fn holding(status: TrackStatus) -> spec_fn(TrackView) -> bool {
    |t: TrackView| t.status == status
}

/// The tracks listed for a crate are exactly the library's tracks filed into it, whatever
/// their status or confidence: every such track is listed, every listed track is filed there,
/// and the listing is the library filtered on the crate alone.
pub proof fn lemma_crate_listing_is_exact(s: Seq<TrackView>, crate_id: CrateId)
    ensures
        in_crate(s, crate_id) == s.filter(filed_into(crate_id)),
        forall|k: int|
            0 <= k < s.len() && (#[trigger] s[k]).crate_id == Some(crate_id) ==> in_crate(
                s,
                crate_id,
            ).contains(s[k]),
        forall|j: int|
            0 <= j < in_crate(s, crate_id).len() ==> (#[trigger] in_crate(s, crate_id)[j]).crate_id
                == Some(crate_id),
    decreases s.len(),
{
    reveal(Seq::filter);
    if s.len() > 0 {
        let p = s.drop_last();
        lemma_crate_listing_is_exact(p, crate_id);
        let r = in_crate(p, crate_id);
        assert forall|k: int|
            0 <= k < s.len() && (#[trigger] s[k]).crate_id == Some(crate_id) implies in_crate(
                s,
                crate_id,
            ).contains(s[k]) by {
            if k < s.len() - 1 {
                assert(p[k] == s[k]);
                let w = choose|w: int| 0 <= w < r.len() && r[w] == p[k];
                if s.last().crate_id == Some(crate_id) {
                    assert(r.push(s.last())[w] == s[k]);
                }
            } else {
                assert(r.push(s.last())[r.len() as int] == s[k]);
            }
        }
        assert forall|j: int| 0 <= j < in_crate(s, crate_id).len() implies (#[trigger] in_crate(
            s,
            crate_id,
        )[j]).crate_id == Some(crate_id) by {
            if s.last().crate_id == Some(crate_id) && j < r.len() {
                assert(r.push(s.last())[j] == r[j]);
            }
        }
    }
}

/// The tracks listed with a status are exactly the library's tracks holding it, whatever their
/// confidence or crate: every such track is listed (every `InTriage` track is in the triage
/// queue), every listed track holds the status, and the listing is the library filtered on the
/// status alone.
pub proof fn lemma_status_listing_is_exact(s: Seq<TrackView>, status: TrackStatus)
    ensures
        with_status(s, status) == s.filter(holding(status)),
        forall|k: int|
            0 <= k < s.len() && (#[trigger] s[k]).status == status ==> with_status(
                s,
                status,
            ).contains(s[k]),
        forall|j: int|
            0 <= j < with_status(s, status).len() ==> (#[trigger] with_status(s, status)[j]).status
                == status,
    decreases s.len(),
{
    reveal(Seq::filter);
    if s.len() > 0 {
        let p = s.drop_last();
        lemma_status_listing_is_exact(p, status);
        let r = with_status(p, status);
        assert forall|k: int|
            0 <= k < s.len() && (#[trigger] s[k]).status == status implies with_status(
                s,
                status,
            ).contains(s[k]) by {
            if k < s.len() - 1 {
                assert(p[k] == s[k]);
                let w = choose|w: int| 0 <= w < r.len() && r[w] == p[k];
                if s.last().status == status {
                    assert(r.push(s.last())[w] == s[k]);
                }
            } else {
                assert(r.push(s.last())[r.len() as int] == s[k]);
            }
        }
        assert forall|j: int| 0 <= j < with_status(s, status).len() implies (#[trigger] with_status(
            s,
            status,
        )[j]).status == status by {
            if s.last().status == status && j < r.len() {
                assert(r.push(s.last())[j] == r[j]);
            }
        }
    }
}

/// The view of an optional track.
pub open spec fn opt_track(o: Option<Track>) -> Option<TrackView> {
    match o {
        Some(t) => Some(t@),
        None => None,
    }
}

impl InMemoryTrackRepository {
    #[verifier::type_invariant]
    spec fn unique_keys(self) -> bool {
        library_wf(track_views(self.tracks@))
    }

    /// Builds an empty repository.
    pub fn new() -> (r: Self)
        ensures
            r@ == Seq::<TrackView>::empty(),
    {
        let r = InMemoryTrackRepository { tracks: Vec::new() };
        assert(r@ =~= Seq::<TrackView>::empty());
        r
    }

    /// Looks up a track by the source's stable id (the dedup key).
    pub fn find_by_source_id(&self, source_id: &str) -> (r: Option<Track>)
        ensures
            opt_track(r) == (match position_of_source(self@, source_id@) {
                Some(i) => Some(self@[i]),
                None => None,
            }),
    {
        proof {
            lemma_position_of_source(self@, source_id@);
        }
        let mut i: usize = 0;
        while i < self.tracks.len()
            invariant
                i <= self.tracks.len(),
                self@ == track_views(self.tracks@),
                forall|j: int| 0 <= j < i ==> (#[trigger] self@[j]).source_track_id != source_id@,
            decreases self.tracks.len() - i,
        {
            if str_eq(self.tracks[i].source_track_id(), source_id) {
                assert(self@[i as int] == self.tracks@[i as int]@);
                proof {
                    lemma_position_of_source(self@, source_id@);
                }
                return Some(self.tracks[i].clone());
            }
            i = i + 1;
        }
        None
    }

    /// Looks up a track by its internal id.
    pub fn find_by_id(&self, id: TrackId) -> (r: Option<Track>)
        ensures
            opt_track(r) == (match position_of(self@, id) {
                Some(i) => Some(self@[i]),
                None => None,
            }),
            library_wf(self@),
    {
        proof {
            use_type_invariant(self);
            lemma_position_of(self@, id);
        }
        let mut i: usize = 0;
        while i < self.tracks.len()
            invariant
                i <= self.tracks.len(),
                self@ == track_views(self.tracks@),
                library_wf(self@),
                forall|j: int| 0 <= j < i ==> (#[trigger] self@[j]).id != id,
            decreases self.tracks.len() - i,
        {
            if self.tracks[i].id() == id {
                assert(self@[i as int] == self.tracks@[i as int]@);
                proof {
                    lemma_position_of(self@, id);
                }
                return Some(self.tracks[i].clone());
            }
            i = i + 1;
        }
        None
    }

    /// Inserts or updates a track: a second track claiming an existing source id under another
    /// internal id is rejected; a prior `ManuallyDecided` status is preserved.
    pub fn upsert(&mut self, track: &Track) -> (r: Result<(), RepoError>)
        ensures
            source_conflict(old(self)@, track@) ==> r == Err::<(), RepoError>(RepoError::Constraint)
                && final(self)@ == old(self)@,
            !source_conflict(old(self)@, track@) ==> r == Ok::<(), RepoError>(()) && final(self)@
                == spec_upsert(old(self)@, track@),
    {
        proof {
            use_type_invariant(&*self);
            lemma_position_of(self@, track@.id);
        }
        let ghost s = self@;
        let n = self.tracks.len();
        let mut k: usize = 0;
        while k < n
            invariant
                n == self.tracks.len(),
                k <= n,
                s == track_views(self.tracks@),
                forall|j: int|
                    0 <= j < k ==> !((#[trigger] s[j]).source_track_id == track@.source_track_id
                        && s[j].id != track@.id),
            decreases n - k,
        {
            assert(s[k as int] == self.tracks@[k as int]@);
            if str_eq(self.tracks[k].source_track_id(), track.source_track_id())
                && self.tracks[k].id() != track.id() {
                return Err(RepoError::Constraint);
            }
            k = k + 1;
        }
        proof {
            lemma_upsert_wf(s, track@);
        }
        let mut i: usize = 0;
        while i < n && self.tracks[i].id() != track.id()
            invariant
                n == self.tracks.len(),
                i <= n,
                s == track_views(self.tracks@),
                forall|j: int| 0 <= j < i ==> (#[trigger] s[j]).id != track@.id,
            decreases n - i,
        {
            assert(s[i as int] == self.tracks@[i as int]@);
            i = i + 1;
        }
        if i < n {
            assert(s[i as int] == self.tracks@[i as int]@);
            if self.tracks[i].is_manually_decided() && !track.is_manually_decided() {
                return Ok(());
            }
        }
        let mut tracks: Vec<Track> = Vec::new();
        std::mem::swap(&mut tracks, &mut self.tracks);
        if i < n {
            tracks.set(i, track.clone());
            assert(track_views(tracks@) =~= s.update(i as int, track@));
        } else {
            tracks.push(track.clone());
            assert(track_views(tracks@) =~= s.push(track@));
        }
        self.tracks = tracks;
        Ok(())
    }

    /// Returns every track.
    pub fn list_all(&self) -> (r: Vec<Track>)
        ensures
            track_views(r@) == self@,
    {
        let mut r: Vec<Track> = Vec::new();
        let mut i: usize = 0;
        while i < self.tracks.len()
            invariant
                i <= self.tracks.len(),
                track_views(r@) == track_views(self.tracks@.take(i as int)),
            decreases self.tracks.len() - i,
        {
            let ghost before = r@;
            let t = self.tracks[i].clone();
            r.push(t);
            assert(track_views(r@) =~= track_views(before).push(t@));
            assert(track_views(self.tracks@.take(i + 1)) =~= track_views(self.tracks@.take(i as int)).push(
                self.tracks@[i as int]@,
            ));
            i = i + 1;
        }
        assert(self.tracks@.take(self.tracks.len() as int) =~= self.tracks@);
        r
    }

    /// Returns every track currently in `status`.
    pub fn list_with_status(&self, status: TrackStatus) -> (r: Vec<Track>)
        ensures
            track_views(r@) == with_status(self@, status),
    {
        let mut r: Vec<Track> = Vec::new();
        let mut i: usize = 0;
        while i < self.tracks.len()
            invariant
                i <= self.tracks.len(),
                self@ == track_views(self.tracks@),
                track_views(r@) == with_status(self@.take(i as int), status),
            decreases self.tracks.len() - i,
        {
            let ghost before = self@.take(i as int);
            assert(self@.take(i + 1).drop_last() =~= before);
            assert(self@.take(i + 1).last() == self.tracks@[i as int]@);
            if self.tracks[i].status() == status {
                let ghost prev = r@;
                let t = self.tracks[i].clone();
                r.push(t);
                assert(track_views(r@) =~= track_views(prev).push(t@));
            }
            i = i + 1;
        }
        assert(self@.take(self.tracks.len() as int) =~= self@);
        r
    }

    /// Returns tracks currently awaiting manual triage.
    pub fn list_in_triage(&self) -> (r: Vec<Track>)
        ensures
            track_views(r@) == with_status(self@, TrackStatus::InTriage),
    {
        self.list_with_status(TrackStatus::InTriage)
    }

    /// Returns tracks deferred out of an earlier triage session.
    pub fn list_deferred(&self) -> (r: Vec<Track>)
        ensures
            track_views(r@) == with_status(self@, TrackStatus::Deferred),
    {
        self.list_with_status(TrackStatus::Deferred)
    }

    /// Returns tracks assigned to a given crate.
    pub fn list_by_crate(&self, crate_id: CrateId) -> (r: Vec<Track>)
        ensures
            track_views(r@) == in_crate(self@, crate_id),
    {
        let mut r: Vec<Track> = Vec::new();
        let mut i: usize = 0;
        while i < self.tracks.len()
            invariant
                i <= self.tracks.len(),
                self@ == track_views(self.tracks@),
                track_views(r@) == in_crate(self@.take(i as int), crate_id),
            decreases self.tracks.len() - i,
        {
            let ghost before = self@.take(i as int);
            assert(self@.take(i + 1).drop_last() =~= before);
            assert(self@.take(i + 1).last() == self.tracks@[i as int]@);
            if self.tracks[i].crate_id() == Some(crate_id) {
                let ghost prev = r@;
                let t = self.tracks[i].clone();
                r.push(t);
                assert(track_views(r@) =~= track_views(prev).push(t@));
            }
            i = i + 1;
        }
        assert(self@.take(self.tracks.len() as int) =~= self@);
        r
    }
}

} // verus!
