//! In-memory append-only audit log; a track's events are read back oldest first.
use vstd::prelude::*;
use crate::domain::audit::{AuditEvent, AuditEventView};
use crate::domain::track::TrackId;

verus! {

/// The views of a list of events.
pub open spec fn event_views(s: Seq<AuditEvent>) -> Seq<AuditEventView> {
    s.map_values(|e: AuditEvent| e@)
}

/// The events concerning `track`, in recording order.
pub open spec fn for_track(s: Seq<AuditEventView>, track: TrackId) -> Seq<AuditEventView>
    decreases s.len(),
{
    if s.len() == 0 {
        Seq::empty()
    } else if s.last().track_id == Some(track) {
        for_track(s.drop_last(), track).push(s.last())
    } else {
        for_track(s.drop_last(), track)
    }
}

/// `e` placed into a time-ascending list after every event no later than it.
pub open spec fn insert_by_time(sorted: Seq<AuditEventView>, e: AuditEventView) -> Seq<AuditEventView>
    decreases sorted.len(),
{
    if sorted.len() == 0 {
        seq![e]
    } else if sorted[0].occurred_at.0 <= e.occurred_at.0 {
        seq![sorted[0]] + insert_by_time(sorted.drop_first(), e)
    } else {
        seq![e] + sorted
    }
}

/// The events in ascending order of time; events at the same instant keep recording order.
pub open spec fn by_time(s: Seq<AuditEventView>) -> Seq<AuditEventView>
    decreases s.len(),
{
    if s.len() == 0 {
        Seq::empty()
    } else {
        insert_by_time(by_time(s.drop_last()), s.last())
    }
}

/// Where `e` goes: after every event no later than it.
proof fn lemma_insert_by_time_at(sorted: Seq<AuditEventView>, e: AuditEventView, p: int)
    requires
        0 <= p <= sorted.len(),
        forall|j: int| 0 <= j < p ==> (#[trigger] sorted[j]).occurred_at.0 <= e.occurred_at.0,
        p < sorted.len() ==> sorted[p].occurred_at.0 > e.occurred_at.0,
    ensures
        insert_by_time(sorted, e) == sorted.insert(p, e),
    decreases p,
{
    if p == 0 {
        if sorted.len() == 0 {
            assert(sorted.insert(0, e) =~= seq![e]);
        } else {
            assert(sorted.insert(0, e) =~= seq![e] + sorted);
        }
    } else {
        let t = sorted.drop_first();
        assert(sorted[0].occurred_at.0 <= e.occurred_at.0);
        assert forall|j: int| 0 <= j < p - 1 implies (#[trigger] t[j]).occurred_at.0
            <= e.occurred_at.0 by {
            assert(t[j] == sorted[j + 1]);
        }
        lemma_insert_by_time_at(t, e, p - 1);
        assert(seq![sorted[0]] + t.insert(p - 1, e) =~= sorted.insert(p, e));
    }
}

/// Whether a list is in ascending order of time.
pub open spec fn ascending(s: Seq<AuditEventView>) -> bool {
    forall|i: int, j: int| 0 <= i < j < s.len() ==> (#[trigger] s[i]).occurred_at.0 <= (#[trigger] s[j]).occurred_at.0
}

/// Ordering by time keeps every event and orders them oldest first.
pub proof fn lemma_by_time(s: Seq<AuditEventView>)
    ensures
        by_time(s).len() == s.len(),
        ascending(by_time(s)),
        forall|k: int| 0 <= k < s.len() ==> by_time(s).contains(#[trigger] s[k]),
    decreases s.len(),
{
    if s.len() > 0 {
        let t = by_time(s.drop_last());
        let e = s.last();
        lemma_by_time(s.drop_last());
        let p = first_later(t, e.occurred_at.0);
        lemma_first_later(t, e.occurred_at.0);
        lemma_insert_by_time_at(t, e, p);
        let r = t.insert(p, e);
        assert forall|i: int, j: int| 0 <= i < j < r.len() implies (#[trigger] r[i]).occurred_at.0
            <= (#[trigger] r[j]).occurred_at.0 by {
            if j < p {
                assert(r[i] == t[i] && r[j] == t[j]);
            } else if j == p {
                assert(r[i] == t[i]);
            } else if i == p {
                assert(r[j] == t[j - 1]);
            } else if i < p {
                assert(r[i] == t[i] && r[j] == t[j - 1]);
            } else {
                assert(r[i] == t[i - 1] && r[j] == t[j - 1]);
            }
        }
        assert forall|k: int| 0 <= k < s.len() implies r.contains(#[trigger] s[k]) by {
            if k == s.len() - 1 {
                assert(r[p] == e);
            } else {
                assert(s.drop_last()[k] == s[k]);
                let w = choose|w: int| 0 <= w < t.len() && t[w] == s[k];
                if w < p {
                    assert(r[w] == s[k]);
                } else {
                    assert(r[w + 1] == s[k]);
                }
            }
        }
    }
}

/// The first position later than `time`, in an ascending list.
spec fn first_later(t: Seq<AuditEventView>, time: i64) -> int
    decreases t.len(),
{
    if t.len() == 0 {
        0
    } else if t[0].occurred_at.0 > time {
        0
    } else {
        1 + first_later(t.drop_first(), time)
    }
}

/// `first_later` is a slot: everything before it is no later than `time`.
proof fn lemma_first_later(t: Seq<AuditEventView>, time: i64)
    ensures
        0 <= first_later(t, time) <= t.len(),
        forall|j: int| 0 <= j < first_later(t, time) ==> (#[trigger] t[j]).occurred_at.0 <= time,
        first_later(t, time) < t.len() ==> t[first_later(t, time)].occurred_at.0 > time,
    decreases t.len(),
{
    if t.len() > 0 && t[0].occurred_at.0 <= time {
        lemma_first_later(t.drop_first(), time);
        assert forall|j: int| 0 <= j < first_later(t, time) implies (#[trigger] t[j]).occurred_at.0
            <= time by {
            if j > 0 {
                assert(t[j] == t.drop_first()[j - 1]);
            }
        }
    }
}

/// Every event ordering by time yields is one of the events it was given.
proof fn lemma_by_time_draws_from(s: Seq<AuditEventView>)
    ensures
        forall|j: int| 0 <= j < by_time(s).len() ==> s.contains(#[trigger] by_time(s)[j]),
    decreases s.len(),
{
    if s.len() > 0 {
        let t = by_time(s.drop_last());
        let e = s.last();
        lemma_by_time(s.drop_last());
        lemma_by_time_draws_from(s.drop_last());
        let p = first_later(t, e.occurred_at.0);
        lemma_first_later(t, e.occurred_at.0);
        lemma_insert_by_time_at(t, e, p);
        let r = t.insert(p, e);
        assert forall|j: int| 0 <= j < by_time(s).len() implies s.contains(#[trigger] by_time(s)[j]) by {
            if j < p {
                assert(r[j] == t[j]);
                let w = choose|w: int| 0 <= w < s.drop_last().len() && s.drop_last()[w] == t[j];
                assert(s[w] == t[j]);
            } else if j == p {
                assert(s[s.len() - 1] == e);
            } else {
                assert(r[j] == t[j - 1]);
                let w = choose|w: int| 0 <= w < s.drop_last().len() && s.drop_last()[w] == t[j - 1];
                assert(s[w] == t[j - 1]);
            }
        }
    }
}

/// Whether an event concerns `track`.
pub open spec fn concerns(track: TrackId) -> spec_fn(AuditEventView) -> bool {
    |e: AuditEventView| e.track_id == Some(track)
}

/// The events of a track, as `for_track` picks them, are the log filtered on the track id
/// alone.
proof fn lemma_for_track_is_filter(s: Seq<AuditEventView>, track: TrackId)
    ensures
        for_track(s, track) == s.filter(concerns(track)),
    decreases s.len(),
{
    reveal(Seq::filter);
    if s.len() > 0 {
        lemma_for_track_is_filter(s.drop_last(), track);
    }
}

/// A track's trail, as `events_for_track` returns it, holds every recorded event carrying the
/// track's id, whatever its stage or kind, and nothing else, oldest first: every such event is
/// in it, every event in it carries the id, and it holds as many events as the log holds for
/// the track.
pub proof fn lemma_trail_is_every_event_of_the_track(s: Seq<AuditEventView>, track: TrackId)
    ensures
        for_track(s, track) == s.filter(concerns(track)),
        by_time(for_track(s, track)).len() == s.filter(concerns(track)).len(),
        forall|k: int|
            0 <= k < s.len() && (#[trigger] s[k]).track_id == Some(track) ==> by_time(
                for_track(s, track),
            ).contains(s[k]),
        forall|j: int|
            0 <= j < by_time(for_track(s, track)).len() ==> (#[trigger] by_time(
                for_track(s, track),
            )[j]).track_id == Some(track),
        ascending(by_time(for_track(s, track))),
{
    lemma_for_track_is_filter(s, track);
    let f = for_track(s, track);
    lemma_by_time(f);
    lemma_by_time_draws_from(f);
    assert forall|k: int|
        0 <= k < s.len() && (#[trigger] s[k]).track_id == Some(track) implies by_time(f).contains(
        s[k],
    ) by {
        s.lemma_filter_contains(concerns(track), k);
        let w = choose|w: int| 0 <= w < f.len() && f[w] == s[k];
        assert(by_time(f).contains(f[w]));
    }
    assert forall|j: int| 0 <= j < by_time(f).len() implies (#[trigger] by_time(f)[j]).track_id
        == Some(track) by {
        let w = choose|w: int| 0 <= w < f.len() && f[w] == by_time(f)[j];
        s.lemma_filter_pred(concerns(track), w);
    }
}

/// An append-only audit log backed by an in-memory list.
#[derive(Debug)]
pub struct InMemoryAuditLog {
    events: Vec<AuditEvent>,
}

impl View for InMemoryAuditLog {
    type V = Seq<AuditEventView>;

    closed spec fn view(&self) -> Seq<AuditEventView> {
        event_views(self.events@)
    }
}

impl InMemoryAuditLog {
    /// Builds an empty audit log.
    pub fn new() -> (r: Self)
        ensures
            r@ == Seq::<AuditEventView>::empty(),
    {
        let r = InMemoryAuditLog { events: Vec::new() };
        assert(r@ =~= Seq::<AuditEventView>::empty());
        r
    }

    /// Appends one event.
    pub fn record(&mut self, event: AuditEvent)
        ensures
            final(self)@ == old(self)@.push(event@),
    {
        let ghost before = self.events@;
        self.events.push(event);
        assert(event_views(self.events@) =~= event_views(before).push(event@));
    }

    /// Returns a snapshot of every recorded event.
    pub fn all(&self) -> (r: Vec<AuditEvent>)
        ensures
            event_views(r@) == self@,
    {
        let mut r: Vec<AuditEvent> = Vec::new();
        let mut i: usize = 0;
        while i < self.events.len()
            invariant
                i <= self.events.len(),
                event_views(r@) == event_views(self.events@.take(i as int)),
            decreases self.events.len() - i,
        {
            let ghost before = r@;
            let e = self.events[i].clone();
            r.push(e);
            assert(event_views(r@) =~= event_views(before).push(e@));
            assert(event_views(self.events@.take(i + 1)) =~= event_views(self.events@.take(i as int)).push(
                self.events@[i as int]@,
            ));
            i = i + 1;
        }
        assert(self.events@.take(self.events.len() as int) =~= self.events@);
        r
    }

    /// Returns every event concerning `track_id`, oldest first (events at the same instant in
    /// recording order).
    pub fn events_for_track(&self, track_id: TrackId) -> (r: Vec<AuditEvent>)
        ensures
            event_views(r@) == by_time(for_track(self@, track_id)),
    {
        let n = self.events.len();
        let mut sorted: Vec<AuditEvent> = Vec::new();
        let mut i: usize = 0;
        while i < n
            invariant
                n == self.events.len(),
                i <= n,
                self@ == event_views(self.events@),
                event_views(sorted@) == by_time(for_track(self@.take(i as int), track_id)),
            decreases n - i,
        {
            let ghost prefix = self@.take(i as int);
            assert(self@.take(i + 1).drop_last() =~= prefix);
            assert(self@.take(i + 1).last() == self.events@[i as int]@);
            if self.events[i].track_id() == Some(track_id) {
                let e = self.events[i].clone();
                let time = e.occurred_at().as_millis();
                let ghost t = event_views(sorted@);
                let mut p: usize = 0;
                while p < sorted.len() && sorted[p].occurred_at().as_millis() <= time
                    invariant
                        t == event_views(sorted@),
                        p <= sorted.len(),
                        time == e@.occurred_at.0,
                        forall|j: int| 0 <= j < p ==> (#[trigger] t[j]).occurred_at.0 <= time,
                    decreases sorted.len() - p,
                {
                    p = p + 1;
                }
                proof {
                    lemma_insert_by_time_at(t, e@, p as int);
                    let f = for_track(self@.take(i + 1), track_id);
                    assert(f.drop_last() =~= for_track(prefix, track_id));
                }
                let ghost before = sorted@;
                sorted.insert(p, e);
                assert(event_views(sorted@) =~= t.insert(p as int, e@));
            }
            i = i + 1;
        }
        assert(self@.take(n as int) =~= self@);
        sorted
    }
}

} // verus!
