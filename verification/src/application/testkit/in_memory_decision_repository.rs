//! In-memory decision store: append-only history per track; the most recent decision is
//! authoritative.
use vstd::prelude::*;
use crate::domain::classification::ClassificationDecision;
use crate::domain::track::TrackId;

verus! {

/// The position of the authoritative decision for `track`: the newest by `decided_at`, with
/// ties going to the one recorded last.
pub open spec fn latest_index(s: Seq<ClassificationDecision>, track: TrackId) -> Option<int>
    decreases s.len(),
{
    if s.len() == 0 {
        None
    } else {
        let best = latest_index(s.drop_last(), track);
        let last = s.last();
        if last.spec_track_id() == track && (match best {
            None => true,
            Some(i) => last.spec_decided_at().0 >= s[i].spec_decided_at().0,
        }) {
            Some(s.len() - 1)
        } else {
            best
        }
    }
}

/// The authoritative decision is the track's newest, and no decision recorded after it is as
/// new: ties go to the last one recorded. There is none only when the track has no decision.
pub proof fn lemma_latest_index(s: Seq<ClassificationDecision>, track: TrackId)
    ensures
        match latest_index(s, track) {
            Some(i) => {
                &&& 0 <= i < s.len()
                &&& s[i].spec_track_id() == track
                &&& forall|k: int|
                    0 <= k < s.len() && (#[trigger] s[k]).spec_track_id() == track
                        ==> s[k].spec_decided_at().0 <= s[i].spec_decided_at().0 && (k > i
                        ==> s[k].spec_decided_at().0 < s[i].spec_decided_at().0)
            },
            None => forall|k: int| 0 <= k < s.len() ==> (#[trigger] s[k]).spec_track_id() != track,
        },
    decreases s.len(),
{
    if s.len() > 0 {
        let p = s.drop_last();
        lemma_latest_index(p, track);
        assert forall|k: int| 0 <= k < p.len() implies #[trigger] p[k] == s[k] by {}
        let last = s.last();
        let n = s.len() - 1;
        assert(s[n] == last);
        match latest_index(p, track) {
            Some(b) => {
                assert(p[b] == s[b]);
                if last.spec_track_id() == track && last.spec_decided_at().0 >= s[b].spec_decided_at().0 {
                    assert forall|k: int|
                        0 <= k < s.len() && (#[trigger] s[k]).spec_track_id() == track
                            implies s[k].spec_decided_at().0 <= s[n].spec_decided_at().0 by {
                        if k < n {
                            assert(p[k] == s[k]);
                        }
                    }
                } else {
                    assert forall|k: int|
                        0 <= k < s.len() && (#[trigger] s[k]).spec_track_id() == track
                            implies s[k].spec_decided_at().0 <= s[b].spec_decided_at().0 && (k > b
                            ==> s[k].spec_decided_at().0 < s[b].spec_decided_at().0) by {
                        if k < n {
                            assert(p[k] == s[k]);
                        }
                    }
                }
            },
            None => {
                if last.spec_track_id() != track {
                    assert forall|k: int| 0 <= k < s.len() implies (#[trigger] s[k]).spec_track_id() != track by {
                        if k < n {
                            assert(p[k] == s[k]);
                        }
                    }
                } else {
                    assert forall|k: int|
                        0 <= k < s.len() && (#[trigger] s[k]).spec_track_id() == track
                            implies s[k].spec_decided_at().0 <= s[n].spec_decided_at().0 by {
                        if k < n {
                            assert(p[k] == s[k]);
                        }
                    }
                }
            },
        }
    }
}

/// Reading back after recording: a decision at least as new as every earlier decision of its
/// track becomes the authoritative one, even when it ties on time.
pub proof fn lemma_record_then_latest(s: Seq<ClassificationDecision>, d: ClassificationDecision)
    requires
        forall|k: int|
            0 <= k < s.len() && (#[trigger] s[k]).spec_track_id() == d.spec_track_id()
                ==> s[k].spec_decided_at().0 <= d.spec_decided_at().0,
    ensures
        latest_index(s.push(d), d.spec_track_id()) == Some(s.len() as int),
{
    let r = s.push(d);
    assert(r.drop_last() =~= s);
    lemma_latest_index(s, d.spec_track_id());
}

/// A `DecisionRepository` backed by an in-memory list, appended in call order.
#[derive(Debug)]
pub struct InMemoryDecisionRepository {
    decisions: Vec<ClassificationDecision>,
}

impl View for InMemoryDecisionRepository {
    type V = Seq<ClassificationDecision>;

    closed spec fn view(&self) -> Seq<ClassificationDecision> {
        self.decisions@
    }
}

impl InMemoryDecisionRepository {
    /// Builds an empty repository.
    pub fn new() -> (r: Self)
        ensures
            r@ == Seq::<ClassificationDecision>::empty(),
    {
        InMemoryDecisionRepository { decisions: Vec::new() }
    }

    /// Appends a decision to the history.
    pub fn record(&mut self, decision: ClassificationDecision)
        ensures
            final(self)@ == old(self)@.push(decision),
    {
        self.decisions.push(decision);
    }

    /// Returns the authoritative decision for `track_id`, or `None` when the track was never
    /// classified.
    pub fn find_latest_for_track(&self, track_id: TrackId) -> (r: Option<ClassificationDecision>)
        ensures
            match latest_index(self@, track_id) {
                Some(i) => r is Some && r->0.fields() == self@[i].fields(),
                None => r is None,
            },
    {
        let n = self.decisions.len();
        let mut best: Option<usize> = None;
        let mut i: usize = 0;
        while i < n
            invariant
                n == self@.len(),
                i <= n,
                match best {
                    Some(b) => b < i && latest_index(self@.take(i as int), track_id) == Some(b as int),
                    None => latest_index(self@.take(i as int), track_id) is None,
                },
            decreases n - i,
        {
            let ghost prefix = self@.take(i as int);
            assert(self@.take(i + 1).drop_last() =~= prefix);
            assert(self@.take(i + 1).last() == self@[i as int]);
            let d = &self.decisions[i];
            if d.track_id() == track_id {
                match best {
                    None => {
                        best = Some(i);
                    },
                    Some(b) => {
                        assert(prefix[b as int] == self@[b as int]);
                        assert(self@.take(i + 1)[b as int] == self@[b as int]);
                        if d.decided_at().as_millis() >= self.decisions[b].decided_at().as_millis() {
                            best = Some(i);
                        }
                    },
                }
            }
            i = i + 1;
        }
        assert(self@.take(n as int) =~= self@);
        match best {
            Some(b) => Some(self.decisions[b].clone()),
            None => None,
        }
    }

    /// How many decisions have been recorded.
    pub fn len(&self) -> (n: usize)
        ensures
            n == self@.len(),
    {
        self.decisions.len()
    }

    /// Whether no decision has been recorded yet.
    pub fn is_empty(&self) -> (b: bool)
        ensures
            b == (self@.len() == 0),
    {
        self.decisions.len() == 0
    }
}

} // verus!
