//! `AdjustThreshold` — previews and commits a change to the confidence cutoff.
//!
//! Re-routing replays each track's stored classification decision against the new cutoff
//! rather than re-classifying it; `ManuallyDecided` tracks are never re-evaluated. The preview
//! counts by the very rule the commit applies, so it shows what committing will do.
use vstd::prelude::*;
use crate::application::ports::repo_error::RepoError;
use crate::application::use_cases::classify_track::Classification;
use crate::application::use_cases::route_to_triage::{
    route_effects, spec_route, spec_route_outcome, spec_routing_detail, RouteError, RouteOutcome,
    RoutedTrack,
};
use crate::domain::audio::TempoAmbiguity;
use crate::domain::audit::AuditDetail;
use crate::domain::classification::ClassificationDecision;
use crate::domain::confidence::{Confidence, ConfidenceThreshold};
use crate::domain::track::{texts, Track, TrackStatus, TrackView};

verus! {

/// How a candidate threshold would divide the library.
#[derive(Debug, Clone, Copy, PartialEq, Eq, Structural)]
pub struct ThresholdSplit {
    /// Tracks that would be filed automatically.
    pub auto: usize,
    /// Tracks that would go to the manual triage queue.
    pub manual: usize,
    /// Tracks a human already decided — untouched by any threshold change.
    pub preserved: usize,
}

/// Failure previewing or applying a threshold.
#[derive(Debug, Clone, Copy, PartialEq, Eq, Structural)]
pub enum AdjustThresholdError {
    /// Reading tracks/decisions or saving settings failed.
    Repo(RepoError),
    /// Re-routing a track failed.
    Route(RouteError),
}

/// The confidence a track's latest decision gives committing to replay: none without a
/// decision, and none for a human's pick, which carries no confidence.
pub open spec fn replayed_confidence(latest: Option<ClassificationDecision>) -> Option<Confidence> {
    match latest {
        Some(d) => d.spec_confidence(),
        None => None,
    }
}

/// The one rule preview and commit count by: a human's decision is preserved; a track with no
/// confidence to replay is not counted; any other goes where routing sends it at the replayed
/// confidence.
pub open spec fn spec_threshold_outcome(
    track: TrackView,
    replayed: Option<Confidence>,
    threshold: ConfidenceThreshold,
) -> Option<RouteOutcome> {
    if track.status == TrackStatus::ManuallyDecided {
        Some(RouteOutcome::PreservedManual)
    } else {
        match replayed {
            Some(c) => Some(spec_route_outcome(track, c, threshold)),
            None => None,
        }
    }
}

/// Adds one outcome to (auto, manual, preserved) counts; `None` counts nowhere.
pub open spec fn spec_tally(counts: (nat, nat, nat), outcome: Option<RouteOutcome>) -> (nat, nat, nat) {
    match outcome {
        Some(RouteOutcome::Auto) => (counts.0 + 1, counts.1, counts.2),
        Some(RouteOutcome::Triage) => (counts.0, counts.1 + 1, counts.2),
        Some(RouteOutcome::PreservedManual) => (counts.0, counts.1, counts.2 + 1),
        None => counts,
    }
}

/// The counts of a run of outcomes, from nothing.
pub open spec fn spec_tally_all(outcomes: Seq<Option<RouteOutcome>>) -> (nat, nat, nat)
    decreases outcomes.len(),
{
    if outcomes.len() == 0 {
        (0, 0, 0)
    } else {
        spec_tally(spec_tally_all(outcomes.drop_last()), outcomes.last())
    }
}

/// How `threshold` divides `tracks`, each with the confidence it replays (as auto, manual,
/// preserved counts).
pub open spec fn spec_split(
    tracks: Seq<TrackView>,
    replayed: Seq<Option<Confidence>>,
    threshold: ConfidenceThreshold,
) -> (nat, nat, nat)
    decreases tracks.len(),
{
    if tracks.len() == 0 || replayed.len() == 0 {
        (0, 0, 0)
    } else {
        spec_tally(
            spec_split(tracks.drop_last(), replayed.drop_last(), threshold),
            spec_threshold_outcome(tracks.last(), replayed.last(), threshold),
        )
    }
}

/// The views of a list of tracks.
pub open spec fn track_views(tracks: Seq<Track>) -> Seq<TrackView> {
    tracks.map_values(|t: Track| t@)
}

/// The tracks of a list of tracks paired with their latest decisions.
pub open spec fn entry_views(entries: Seq<(Track, Option<ClassificationDecision>)>) -> Seq<TrackView> {
    entries.map_values(|e: (Track, Option<ClassificationDecision>)| e.0@)
}

/// The confidences a list of tracks paired with their latest decisions replays.
pub open spec fn entry_confidences(entries: Seq<(Track, Option<ClassificationDecision>)>) -> Seq<
    Option<Confidence>,
> {
    entries.map_values(|e: (Track, Option<ClassificationDecision>)| replayed_confidence(e.1))
}

/// No count exceeds the number of tracks, and together they count each track at most once.
pub proof fn lemma_split_bounded(
    tracks: Seq<TrackView>,
    replayed: Seq<Option<Confidence>>,
    threshold: ConfidenceThreshold,
)
    requires
        tracks.len() == replayed.len(),
    ensures
        spec_split(tracks, replayed, threshold).0 + spec_split(tracks, replayed, threshold).1
            + spec_split(tracks, replayed, threshold).2 <= tracks.len(),
    decreases tracks.len(),
{
    if tracks.len() > 0 {
        lemma_split_bounded(tracks.drop_last(), replayed.drop_last(), threshold);
    }
}

/// Raising the threshold never files more tracks automatically, never sends fewer to triage,
/// and never changes how many human decisions are preserved.
pub proof fn lemma_split_monotonic(
    tracks: Seq<TrackView>,
    replayed: Seq<Option<Confidence>>,
    lower: ConfidenceThreshold,
    higher: ConfidenceThreshold,
)
    requires
        lower@ <= higher@,
    ensures
        spec_split(tracks, replayed, higher).0 <= spec_split(tracks, replayed, lower).0,
        spec_split(tracks, replayed, higher).1 >= spec_split(tracks, replayed, lower).1,
        spec_split(tracks, replayed, higher).2 == spec_split(tracks, replayed, lower).2,
    decreases tracks.len(),
{
    if tracks.len() > 0 && replayed.len() > 0 {
        lemma_split_monotonic(tracks.drop_last(), replayed.drop_last(), lower, higher);
    }
}

/// The preview shows what committing does: wherever each track's commit outcome is the one
/// the rule gives it (as `reroute` ensures), the counts the commit tallies are the split the
/// preview predicts.
pub proof fn lemma_preview_predicts_apply(
    tracks: Seq<TrackView>,
    replayed: Seq<Option<Confidence>>,
    outcomes: Seq<Option<RouteOutcome>>,
    threshold: ConfidenceThreshold,
)
    requires
        tracks.len() == replayed.len(),
        outcomes.len() == tracks.len(),
        forall|i: int|
            0 <= i < tracks.len() ==> #[trigger] outcomes[i] == spec_threshold_outcome(
                tracks[i],
                replayed[i],
                threshold,
            ),
    ensures
        spec_split(tracks, replayed, threshold) == spec_tally_all(outcomes),
    decreases tracks.len(),
{
    if tracks.len() > 0 {
        assert forall|i: int| 0 <= i < tracks.drop_last().len() implies #[trigger] outcomes.drop_last()[i]
            == spec_threshold_outcome(tracks.drop_last()[i], replayed.drop_last()[i], threshold) by {
            assert(outcomes[i] == spec_threshold_outcome(tracks[i], replayed[i], threshold));
        }
        lemma_preview_predicts_apply(tracks.drop_last(), replayed.drop_last(), outcomes.drop_last(), threshold);
        assert(outcomes[outcomes.len() - 1] == spec_threshold_outcome(
            tracks[tracks.len() - 1],
            replayed[replayed.len() - 1],
            threshold,
        ));
    }
}

/// The preview and the commit file a track no human decided, with a certain tempo and a
/// replayed confidence, automatically exactly when that confidence is at or above the
/// threshold, and count it for triage exactly when it is below.
pub proof fn lemma_rule_threshold_is_a_floor(
    track: TrackView,
    confidence: Confidence,
    threshold: ConfidenceThreshold,
)
    requires
        track.status != TrackStatus::ManuallyDecided,
        track.tempo_ambiguity != Some(TempoAmbiguity::HalfOrDoubleTime),
    ensures
        spec_threshold_outcome(track, Some(confidence), threshold) == Some(RouteOutcome::Auto)
            <==> confidence@ >= threshold@,
        spec_threshold_outcome(track, Some(confidence), threshold) == Some(RouteOutcome::Triage)
            <==> confidence@ < threshold@,
        spec_split(seq![track], seq![Some(confidence)], threshold) == (if confidence@ >= threshold@ {
            (1nat, 0nat, 0nat)
        } else {
            (0nat, 1nat, 0nat)
        }),
{
    let tracks = seq![track];
    let replayed = seq![Some(confidence)];
    assert(tracks.drop_last() =~= Seq::<TrackView>::empty());
    assert(replayed.drop_last() =~= Seq::<Option<Confidence>>::empty());
    assert(spec_split(tracks.drop_last(), replayed.drop_last(), threshold) == (0nat, 0nat, 0nat));
    assert(tracks.last() == track);
    assert(replayed.last() == Some(confidence));
}

/// Routing a track that no human decided goes where the rule says.
pub proof fn lemma_route_follows_the_rule(
    track: TrackView,
    classification: Classification,
    threshold: ConfidenceThreshold,
)
    requires
        track.status != TrackStatus::ManuallyDecided,
    ensures
        spec_threshold_outcome(track, Some(classification.confidence), threshold) == Some(
            spec_route(track, classification, threshold).1,
        ),
{
}

/// Counts how `threshold` would divide `entries` (each track with its latest decision), by the
/// rule the commit applies, changing nothing.
pub fn split_for(entries: &[(Track, Option<ClassificationDecision>)], threshold: ConfidenceThreshold) -> (s:
    ThresholdSplit)
    ensures
        (s.auto as nat, s.manual as nat, s.preserved as nat) == spec_split(
            entry_views(entries@),
            entry_confidences(entries@),
            threshold,
        ),
{
    let mut split = ThresholdSplit { auto: 0, manual: 0, preserved: 0 };
    let mut i: usize = 0;
    while i < entries.len()
        invariant
            i <= entries.len(),
            (split.auto as nat, split.manual as nat, split.preserved as nat) == spec_split(
                entry_views(entries@.take(i as int)),
                entry_confidences(entries@.take(i as int)),
                threshold,
            ),
        decreases entries.len() - i,
    {
        let ghost before = entries@.take(i as int);
        proof {
            lemma_split_bounded(entry_views(before), entry_confidences(before), threshold);
            assert(entry_views(entries@.take(i + 1)).drop_last() =~= entry_views(before));
            assert(entry_confidences(entries@.take(i + 1)).drop_last() =~= entry_confidences(before));
            assert(entry_views(entries@.take(i + 1)).last() == entries@[i as int].0@);
            assert(entry_confidences(entries@.take(i + 1)).last() == replayed_confidence(
                entries@[i as int].1,
            ));
        }
        let track = &entries[i].0;
        let replayed = match &entries[i].1 {
            Some(d) => d.confidence(),
            None => None,
        };
        if track.is_manually_decided() {
            split.preserved = split.preserved + 1;
        } else {
            match replayed {
                None => {},
                Some(confidence) => {
                    if track.has_uncertain_tempo() || !confidence.meets(threshold) {
                        split.manual = split.manual + 1;
                    } else {
                        split.auto = split.auto + 1;
                    }
                },
            }
        }
        i = i + 1;
    }
    assert(entries@.take(entries.len() as int) =~= entries@);
    split
}

/// What committing `threshold` does to one track, given its latest decision: the outcome the
/// rule gives it, and, when it is routed, the routed track to store and the routing to audit
/// (its latest decision's crate when filed, none when sent to triage). A human's decision and a
/// track with nothing to replay are left as they are.
pub open spec fn spec_rerouted(
    track: TrackView,
    latest: Option<ClassificationDecision>,
    threshold: ConfidenceThreshold,
    outcome: Option<RouteOutcome>,
    effects: Option<(RoutedTrack, AuditDetail)>,
) -> bool {
    &&& outcome == spec_threshold_outcome(track, replayed_confidence(latest), threshold)
    &&& outcome == Some(RouteOutcome::Auto) ==> (effects matches Some(e) && {
        &&& e.0.outcome == RouteOutcome::Auto
        &&& latest matches Some(d) && e.0.track@ == (TrackView {
            crate_id: Some(d.spec_crate_id()),
            confidence: replayed_confidence(latest),
            status: TrackStatus::AutoClassified,
            ..track
        })
        &&& e.1@ == spec_routing_detail(
            replayed_confidence(latest)->0@,
            threshold@,
            RouteOutcome::Auto,
            track.tempo_ambiguity == Some(TempoAmbiguity::HalfOrDoubleTime),
        )
    })
    &&& outcome == Some(RouteOutcome::Triage) ==> (effects matches Some(e) && {
        &&& e.0.outcome == RouteOutcome::Triage
        &&& e.0.track@ == (TrackView {
            crate_id: None,
            confidence: replayed_confidence(latest),
            status: TrackStatus::InTriage,
            ..track
        })
        &&& e.1@ == spec_routing_detail(
            replayed_confidence(latest)->0@,
            threshold@,
            RouteOutcome::Triage,
            track.tempo_ambiguity == Some(TempoAmbiguity::HalfOrDoubleTime),
        )
    })
    &&& outcome != Some(RouteOutcome::Auto) && outcome != Some(RouteOutcome::Triage) ==> effects is None
}

/// Commits `threshold` for one track, given its latest decision (see `spec_rerouted`).
pub fn reroute(
    track: &Track,
    latest: &Option<ClassificationDecision>,
    threshold: ConfidenceThreshold,
) -> (r: (Option<RouteOutcome>, Option<(RoutedTrack, AuditDetail)>))
    ensures
        spec_rerouted(track@, *latest, threshold, r.0, r.1),
{
    if track.is_manually_decided() {
        return (Some(RouteOutcome::PreservedManual), None);
    }
    let replay = match latest {
        Some(d) => replay_classification(track, Some(d)),
        None => replay_classification(track, None),
    };
    match replay {
        None => (None, None),
        Some(classification) => {
            proof {
                lemma_route_follows_the_rule(track@, classification, threshold);
            }
            let (routed, detail) = route_effects(track, &classification, threshold);
            let outcome = routed.outcome;
            match detail {
                Some(d) => (Some(outcome), Some((routed, d))),
                None => (Some(outcome), None),
            }
        },
    }
}

/// The classification to replay for a track: its latest decision's crate and confidence, or
/// `None` when it has no decision or the decision carries no confidence (a human's pick).
pub fn replay_classification(track: &Track, latest: Option<&ClassificationDecision>) -> (r: Option<
    Classification,
>)
    ensures
        match latest {
            None => r is None,
            Some(d) => match d.spec_confidence() {
                None => r is None,
                Some(c) => match r {
                    Some(cl) => {
                        &&& cl.crate_id == d.spec_crate_id()
                        &&& cl.confidence == c
                        &&& cl.reason == d.spec_reason()
                        &&& texts(cl.vibe_tags@) == track@.vibe_tags
                        &&& cl.alternatives@ == d.spec_alternatives()
                    },
                    None => false,
                },
            },
        },
{
    let decision = match latest {
        Some(d) => d,
        None => return None,
    };
    let confidence = match decision.confidence() {
        Some(c) => c,
        None => return None,
    };
    let tags = track.vibe_tags();
    let mut vibe_tags: Vec<String> = Vec::new();
    let mut i: usize = 0;
    while i < tags.len()
        invariant
            i <= tags.len(),
            vibe_tags@ == tags@.take(i as int),
        decreases tags.len() - i,
    {
        vibe_tags.push(tags[i].clone());
        i = i + 1;
        assert(vibe_tags@ =~= tags@.take(i as int));
    }
    assert(tags@.take(tags.len() as int) =~= tags@);
    let alts = decision.alternatives();
    let mut alternatives = Vec::new();
    let mut j: usize = 0;
    while j < alts.len()
        invariant
            j <= alts.len(),
            alternatives@ == alts@.take(j as int),
        decreases alts.len() - j,
    {
        alternatives.push(alts[j].clone());
        j = j + 1;
        assert(alternatives@ =~= alts@.take(j as int));
    }
    assert(alts@.take(alts.len() as int) =~= alts@);
    Some(
        Classification {
            crate_id: decision.crate_id(),
            confidence,
            reason: decision.reason(),
            vibe_tags,
            alternatives,
        },
    )
}

/// Adds one re-routing outcome to the running split; a track with nothing to replay counts on
/// no side.
pub fn tally(split: ThresholdSplit, outcome: Option<RouteOutcome>) -> (s: ThresholdSplit)
    requires
        split.auto < usize::MAX,
        split.manual < usize::MAX,
        split.preserved < usize::MAX,
    ensures
        (s.auto as nat, s.manual as nat, s.preserved as nat) == spec_tally(
            (split.auto as nat, split.manual as nat, split.preserved as nat),
            outcome,
        ),
        s == (match outcome {
            Some(RouteOutcome::Auto) => ThresholdSplit { auto: (split.auto + 1) as usize, ..split },
            Some(RouteOutcome::Triage) => ThresholdSplit {
                manual: (split.manual + 1) as usize,
                ..split
            },
            Some(RouteOutcome::PreservedManual) => ThresholdSplit {
                preserved: (split.preserved + 1) as usize,
                ..split
            },
            None => split,
        }),
{
    match outcome {
        Some(RouteOutcome::Auto) => ThresholdSplit { auto: split.auto + 1, ..split },
        Some(RouteOutcome::Triage) => ThresholdSplit { manual: split.manual + 1, ..split },
        Some(RouteOutcome::PreservedManual) => ThresholdSplit {
            preserved: split.preserved + 1,
            ..split
        },
        None => split,
    }
}

/// Commits `threshold` over the whole library (each track with its latest decision): every
/// track's outcome and effects as `reroute` gives them, and the split they add up to, which is
/// exactly the split `split_for` previews for the same library.
pub fn reroute_all(
    entries: &[(Track, Option<ClassificationDecision>)],
    threshold: ConfidenceThreshold,
) -> (r: (ThresholdSplit, Vec<(Option<RouteOutcome>, Option<(RoutedTrack, AuditDetail)>)>))
    ensures
        (r.0.auto as nat, r.0.manual as nat, r.0.preserved as nat) == spec_split(
            entry_views(entries@),
            entry_confidences(entries@),
            threshold,
        ),
        r.1@.len() == entries@.len(),
        forall|i: int|
            0 <= i < entries@.len() ==> spec_rerouted(
                (#[trigger] entries@[i]).0@,
                entries@[i].1,
                threshold,
                r.1@[i].0,
                r.1@[i].1,
            ),
{
    let mut split = ThresholdSplit { auto: 0, manual: 0, preserved: 0 };
    let mut effects: Vec<(Option<RouteOutcome>, Option<(RoutedTrack, AuditDetail)>)> = Vec::new();
    let mut i: usize = 0;
    while i < entries.len()
        invariant
            i <= entries.len(),
            effects@.len() == i,
            (split.auto as nat, split.manual as nat, split.preserved as nat) == spec_split(
                entry_views(entries@.take(i as int)),
                entry_confidences(entries@.take(i as int)),
                threshold,
            ),
            forall|k: int|
                0 <= k < i ==> spec_rerouted(
                    (#[trigger] entries@[k]).0@,
                    entries@[k].1,
                    threshold,
                    effects@[k].0,
                    effects@[k].1,
                ),
        decreases entries.len() - i,
    {
        let ghost before = entries@.take(i as int);
        proof {
            lemma_split_bounded(entry_views(before), entry_confidences(before), threshold);
            assert(entry_views(entries@.take(i + 1)).drop_last() =~= entry_views(before));
            assert(entry_confidences(entries@.take(i + 1)).drop_last() =~= entry_confidences(before));
            assert(entry_views(entries@.take(i + 1)).last() == entries@[i as int].0@);
            assert(entry_confidences(entries@.take(i + 1)).last() == replayed_confidence(
                entries@[i as int].1,
            ));
        }
        let (outcome, routed) = reroute(&entries[i].0, &entries[i].1, threshold);
        split = tally(split, outcome);
        effects.push((outcome, routed));
        i = i + 1;
    }
    assert(entries@.take(entries.len() as int) =~= entries@);
    (split, effects)
}

} // verus!
