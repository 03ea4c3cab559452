//! `ClassifyTrack` — picks a genre, confidence and reason for one track and the crate it files
//! into.
//!
//! Policy: prefer the source tag; ask the AI classifier only when the genre is missing; flag
//! likely non-music uploads by duration into a review crate. A classifier failure degrades to a
//! low-confidence result. A measured energy adds the crate's energy sub-role and a small
//! confidence uplift, but only where there is a genre finding to refine.
use vstd::prelude::*;
use crate::application::ports::crate_repository::CrateSpec;
use crate::application::ports::genre_vibe_classifier::{
    ClassificationInput, ClassifyError, GenreCandidate, GenreVibeSuggestion,
};
use crate::application::ports::audit_log::AuditError;
use crate::application::ports::repo_error::RepoError;
use crate::domain::audit::{detail_insert, AuditDetail};
use crate::domain::classification::{
    ClassificationDecision, ClassificationReason, DecisionId, DecisionSource, GenreSuggestion,
    NewDecision,
};
use crate::domain::confidence::Confidence;
use crate::domain::crate_::{role_for_level, CrateId, CrateOrigin, EnergyRole};
use crate::domain::timestamp::Timestamp;
use crate::domain::track::{texts, Track, TrackView};
use crate::text::{clone_strings, fixed3, fixed3_text, join_commas, joined};

verus! {

/// How many runner-up genres a triage card offers as alternative chips.
pub const MAX_ALTERNATIVES: usize = 3;
/// Confidence (thousandths) when the genre comes straight from the source tag.
pub const SOURCE_TAG_CONFIDENCE: u16 = 900;
/// Confidence (thousandths) when a track is flagged as likely non-music.
pub const NON_MUSIC_CONFIDENCE: u16 = 950;
/// Confidence (thousandths) when no genre can be determined.
pub const FALLBACK_CONFIDENCE: u16 = 100;
/// Confidence (thousandths) added once audio analysis has measured the track's energy role.
/// Deliberately small: energy says nothing about the genre itself.
pub const AUDIO_FEATURE_UPLIFT: u16 = 50;
/// Shortest plausible duration for a mixable track; below is likely a skit/intro.
pub const MIN_MUSIC_DURATION_MS: u64 = 60_000;
/// Longest plausible duration for a single mixable track; above is likely a mix/podcast.
pub const MAX_MUSIC_DURATION_MS: u64 = 1_800_000;

/// Genre bucket for uploads flagged as likely non-music.
pub open spec fn review_genre() -> Seq<char> {
    "Review"@
}

/// Genre bucket when no genre can be determined.
pub open spec fn unknown_genre() -> Seq<char> {
    "Unknown"@
}

/// The computed classification for a track (routing it is `RouteToTriage`'s job).
#[derive(Debug, PartialEq, Eq)]
pub struct Classification {
    /// The resolved crate.
    pub crate_id: CrateId,
    /// The confidence in that crate.
    pub confidence: Confidence,
    /// The evidence behind the choice.
    pub reason: ClassificationReason,
    /// Any AI-inferred vibe tags.
    pub vibe_tags: Vec<String>,
    /// Runner-up genres, for the triage card's alternative chips.
    pub alternatives: Vec<GenreSuggestion>,
}

/// Failure classifying a track.
#[derive(Debug, Clone, Copy, PartialEq, Eq, Structural)]
pub enum ClassifyTrackError {
    /// Resolving/creating the crate or persisting the decision failed.
    Repo(RepoError),
    /// Recording the decision failed.
    Audit(AuditError),
}

/// The genre decision, before the crate is resolved.
#[derive(Debug, PartialEq, Eq)]
pub struct GenreDecision {
    /// The chosen genre.
    pub genre: String,
    /// The confidence in it.
    pub confidence: Confidence,
    /// How the genre was found.
    pub reason: ClassificationReason,
    /// Any AI-inferred vibe tags.
    pub vibe_tags: Vec<String>,
    /// Runner-up genres.
    pub alternatives: Vec<GenreSuggestion>,
}

/// Whether a duration flags a track as likely non-music: outside the plausible single-track
/// window `[60 s, 30 min]`.
pub fn is_likely_non_music(duration_ms: u64) -> (b: bool)
    ensures
        b == !(MIN_MUSIC_DURATION_MS <= duration_ms <= MAX_MUSIC_DURATION_MS),
{
    duration_ms < MIN_MUSIC_DURATION_MS || duration_ms > MAX_MUSIC_DURATION_MS
}

/// Whether a genre finding rests on real evidence about this track's genre: the source tag or
/// the AI. The fallback bucket and the non-music flag are not genre findings.
pub open spec fn spec_has_genre_evidence(reason: ClassificationReason) -> bool {
    reason == ClassificationReason::GenreFromSourceTag || reason == ClassificationReason::GenreFromAi
}

/// Whether a genre decision rests on real evidence about this track's genre.
pub fn has_genre_evidence(reason: ClassificationReason) -> (b: bool)
    ensures
        b == spec_has_genre_evidence(reason),
{
    match reason {
        ClassificationReason::GenreFromSourceTag => true,
        ClassificationReason::GenreFromAi => true,
        _ => false,
    }
}

/// The energy sub-role a track earns: its measured energy's band, and only with genre
/// evidence to refine.
pub open spec fn spec_energy_role(track: TrackView, reason: ClassificationReason) -> Option<
    EnergyRole,
> {
    if !spec_has_genre_evidence(reason) {
        None
    } else {
        match track.energy {
            Some(e) => Some(role_for_level(e@)),
            None => None,
        }
    }
}

/// With a genre finding (source tag or AI) and a measured energy, a track is filed under its
/// energy's band: Closing for 0–19, Warmup for 20–44, Groove for 45–69, Peak from 70 up.
/// Without a genre finding, or without a measurement, it earns no role.
pub proof fn lemma_energy_role_is_the_band(track: TrackView, reason: ClassificationReason)
    ensures
        (reason != ClassificationReason::GenreFromSourceTag && reason
            != ClassificationReason::GenreFromAi) ==> spec_energy_role(track, reason) is None,
        track.energy is None ==> spec_energy_role(track, reason) is None,
        (reason == ClassificationReason::GenreFromSourceTag || reason
            == ClassificationReason::GenreFromAi) ==> match track.energy {
            Some(e) => {
                &&& e@ <= 19 ==> spec_energy_role(track, reason) == Some(EnergyRole::Closing)
                &&& 20 <= e@ <= 44 ==> spec_energy_role(track, reason) == Some(EnergyRole::Warmup)
                &&& 45 <= e@ <= 69 ==> spec_energy_role(track, reason) == Some(EnergyRole::Groove)
                &&& 70 <= e@ ==> spec_energy_role(track, reason) == Some(EnergyRole::Peak)
            },
            None => true,
        },
{
}

/// The energy sub-role for `track`, or `None` when it was never measured or there is no genre
/// finding worth sub-dividing.
pub fn energy_role_for(track: &Track, reason: ClassificationReason) -> (r: Option<EnergyRole>)
    ensures
        r == spec_energy_role(track@, reason),
{
    if !has_genre_evidence(reason) {
        return None;
    }
    match track.energy() {
        Some(energy) => Some(EnergyRole::for_energy(energy)),
        None => None,
    }
}

/// The confidence after the audio uplift: unchanged without a role, otherwise raised by
/// `AUDIO_FEATURE_UPLIFT` and saturating at certainty.
pub open spec fn spec_uplifted(confidence: int, role: Option<EnergyRole>) -> int {
    match role {
        None => confidence,
        Some(_) => if confidence + 50 > 1000 { 1000 } else { confidence + 50 },
    }
}

/// Adds the audio uplift once the energy role is measured, saturating at certainty.
pub fn uplifted_confidence(confidence: Confidence, role: Option<EnergyRole>) -> (r: Confidence)
    ensures
        r@ == spec_uplifted(confidence@, role),
        r@ <= 1000,
{
    let base = confidence.value();
    match role {
        None => confidence,
        Some(_) => {
            let raised = base + AUDIO_FEATURE_UPLIFT;
            let lifted = if raised > 1000 { 1000 } else { raised };
            match Confidence::new(lifted) {
                Ok(c) => c,
                Err(_) => confidence,
            }
        },
    }
}

/// The reason to record: audio analysis, once it refined the filing; otherwise the genre's.
pub open spec fn spec_reason_for(
    genre_reason: ClassificationReason,
    role: Option<EnergyRole>,
) -> ClassificationReason {
    match role {
        Some(_) => ClassificationReason::AudioFeatures,
        None => genre_reason,
    }
}

/// The reason to record for a filing.
pub fn reason_for(genre_reason: ClassificationReason, role: Option<EnergyRole>) -> (r:
    ClassificationReason)
    ensures
        r == spec_reason_for(genre_reason, role),
{
    match role {
        Some(_) => ClassificationReason::AudioFeatures,
        None => genre_reason,
    }
}

/// `c` placed into a confidence-descending list after every entry at least as confident
/// (so that equally confident candidates keep the model's order).
pub open spec fn insert_ranked(sorted: Seq<GenreCandidate>, c: GenreCandidate) -> Seq<
    GenreCandidate,
>
    decreases sorted.len(),
{
    if sorted.len() == 0 {
        seq![c]
    } else if sorted[0].confidence@ >= c.confidence@ {
        seq![sorted[0]] + insert_ranked(sorted.drop_first(), c)
    } else {
        seq![c] + sorted
    }
}

/// The candidates in descending order of confidence; ties keep their original order.
pub open spec fn ranked(s: Seq<GenreCandidate>) -> Seq<GenreCandidate>
    decreases s.len(),
{
    if s.len() == 0 {
        Seq::empty()
    } else {
        insert_ranked(ranked(s.drop_last()), s.last())
    }
}

/// A candidate as a triage-card suggestion.
pub open spec fn as_suggestion(c: GenreCandidate) -> GenreSuggestion {
    GenreSuggestion { genre: c.genre, confidence: c.confidence }
}

/// Whether a list is in descending order of confidence.
pub open spec fn descending(s: Seq<GenreCandidate>) -> bool {
    forall|i: int, j: int| 0 <= i < j < s.len() ==> #[trigger] s[i].confidence@ >= #[trigger] s[j].confidence@
}

/// Where `c` goes in `sorted`: after every entry at least as confident.
proof fn lemma_insert_ranked_at(sorted: Seq<GenreCandidate>, c: GenreCandidate, p: int)
    requires
        0 <= p <= sorted.len(),
        forall|j: int| 0 <= j < p ==> #[trigger] sorted[j].confidence@ >= c.confidence@,
        p < sorted.len() ==> sorted[p].confidence@ < c.confidence@,
    ensures
        insert_ranked(sorted, c) == sorted.insert(p, c),
    decreases p,
{
    if p == 0 {
        if sorted.len() == 0 {
            assert(sorted.insert(0, c) =~= seq![c]);
        } else {
            assert(sorted.insert(0, c) =~= seq![c] + sorted);
        }
    } else {
        let t = sorted.drop_first();
        assert(sorted[0].confidence@ >= c.confidence@);
        assert forall|j: int| 0 <= j < p - 1 implies #[trigger] t[j].confidence@
            >= c.confidence@ by {
            assert(t[j] == sorted[j + 1]);
        }
        lemma_insert_ranked_at(t, c, p - 1);
        assert(seq![sorted[0]] + t.insert(p - 1, c) =~= sorted.insert(p, c));
    }
}

/// Ranking puts every candidate in, keeps the length, and orders by descending confidence.
pub proof fn lemma_ranked(s: Seq<GenreCandidate>)
    ensures
        ranked(s).len() == s.len(),
        descending(ranked(s)),
        forall|k: int| 0 <= k < s.len() ==> ranked(s).contains(#[trigger] s[k]),
        forall|k: int| 0 <= k < ranked(s).len() ==> s.contains(#[trigger] ranked(s)[k]),
    decreases s.len(),
{
    if s.len() > 0 {
        let t = ranked(s.drop_last());
        let c = s.last();
        lemma_ranked(s.drop_last());
        let p = first_below(t, c.confidence@);
        lemma_first_below(t, c.confidence@);
        lemma_insert_ranked_at(t, c, p);
        let r = t.insert(p, c);
        assert(ranked(s) == r);
        assert forall|i: int, j: int| 0 <= i < j < r.len() implies #[trigger] r[i].confidence@
            >= #[trigger] r[j].confidence@ by {
            if j < p {
                assert(r[i] == t[i] && r[j] == t[j]);
            } else if j == p {
                assert(r[i] == t[i]);
            } else if i == p {
                assert(r[j] == t[j - 1]);
            } else if i < p {
                assert(r[i] == t[i] && r[j] == t[j - 1]);
            } else {
                assert(r[i] == t[i - 1] && r[j] == t[j - 1]);
            }
        }
        assert forall|k: int| 0 <= k < s.len() implies r.contains(#[trigger] s[k]) by {
            if k == s.len() - 1 {
                assert(r[p] == c);
            } else {
                assert(s.drop_last()[k] == s[k]);
                let w = choose|w: int| 0 <= w < t.len() && t[w] == s[k];
                if w < p {
                    assert(r[w] == s[k]);
                } else {
                    assert(r[w + 1] == s[k]);
                }
            }
        }
        assert forall|k: int| 0 <= k < r.len() implies s.contains(#[trigger] r[k]) by {
            if k == p {
                assert(s[s.len() - 1] == r[k]);
            } else {
                let tk = if k < p { k } else { k - 1 };
                assert(r[k] == t[tk]);
                assert(s.drop_last().contains(t[tk]));
                let w = choose|w: int| 0 <= w < s.drop_last().len() && s.drop_last()[w] == t[tk];
                assert(s[w] == r[k]);
            }
        }
    }
}

/// The first position whose confidence is below `level`, in a descending list.
spec fn first_below(t: Seq<GenreCandidate>, level: int) -> int
    decreases t.len(),
{
    if t.len() == 0 {
        0
    } else if t[0].confidence@ < level {
        0
    } else {
        1 + first_below(t.drop_first(), level)
    }
}

/// `first_below` is a slot: everything before it is at least `level`, and the entry there is
/// below it.
proof fn lemma_first_below(t: Seq<GenreCandidate>, level: int)
    ensures
        0 <= first_below(t, level) <= t.len(),
        forall|j: int| 0 <= j < first_below(t, level) ==> #[trigger] t[j].confidence@ >= level,
        first_below(t, level) < t.len() ==> t[first_below(t, level)].confidence@ < level,
    decreases t.len(),
{
    if t.len() > 0 && t[0].confidence@ >= level {
        lemma_first_below(t.drop_first(), level);
        assert forall|j: int| 0 <= j < first_below(t, level) implies #[trigger] t[j].confidence@
            >= level by {
            if j > 0 {
                assert(t[j] == t.drop_first()[j - 1]);
            }
        }
    }
}

/// The runners-up of a ranking, as suggestions: up to `MAX_ALTERNATIVES` entries after the
/// first.
pub open spec fn runners_up(r: Seq<GenreCandidate>) -> Seq<GenreSuggestion> {
    let end = if r.len() < 4 { r.len() as int } else { 4 };
    r.subrange(1, end).map_values(|c: GenreCandidate| as_suggestion(c))
}

/// Splits the candidates into the most confident one and up to `MAX_ALTERNATIVES` runners-up
/// in descending confidence, or `None` when the classifier offered none.
///
/// The model's own ordering is not trusted: the list is ranked here, stably, so that ties keep
/// the order the model gave.
pub fn split_off_most_confident(candidates: Vec<GenreCandidate>) -> (r: Option<
    (GenreCandidate, Vec<GenreSuggestion>),
>)
    ensures
        match r {
            None => candidates@.len() == 0,
            Some((chosen, alternatives)) => {
                &&& candidates@.len() > 0
                &&& chosen == ranked(candidates@)[0]
                &&& alternatives@ == runners_up(ranked(candidates@))
            },
        },
{
    let n = candidates.len();
    let mut sorted: Vec<GenreCandidate> = Vec::new();
    let mut i: usize = 0;
    while i < n
        invariant
            n == candidates@.len(),
            i <= n,
            sorted@ == ranked(candidates@.take(i as int)),
        decreases n - i,
    {
        let c = candidates[i].clone();
        let level = c.confidence.value();
        let ghost t = sorted@;
        proof {
            lemma_ranked(candidates@.take(i as int));
        }
        let mut p: usize = 0;
        while p < sorted.len() && sorted[p].confidence.value() >= level
            invariant
                sorted@ == t,
                p <= t.len(),
                level == c.confidence@,
                forall|j: int| 0 <= j < p ==> #[trigger] t[j].confidence@ >= c.confidence@,
            decreases t.len() - p,
        {
            p = p + 1;
        }
        proof {
            lemma_insert_ranked_at(t, c, p as int);
            assert(candidates@.take(i + 1).drop_last() =~= candidates@.take(i as int));
            assert(candidates@.take(i + 1).last() == c);
        }
        sorted.insert(p, c);
        i = i + 1;
    }
    assert(candidates@.take(n as int) =~= candidates@);
    if n == 0 {
        return None;
    }
    proof {
        lemma_ranked(candidates@);
    }
    let ghost full = sorted@;
    let chosen = sorted.remove(0);
    let mut alternatives: Vec<GenreSuggestion> = Vec::new();
    let end = if sorted.len() < MAX_ALTERNATIVES { sorted.len() } else { MAX_ALTERNATIVES };
    let mut j: usize = 0;
    while j < end
        invariant
            sorted@ == full.drop_first(),
            end <= sorted.len(),
            end == (if full.len() < 4 { full.len() - 1 } else { 3 }),
            j <= end,
            alternatives@ == full.subrange(1, j + 1).map_values(|c: GenreCandidate| as_suggestion(c)),
        decreases end - j,
    {
        let genre = sorted[j].genre.clone();
        alternatives.push(GenreSuggestion { genre, confidence: sorted[j].confidence });
        j = j + 1;
        assert(alternatives@ =~= full.subrange(1, j + 1).map_values(
            |c: GenreCandidate| as_suggestion(c),
        ));
    }
    Some((chosen, alternatives))
}

/// The most confident candidate is at least as confident as every candidate, and the
/// runners-up are ranked by confidence too.
pub proof fn lemma_most_confident_first(candidates: Seq<GenreCandidate>)
    requires
        candidates.len() > 0,
    ensures
        forall|k: int| 0 <= k < candidates.len() ==> #[trigger] candidates[k].confidence@
            <= ranked(candidates)[0].confidence@,
        descending(ranked(candidates)),
        runners_up(ranked(candidates)).len() <= MAX_ALTERNATIVES,
{
    lemma_ranked(candidates);
    let r = ranked(candidates);
    assert forall|k: int| 0 <= k < candidates.len() implies #[trigger] candidates[k].confidence@
        <= r[0].confidence@ by {
        let w = choose|w: int| 0 <= w < r.len() && r[w] == candidates[k];
        if w > 0 {
            assert(r[0].confidence@ >= r[w].confidence@);
        }
    }
}

/// A confidence known to be in range.
fn constant_confidence(per_mille: u16) -> (c: Confidence)
    requires
        per_mille <= 1000,
    ensures
        c@ == per_mille,
{
    Confidence::new(per_mille).unwrap()
}

/// Whether `d` is the decision with these parts.
pub open spec fn decision_is(
    d: GenreDecision,
    genre: Seq<char>,
    confidence: int,
    reason: ClassificationReason,
    vibe_tags: Seq<Seq<char>>,
    alternatives: Seq<GenreSuggestion>,
) -> bool {
    &&& d.genre@ == genre
    &&& d.confidence@ == confidence
    &&& d.reason == reason
    &&& texts(d.vibe_tags@) == vibe_tags
    &&& d.alternatives@ == alternatives
}

/// The low-confidence "no genre determined" decision: the `Unknown` bucket, no vibe, no
/// alternatives. `reason` records why no genre was determined.
pub fn fallback_decision(reason: ClassificationReason) -> (d: GenreDecision)
    ensures
        decision_is(d, unknown_genre(), 100, reason, Seq::empty(), Seq::empty()),
{
    let d = GenreDecision {
        genre: String::from_str("Unknown"),
        confidence: constant_confidence(FALLBACK_CONFIDENCE),
        reason,
        vibe_tags: Vec::new(),
        alternatives: Vec::new(),
    };
    assert(texts(d.vibe_tags@) =~= Seq::<Seq<char>>::empty());
    d
}

/// What a track's own metadata decides: the review bucket for an implausible duration,
/// otherwise its source tag; `None` when the classifier has to be asked.
pub open spec fn spec_metadata_genre(track: TrackView) -> Option<
    (Seq<char>, int, ClassificationReason),
> {
    if !(MIN_MUSIC_DURATION_MS <= track.duration_ms <= MAX_MUSIC_DURATION_MS) {
        Some((review_genre(), 950, ClassificationReason::LikelyNonMusic))
    } else {
        match track.source_genre {
            Some(g) => Some((g, 900, ClassificationReason::GenreFromSourceTag)),
            None => None,
        }
    }
}

/// Decides the genre from the track's own metadata, or returns `None` when the AI classifier
/// has to be asked (the genre is missing).
pub fn decide_genre_from_metadata(track: &Track) -> (r: Option<GenreDecision>)
    ensures
        match (r, spec_metadata_genre(track@)) {
            (None, None) => true,
            (Some(d), Some((genre, confidence, reason))) => decision_is(
                d,
                genre,
                confidence,
                reason,
                Seq::empty(),
                Seq::empty(),
            ),
            _ => false,
        },
{
    if is_likely_non_music(track.duration_ms()) {
        let d = GenreDecision {
            genre: String::from_str("Review"),
            confidence: constant_confidence(NON_MUSIC_CONFIDENCE),
            reason: ClassificationReason::LikelyNonMusic,
            vibe_tags: Vec::new(),
            alternatives: Vec::new(),
        };
        assert(texts(d.vibe_tags@) =~= Seq::<Seq<char>>::empty());
        return Some(d);
    }
    match track.source_genre() {
        Some(genre) => {
            let d = GenreDecision {
                genre: genre.to_owned(),
                confidence: constant_confidence(SOURCE_TAG_CONFIDENCE),
                reason: ClassificationReason::GenreFromSourceTag,
                vibe_tags: Vec::new(),
                alternatives: Vec::new(),
            };
            assert(texts(d.vibe_tags@) =~= Seq::<Seq<char>>::empty());
            Some(d)
        },
        None => None,
    }
}

/// The text signals handed to the classifier: title and artist only (the genre is missing,
/// which is why it is asked).
pub fn classification_input(track: &Track) -> (input: ClassificationInput)
    ensures
        input.title@ == track@.title,
        input.artist@ == track@.artist,
        input.source_genre is None,
        input.description is None,
{
    ClassificationInput {
        title: track.title().to_owned(),
        artist: track.artist().to_owned(),
        source_genre: None,
        description: None,
    }
}

/// The genre decision the classifier's answer gives: its most confident candidate with the
/// runners-up and vibe tags; the fallback (`GenreFromAi`) when it offered no candidate; the
/// fallback (`ClassifierUnavailable`) when it never answered.
pub open spec fn spec_ai_decision(outcome: Result<GenreVibeSuggestion, ClassifyError>, d: GenreDecision) -> bool {
    match outcome {
        Err(_) => decision_is(
            d,
            unknown_genre(),
            100,
            ClassificationReason::ClassifierUnavailable,
            Seq::empty(),
            Seq::empty(),
        ),
        Ok(s) => if s.candidates@.len() == 0 {
            decision_is(d, unknown_genre(), 100, ClassificationReason::GenreFromAi, Seq::empty(), Seq::empty())
        } else {
            decision_is(
                d,
                ranked(s.candidates@)[0].genre@,
                ranked(s.candidates@)[0].confidence@,
                ClassificationReason::GenreFromAi,
                texts(s.vibe_tags@),
                runners_up(ranked(s.candidates@)),
            )
        },
    }
}

/// Turns the classifier's answer (or its failure) into a genre decision.
pub fn decide_genre_from_ai(outcome: Result<GenreVibeSuggestion, ClassifyError>) -> (d:
    GenreDecision)
    ensures
        spec_ai_decision(outcome, d),
{
    match outcome {
        Ok(suggestion) => {
            let GenreVibeSuggestion { candidates, vibe_tags } = suggestion;
            match split_off_most_confident(candidates) {
                Some((chosen, runners)) => GenreDecision {
                    genre: chosen.genre,
                    confidence: chosen.confidence,
                    reason: ClassificationReason::GenreFromAi,
                    vibe_tags,
                    alternatives: runners,
                },
                None => fallback_decision(ClassificationReason::GenreFromAi),
            }
        },
        Err(_) => fallback_decision(ClassificationReason::ClassifierUnavailable),
    }
}

/// The crate to resolve for a decision: its genre and role, stamped `Auto` if created.
pub fn crate_spec_for(decision: &GenreDecision, role: Option<EnergyRole>) -> (spec: CrateSpec)
    ensures
        spec.genre@ == decision.genre@,
        spec.role == role,
        spec.origin == CrateOrigin::Auto,
{
    CrateSpec { genre: decision.genre.clone(), role, origin: CrateOrigin::Auto }
}

/// The classification of a decision filed into `crate_id`: the uplifted confidence, the
/// refined reason, and the decision's vibe tags and alternatives.
pub fn classification_for(
    decision: &GenreDecision,
    role: Option<EnergyRole>,
    crate_id: CrateId,
) -> (c: Classification)
    ensures
        c.crate_id == crate_id,
        c.confidence@ == spec_uplifted(decision.confidence@, role),
        c.reason == spec_reason_for(decision.reason, role),
        c.vibe_tags@ == decision.vibe_tags@,
        c.alternatives@ == decision.alternatives@,
{
    let alternatives = decision.alternatives.clone();
    assert(alternatives@ =~= decision.alternatives@);
    Classification {
        crate_id,
        confidence: uplifted_confidence(decision.confidence, role),
        reason: reason_for(decision.reason, role),
        vibe_tags: clone_strings(&decision.vibe_tags),
        alternatives,
    }
}

/// The typed decision record triage reads back: an `Auto` decision carrying the
/// classification's crate, confidence, reason and alternatives.
pub fn decision_record(
    id: DecisionId,
    track_id: crate::domain::track::TrackId,
    classification: &Classification,
    decided_at: Timestamp,
) -> (d: ClassificationDecision)
    ensures
        d.spec_id() == id,
        d.spec_track_id() == track_id,
        d.spec_crate_id() == classification.crate_id,
        d.spec_source() == DecisionSource::Auto,
        d.spec_confidence() == Some(classification.confidence),
        d.spec_reason() == classification.reason,
        d.spec_alternatives() == classification.alternatives@,
        d.spec_decided_at() == decided_at,
{
    let alternatives = classification.alternatives.clone();
    assert(alternatives@ =~= classification.alternatives@);
    ClassificationDecision::new(
        NewDecision {
            id,
            track_id,
            crate_id: classification.crate_id,
            source: DecisionSource::Auto,
            confidence: Some(classification.confidence),
            reason: classification.reason,
            alternatives,
            decided_at,
        },
    )
}

/// The audit detail of a classification: genre, crate, confidence (three decimals) and reason;
/// the genre's own provenance when audio analysis took over the reason; the vibe tags, comma
/// separated, when there are any.
pub open spec fn spec_decision_detail(
    genre: Seq<char>,
    crate_text: Seq<char>,
    confidence: int,
    reason: ClassificationReason,
    genre_reason: ClassificationReason,
    vibe_tags: Seq<Seq<char>>,
) -> Seq<(Seq<char>, Seq<char>)> {
    let base = detail_insert(
        detail_insert(
            detail_insert(detail_insert(Seq::empty(), "genre"@, genre), "crate_id"@, crate_text),
            "confidence"@,
            fixed3(confidence as nat),
        ),
        "reason"@,
        reason.spec_str(),
    );
    let with_provenance = if reason != genre_reason {
        detail_insert(base, "genre_reason"@, genre_reason.spec_str())
    } else {
        base
    };
    if vibe_tags.len() > 0 {
        detail_insert(with_provenance, "vibe_tags"@, joined(vibe_tags))
    } else {
        with_provenance
    }
}

/// Builds the audit detail recording a classification — the answerable "why".
pub fn decision_detail(decision: &GenreDecision, classification: &Classification) -> (d:
    AuditDetail)
    ensures
        d@ == spec_decision_detail(
            decision.genre@,
            classification.crate_id.spec_text(),
            classification.confidence@,
            classification.reason,
            decision.reason,
            texts(classification.vibe_tags@),
        ),
{
    let mut detail = AuditDetail::new()
        .with("genre", decision.genre.clone())
        .with("crate_id", classification.crate_id.to_string())
        .with("confidence", fixed3_text(classification.confidence.value() as u64))
        .with("reason", String::from_str(classification.reason.as_str()));
    if classification.reason != decision.reason {
        detail = detail.with("genre_reason", String::from_str(decision.reason.as_str()));
    }
    if classification.vibe_tags.len() > 0 {
        detail = detail.with("vibe_tags", join_commas(classification.vibe_tags.as_slice()));
    }
    detail
}

/// The audio uplift is earned only by a genre finding: without one the energy role, the
/// confidence and the reason all stay as the genre decision left them; with one, the confidence
/// rises by at most the uplift and never past certainty.
pub proof fn lemma_uplift_needs_genre_evidence(
    track: TrackView,
    reason: ClassificationReason,
    confidence: int,
)
    requires
        0 <= confidence <= 1000,
    ensures
        !spec_has_genre_evidence(reason) ==> spec_energy_role(track, reason) is None && spec_uplifted(
            confidence,
            spec_energy_role(track, reason),
        ) == confidence && spec_reason_for(reason, spec_energy_role(track, reason)) == reason,
        confidence <= spec_uplifted(confidence, spec_energy_role(track, reason)) <= 1000,
        spec_uplifted(confidence, spec_energy_role(track, reason)) <= confidence + 50,
        track.energy is None ==> spec_energy_role(track, reason) is None,
{
}

} // verus!
