//! The `ClassificationDecision` entity — how and why a track reached its crate.
use vstd::prelude::*;
use uuid::Uuid;
use crate::domain::confidence::Confidence;
use crate::domain::crate_::CrateId;
use crate::domain::identity::{uuid_of_bits, uuid_bits, uuid_from_bits};
use crate::domain::timestamp::Timestamp;
use crate::domain::track::TrackId;

verus! {

/// Stable identity of a `ClassificationDecision`, held as the 128 bits of its UUID.
#[derive(Debug, Clone, Copy, PartialEq, Eq, Structural, Hash)]
pub struct DecisionId {
    bits: u128,
}

impl DecisionId {
    /// The UUID this id stands for.
    pub closed spec fn spec_uuid(self) -> Uuid {
        uuid_of_bits(self.bits)
    }

    /// Wraps a raw UUID minted by the application's id provider.
    pub fn from_uuid(id: Uuid) -> (r: Self)
        ensures
            r.spec_uuid() == id,
            forall|other: Self| #[trigger] other.spec_uuid() == id ==> other == r,
    {
        DecisionId { bits: uuid_bits(id) }
    }

    /// Returns the underlying UUID (for persistence at the adapter edge).
    pub fn as_uuid(&self) -> (u: Uuid)
        ensures
            u == self.spec_uuid(),
    {
        uuid_from_bits(self.bits)
    }
}

/// Whether a decision was made by the system or a human.
#[derive(Debug, Clone, Copy, PartialEq, Eq, Structural)]
pub enum DecisionSource {
    /// Produced by the classification pipeline.
    Auto,
    /// Chosen by the user in triage.
    Manual,
}

impl DecisionSource {
    /// Persistence token.
    pub open spec fn spec_str(self) -> Seq<char> {
        match self {
            DecisionSource::Auto => "auto"@,
            DecisionSource::Manual => "manual"@,
        }
    }

    /// Lowercase persistence token.
    pub fn as_str(self) -> (s: &'static str)
        ensures
            s@ == self.spec_str(),
    {
        match self {
            DecisionSource::Auto => "auto",
            DecisionSource::Manual => "manual",
        }
    }
}

/// The evidence behind a classification — the human-answerable "why".
#[derive(Debug, Clone, Copy, PartialEq, Eq, Structural)]
pub enum ClassificationReason {
    /// Genre taken directly from the source tag.
    GenreFromSourceTag,
    /// Genre inferred by the AI classifier (ambiguous/missing source tag).
    GenreFromAi,
    /// Refined using deterministic audio features (BPM/key/energy).
    AudioFeatures,
    /// A human picked the crate in triage.
    ManualPick,
    /// Flagged as likely non-music / non-mixable and routed to a review crate.
    LikelyNonMusic,
    /// The AI classifier was unavailable; the track was routed to triage without a genre.
    ClassifierUnavailable,
}

impl ClassificationReason {
    /// Persistence token.
    pub open spec fn spec_str(self) -> Seq<char> {
        match self {
            ClassificationReason::GenreFromSourceTag => "genre_from_source_tag"@,
            ClassificationReason::GenreFromAi => "genre_from_ai"@,
            ClassificationReason::AudioFeatures => "audio_features"@,
            ClassificationReason::ManualPick => "manual_pick"@,
            ClassificationReason::LikelyNonMusic => "likely_non_music"@,
            ClassificationReason::ClassifierUnavailable => "classifier_unavailable"@,
        }
    }

    /// Lowercase persistence token.
    pub fn as_str(self) -> (s: &'static str)
        ensures
            s@ == self.spec_str(),
    {
        match self {
            ClassificationReason::GenreFromSourceTag => "genre_from_source_tag",
            ClassificationReason::GenreFromAi => "genre_from_ai",
            ClassificationReason::AudioFeatures => "audio_features",
            ClassificationReason::ManualPick => "manual_pick",
            ClassificationReason::LikelyNonMusic => "likely_non_music",
            ClassificationReason::ClassifierUnavailable => "classifier_unavailable",
        }
    }
}

/// A runner-up genre offered on a triage card, with the classifier's confidence in it.
#[derive(Debug, PartialEq, Eq)]
pub struct GenreSuggestion {
    /// The suggested genre.
    pub genre: String,
    /// The classifier's confidence in it.
    pub confidence: Confidence,
}

impl Clone for GenreSuggestion {
    fn clone(&self) -> (r: Self)
        ensures
            r == *self,
    {
        GenreSuggestion { genre: self.genre.clone(), confidence: self.confidence }
    }
}

/// A single, timestamped record of a track being routed to a crate. History is retained; the
/// latest decision is authoritative.
#[derive(Debug, PartialEq, Eq)]
pub struct ClassificationDecision {
    id: DecisionId,
    track_id: TrackId,
    crate_id: CrateId,
    source: DecisionSource,
    confidence: Option<Confidence>,
    reason: ClassificationReason,
    alternatives: Vec<GenreSuggestion>,
    decided_at: Timestamp,
}

/// Constructor input for a `ClassificationDecision`, and its abstract value.
#[derive(Debug)]
pub struct NewDecision {
    /// Minted decision id.
    pub id: DecisionId,
    /// The track being decided.
    pub track_id: TrackId,
    /// The chosen crate.
    pub crate_id: CrateId,
    /// Auto or manual.
    pub source: DecisionSource,
    /// Confidence (present for auto decisions).
    pub confidence: Option<Confidence>,
    /// Why this crate was chosen.
    pub reason: ClassificationReason,
    /// Runner-up genres for the triage card.
    pub alternatives: Vec<GenreSuggestion>,
    /// When the decision was made.
    pub decided_at: Timestamp,
}

impl Clone for NewDecision {
    fn clone(&self) -> (r: Self)
        ensures
            r.id == self.id,
            r.track_id == self.track_id,
            r.crate_id == self.crate_id,
            r.source == self.source,
            r.confidence == self.confidence,
            r.reason == self.reason,
            r.alternatives@ == self.alternatives@,
            r.decided_at == self.decided_at,
    {
        let alternatives = self.alternatives.clone();
        assert(alternatives@ =~= self.alternatives@);
        NewDecision {
            id: self.id,
            track_id: self.track_id,
            crate_id: self.crate_id,
            source: self.source,
            confidence: self.confidence,
            reason: self.reason,
            alternatives,
            decided_at: self.decided_at,
        }
    }
}

impl ClassificationDecision {
    /// The decision's fields.
    pub closed spec fn fields(&self) -> (DecisionId, TrackId, CrateId, DecisionSource, Option<Confidence>, ClassificationReason, Seq<GenreSuggestion>, Timestamp) {
        (self.id, self.track_id, self.crate_id, self.source, self.confidence, self.reason, self.alternatives@, self.decided_at)
    }

    /// The decision's identity.
    pub open spec fn spec_id(&self) -> DecisionId { self.fields().0 }
    /// The decided track.
    pub open spec fn spec_track_id(&self) -> TrackId { self.fields().1 }
    /// The chosen crate.
    pub open spec fn spec_crate_id(&self) -> CrateId { self.fields().2 }
    /// Auto or manual.
    pub open spec fn spec_source(&self) -> DecisionSource { self.fields().3 }
    /// The confidence, if any.
    pub open spec fn spec_confidence(&self) -> Option<Confidence> { self.fields().4 }
    /// The reason.
    pub open spec fn spec_reason(&self) -> ClassificationReason { self.fields().5 }
    /// The runner-up genres.
    pub open spec fn spec_alternatives(&self) -> Seq<GenreSuggestion> { self.fields().6 }
    /// When it was decided.
    pub open spec fn spec_decided_at(&self) -> Timestamp { self.fields().7 }

    /// Whether the decision holds exactly the fields of `f`.
    pub open spec fn built_from(&self, f: NewDecision) -> bool {
        &&& self.spec_id() == f.id
        &&& self.spec_track_id() == f.track_id
        &&& self.spec_crate_id() == f.crate_id
        &&& self.spec_source() == f.source
        &&& self.spec_confidence() == f.confidence
        &&& self.spec_reason() == f.reason
        &&& self.spec_alternatives() == f.alternatives@
        &&& self.spec_decided_at() == f.decided_at
    }

    /// Builds a decision from its grouped fields.
    pub fn new(fields: NewDecision) -> (d: Self)
        ensures
            d.built_from(fields),
    {
        ClassificationDecision {
            id: fields.id,
            track_id: fields.track_id,
            crate_id: fields.crate_id,
            source: fields.source,
            confidence: fields.confidence,
            reason: fields.reason,
            alternatives: fields.alternatives,
            decided_at: fields.decided_at,
        }
    }

    /// Decision identity.
    pub fn id(&self) -> (i: DecisionId)
        ensures
            i == self.spec_id(),
    {
        self.id
    }

    /// The decided track.
    pub fn track_id(&self) -> (t: TrackId)
        ensures
            t == self.spec_track_id(),
    {
        self.track_id
    }

    /// The chosen crate.
    pub fn crate_id(&self) -> (c: CrateId)
        ensures
            c == self.spec_crate_id(),
    {
        self.crate_id
    }

    /// Auto or manual.
    pub fn source(&self) -> (s: DecisionSource)
        ensures
            s == self.spec_source(),
    {
        self.source
    }

    /// Confidence, if this was an auto decision.
    pub fn confidence(&self) -> (c: Option<Confidence>)
        ensures
            c == self.spec_confidence(),
    {
        self.confidence
    }

    /// The reason/evidence.
    pub fn reason(&self) -> (r: ClassificationReason)
        ensures
            r == self.spec_reason(),
    {
        self.reason
    }

    /// The runner-up genres offered to triage.
    pub fn alternatives(&self) -> (a: &[GenreSuggestion])
        ensures
            a@ == self.spec_alternatives(),
    {
        self.alternatives.as_slice()
    }

    /// When it was decided.
    pub fn decided_at(&self) -> (t: Timestamp)
        ensures
            t == self.spec_decided_at(),
    {
        self.decided_at
    }
}

impl Clone for ClassificationDecision {
    fn clone(&self) -> (r: Self)
        ensures
            r.fields() == self.fields(),
    {
        let alternatives = self.alternatives.clone();
        assert(alternatives@ =~= self.alternatives@);
        ClassificationDecision {
            id: self.id,
            track_id: self.track_id,
            crate_id: self.crate_id,
            source: self.source,
            confidence: self.confidence,
            reason: self.reason,
            alternatives,
            decided_at: self.decided_at,
        }
    }
}

} // verus!
