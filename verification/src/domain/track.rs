//! The `Track` entity and its lifecycle state machine.
use vstd::prelude::*;
use uuid::Uuid;
use crate::domain::audio::{AudioFeatures, TempoAmbiguity};
use crate::domain::camelot_key::CamelotKey;
use crate::domain::confidence::{Confidence, Energy};
use crate::domain::crate_::CrateId;
use crate::domain::identity::{uuid_of_bits, hyphenated_hex, uuid_bits, uuid_from_bits, uuid_text};
use crate::text::{clone_strings, is_blank, spec_is_blank, str_eq};

verus! {

/// Stable internal identity of a `Track`, held as the 128 bits of its UUID (distinct from the
/// source's own track id).
#[derive(Debug, Clone, Copy, PartialEq, Eq, Structural, Hash)]
pub struct TrackId {
    bits: u128,
}

impl TrackId {
    /// The canonical text of this id.
    pub closed spec fn spec_text(self) -> Seq<char> {
        hyphenated_hex(self.bits)
    }

    /// The UUID this id stands for.
    pub closed spec fn spec_uuid(self) -> Uuid {
        uuid_of_bits(self.bits)
    }

    /// Wraps a raw UUID minted by the application's id provider.
    pub fn from_uuid(id: Uuid) -> (r: Self)
        ensures
            r.spec_uuid() == id,
            forall|other: Self| #[trigger] other.spec_uuid() == id ==> other == r,
    {
        TrackId { bits: uuid_bits(id) }
    }

    /// Returns the underlying UUID (for persistence at the adapter edge).
    pub fn as_uuid(&self) -> (u: Uuid)
        ensures
            u == self.spec_uuid(),
    {
        uuid_from_bits(self.bits)
    }

    /// The canonical hyphenated text of the id, as `Uuid`'s `Display` writes it.
    pub fn to_string(&self) -> (s: String)
        ensures
            s@ == self.spec_text(),
    {
        uuid_text(self.bits)
    }
}

/// Where a track sits in the classification lifecycle.
#[derive(Debug, Clone, Copy, PartialEq, Eq, Structural)]
pub enum TrackStatus {
    /// Imported from likes, not yet classified.
    Scanned,
    /// Auto-classified with confidence at or above the threshold.
    AutoClassified,
    /// Confidence below threshold (or ambiguous) — awaiting a manual decision.
    InTriage,
    /// A human assigned this track; a re-scan must never re-present it.
    ManuallyDecided,
    /// Deferred during triage; returns to the queue in a later session.
    Deferred,
}

impl TrackStatus {
    /// Persistence token.
    pub open spec fn spec_str(self) -> Seq<char> {
        match self {
            TrackStatus::Scanned => "scanned"@,
            TrackStatus::AutoClassified => "auto_classified"@,
            TrackStatus::InTriage => "in_triage"@,
            TrackStatus::ManuallyDecided => "manually_decided"@,
            TrackStatus::Deferred => "deferred"@,
        }
    }

    /// The status a token names, if any.
    pub open spec fn spec_from_token(token: Seq<char>) -> Option<TrackStatus> {
        if token == "scanned"@ {
            Some(TrackStatus::Scanned)
        } else if token == "auto_classified"@ {
            Some(TrackStatus::AutoClassified)
        } else if token == "in_triage"@ {
            Some(TrackStatus::InTriage)
        } else if token == "manually_decided"@ {
            Some(TrackStatus::ManuallyDecided)
        } else if token == "deferred"@ {
            Some(TrackStatus::Deferred)
        } else {
            None
        }
    }

    /// Lowercase persistence token for this status.
    pub fn as_str(self) -> (s: &'static str)
        ensures
            s@ == self.spec_str(),
    {
        match self {
            TrackStatus::Scanned => "scanned",
            TrackStatus::AutoClassified => "auto_classified",
            TrackStatus::InTriage => "in_triage",
            TrackStatus::ManuallyDecided => "manually_decided",
            TrackStatus::Deferred => "deferred",
        }
    }

    /// Parses a persistence token back into a status; `None` when unrecognized.
    pub fn from_token(token: &str) -> (r: Option<Self>)
        ensures
            r == Self::spec_from_token(token@),
    {
        if str_eq(token, "scanned") {
            Some(TrackStatus::Scanned)
        } else if str_eq(token, "auto_classified") {
            Some(TrackStatus::AutoClassified)
        } else if str_eq(token, "in_triage") {
            Some(TrackStatus::InTriage)
        } else if str_eq(token, "manually_decided") {
            Some(TrackStatus::ManuallyDecided)
        } else if str_eq(token, "deferred") {
            Some(TrackStatus::Deferred)
        } else {
            None
        }
    }
}

/// Every status reads back from its own token.
pub proof fn lemma_status_token_round_trip(status: TrackStatus)
    ensures
        TrackStatus::spec_from_token(status.spec_str()) == Some(status),
{
    reveal_strlit("scanned");
    reveal_strlit("auto_classified");
    reveal_strlit("in_triage");
    reveal_strlit("manually_decided");
    reveal_strlit("deferred");
    assert("scanned"@.len() == 7);
    assert("auto_classified"@.len() == 15);
    assert("in_triage"@.len() == 9);
    assert("manually_decided"@.len() == 16);
    assert("deferred"@.len() == 8);
}

/// The text of an optional string.
pub open spec fn opt_text(o: Option<String>) -> Option<Seq<char>> {
    match o {
        Some(s) => Some(s@),
        None => None,
    }
}

/// The texts of a list of strings.
pub open spec fn texts(v: Seq<String>) -> Seq<Seq<char>> {
    v.map_values(|s: String| s@)
}

/// A source genre with blank or white-space-only values collapsed to `None`.
pub open spec fn normalized_genre(o: Option<String>) -> Option<Seq<char>> {
    match o {
        Some(s) => if spec_is_blank(s@) { None } else { Some(s@) },
        None => None,
    }
}

/// Metadata for one liked track as yielded by the likes source — the input to a scan.
#[derive(Debug, PartialEq, Eq)]
pub struct LikedTrack {
    /// The source's stable track id (the dedup key).
    pub source_track_id: String,
    /// Track title.
    pub title: String,
    /// Uploader / artist name.
    pub artist: String,
    /// Source genre tag, if present.
    pub source_genre: Option<String>,
    /// Duration in milliseconds.
    pub duration_ms: u64,
    /// Permalink URL (used later for opt-in download).
    pub permalink_url: String,
    /// Artwork URL, if present.
    pub artwork_url: Option<String>,
}

/// Clones an optional string, keeping its value.
fn clone_opt(o: &Option<String>) -> (r: Option<String>)
    ensures
        r == *o,
{
    match o {
        Some(s) => Some(s.clone()),
        None => None,
    }
}

impl Clone for LikedTrack {
    fn clone(&self) -> (r: Self)
        ensures
            r == *self,
    {
        LikedTrack {
            source_track_id: self.source_track_id.clone(),
            title: self.title.clone(),
            artist: self.artist.clone(),
            source_genre: clone_opt(&self.source_genre),
            duration_ms: self.duration_ms,
            permalink_url: self.permalink_url.clone(),
            artwork_url: clone_opt(&self.artwork_url),
        }
    }
}

/// The abstract value of a `Track`.
pub struct TrackView {
    /// Internal id.
    pub id: TrackId,
    /// The source's stable id.
    pub source_track_id: Seq<char>,
    /// Title.
    pub title: Seq<char>,
    /// Artist.
    pub artist: Seq<char>,
    /// Source genre tag, if any.
    pub source_genre: Option<Seq<char>>,
    /// Duration in ms.
    pub duration_ms: u64,
    /// Permalink URL.
    pub permalink_url: Seq<char>,
    /// Artwork URL, if any.
    pub artwork_url: Option<Seq<char>>,
    /// BPM, if analyzed.
    pub bpm: Option<u16>,
    /// How trustworthy that BPM is; `None` when never analyzed.
    pub tempo_ambiguity: Option<TempoAmbiguity>,
    /// Camelot key, if analyzed and detectable.
    pub camelot_key: Option<CamelotKey>,
    /// Energy, if analyzed.
    pub energy: Option<Energy>,
    /// Vibe tags.
    pub vibe_tags: Seq<Seq<char>>,
    /// Assigned crate, if any.
    pub crate_id: Option<CrateId>,
    /// Latest confidence, if any.
    pub confidence: Option<Confidence>,
    /// Lifecycle status.
    pub status: TrackStatus,
    /// Local audio path, if downloaded.
    pub local_audio_path: Option<Seq<char>>,
}

/// A unique liked item, enriched as the pipeline progresses.
#[derive(Debug, PartialEq)]
pub struct Track {
    id: TrackId,
    source_track_id: String,
    title: String,
    artist: String,
    source_genre: Option<String>,
    duration_ms: u64,
    permalink_url: String,
    artwork_url: Option<String>,
    bpm: Option<u16>,
    tempo_ambiguity: Option<TempoAmbiguity>,
    camelot_key: Option<CamelotKey>,
    energy: Option<Energy>,
    vibe_tags: Vec<String>,
    crate_id: Option<CrateId>,
    confidence: Option<Confidence>,
    status: TrackStatus,
    local_audio_path: Option<String>,
}

impl View for Track {
    type V = TrackView;

    closed spec fn view(&self) -> TrackView {
        TrackView {
            id: self.id,
            source_track_id: self.source_track_id@,
            title: self.title@,
            artist: self.artist@,
            source_genre: opt_text(self.source_genre),
            duration_ms: self.duration_ms,
            permalink_url: self.permalink_url@,
            artwork_url: opt_text(self.artwork_url),
            bpm: self.bpm,
            tempo_ambiguity: self.tempo_ambiguity,
            camelot_key: self.camelot_key,
            energy: self.energy,
            vibe_tags: texts(self.vibe_tags@),
            crate_id: self.crate_id,
            confidence: self.confidence,
            status: self.status,
            local_audio_path: opt_text(self.local_audio_path),
        }
    }
}

/// The fully-hydrated field set of a `Track`, as reconstructed from persistence.
#[derive(Debug, PartialEq)]
pub struct TrackRecord {
    /// Internal id.
    pub id: TrackId,
    /// The source's stable id.
    pub source_track_id: String,
    /// Title.
    pub title: String,
    /// Artist.
    pub artist: String,
    /// Source genre tag, if any.
    pub source_genre: Option<String>,
    /// Duration in ms.
    pub duration_ms: u64,
    /// Permalink URL.
    pub permalink_url: String,
    /// Artwork URL, if any.
    pub artwork_url: Option<String>,
    /// BPM, if analyzed.
    pub bpm: Option<u16>,
    /// How trustworthy that BPM is; `None` when the track was never analyzed.
    pub tempo_ambiguity: Option<TempoAmbiguity>,
    /// Camelot key, if analyzed.
    pub camelot_key: Option<CamelotKey>,
    /// Energy, if analyzed.
    pub energy: Option<Energy>,
    /// Vibe tags.
    pub vibe_tags: Vec<String>,
    /// Assigned crate, if any.
    pub crate_id: Option<CrateId>,
    /// Latest confidence, if any.
    pub confidence: Option<Confidence>,
    /// Lifecycle status.
    pub status: TrackStatus,
    /// Local audio path, if downloaded.
    pub local_audio_path: Option<String>,
}

impl TrackRecord {
    /// The abstract track a record describes.
    pub open spec fn spec_track(self) -> TrackView {
        TrackView {
            id: self.id,
            source_track_id: self.source_track_id@,
            title: self.title@,
            artist: self.artist@,
            source_genre: opt_text(self.source_genre),
            duration_ms: self.duration_ms,
            permalink_url: self.permalink_url@,
            artwork_url: opt_text(self.artwork_url),
            bpm: self.bpm,
            tempo_ambiguity: self.tempo_ambiguity,
            camelot_key: self.camelot_key,
            energy: self.energy,
            vibe_tags: texts(self.vibe_tags@),
            crate_id: self.crate_id,
            confidence: self.confidence,
            status: self.status,
            local_audio_path: opt_text(self.local_audio_path),
        }
    }
}

/// The abstract track a scan produces from a liked item: status `Scanned`, nothing classified
/// or measured yet, a blank genre collapsed to `None`.
pub open spec fn spec_scanned(id: TrackId, liked: LikedTrack) -> TrackView {
    TrackView {
        id,
        source_track_id: liked.source_track_id@,
        title: liked.title@,
        artist: liked.artist@,
        source_genre: normalized_genre(liked.source_genre),
        duration_ms: liked.duration_ms,
        permalink_url: liked.permalink_url@,
        artwork_url: opt_text(liked.artwork_url),
        bpm: None,
        tempo_ambiguity: None,
        camelot_key: None,
        energy: None,
        vibe_tags: Seq::empty(),
        crate_id: None,
        confidence: None,
        status: TrackStatus::Scanned,
        local_audio_path: None,
    }
}

impl Clone for Track {
    fn clone(&self) -> (r: Self)
        ensures
            r@ == self@,
    {
        Track {
            id: self.id,
            source_track_id: self.source_track_id.clone(),
            title: self.title.clone(),
            artist: self.artist.clone(),
            source_genre: clone_opt(&self.source_genre),
            duration_ms: self.duration_ms,
            permalink_url: self.permalink_url.clone(),
            artwork_url: clone_opt(&self.artwork_url),
            bpm: self.bpm,
            tempo_ambiguity: self.tempo_ambiguity,
            camelot_key: self.camelot_key,
            energy: self.energy,
            vibe_tags: clone_strings(&self.vibe_tags),
            crate_id: self.crate_id,
            confidence: self.confidence,
            status: self.status,
            local_audio_path: clone_opt(&self.local_audio_path),
        }
    }
}

impl Track {
    /// Rebuilds a track from its persisted record (used only by repository adapters).
    pub fn from_record(record: TrackRecord) -> (t: Self)
        ensures
            t@ == record.spec_track(),
    {
        Track {
            id: record.id,
            source_track_id: record.source_track_id,
            title: record.title,
            artist: record.artist,
            source_genre: record.source_genre,
            duration_ms: record.duration_ms,
            permalink_url: record.permalink_url,
            artwork_url: record.artwork_url,
            bpm: record.bpm,
            tempo_ambiguity: record.tempo_ambiguity,
            camelot_key: record.camelot_key,
            energy: record.energy,
            vibe_tags: record.vibe_tags,
            crate_id: record.crate_id,
            confidence: record.confidence,
            status: record.status,
            local_audio_path: record.local_audio_path,
        }
    }

    /// Builds a freshly scanned track (status `Scanned`, no classification or audio yet).
    /// A blank or white-space-only source genre is normalized to `None`.
    pub fn from_scan(id: TrackId, liked: LikedTrack) -> (t: Self)
        ensures
            t@ == spec_scanned(id, liked),
    {
        let t = Track {
            id,
            source_track_id: liked.source_track_id,
            title: liked.title,
            artist: liked.artist,
            source_genre: normalize_optional(liked.source_genre),
            duration_ms: liked.duration_ms,
            permalink_url: liked.permalink_url,
            artwork_url: liked.artwork_url,
            bpm: None,
            tempo_ambiguity: None,
            camelot_key: None,
            energy: None,
            vibe_tags: Vec::new(),
            crate_id: None,
            confidence: None,
            status: TrackStatus::Scanned,
            local_audio_path: None,
        };
        assert(texts(t.vibe_tags@) =~= Seq::<Seq<char>>::empty());
        t
    }

    /// Returns a copy auto-classified into `crate_id` with `confidence` (status
    /// `AutoClassified`).
    pub fn assigned_auto(&self, crate_id: CrateId, confidence: Confidence) -> (t: Self)
        ensures
            t@ == (TrackView {
                crate_id: Some(crate_id),
                confidence: Some(confidence),
                status: TrackStatus::AutoClassified,
                ..self@
            }),
    {
        let mut t = self.clone();
        t.crate_id = Some(crate_id);
        t.confidence = Some(confidence);
        t.status = TrackStatus::AutoClassified;
        t
    }

    /// Returns a copy sent to triage with `confidence` (status `InTriage`; the crate suggestion
    /// is dropped from the track — it stays in the persisted decision).
    pub fn sent_to_triage(&self, confidence: Confidence) -> (t: Self)
        ensures
            t@ == (TrackView {
                crate_id: None,
                confidence: Some(confidence),
                status: TrackStatus::InTriage,
                ..self@
            }),
    {
        let mut t = self.clone();
        t.crate_id = None;
        t.confidence = Some(confidence);
        t.status = TrackStatus::InTriage;
        t
    }

    /// Returns a copy assigned by a human to `crate_id` (status `ManuallyDecided`).
    pub fn assigned_manual(&self, crate_id: CrateId) -> (t: Self)
        ensures
            t@ == (TrackView {
                crate_id: Some(crate_id),
                status: TrackStatus::ManuallyDecided,
                ..self@
            }),
    {
        let mut t = self.clone();
        t.crate_id = Some(crate_id);
        t.status = TrackStatus::ManuallyDecided;
        t
    }

    /// Returns a copy deferred out of the current triage session (status `Deferred`).
    pub fn deferred(&self) -> (t: Self)
        ensures
            t@ == (TrackView { status: TrackStatus::Deferred, ..self@ }),
    {
        let mut t = self.clone();
        t.status = TrackStatus::Deferred;
        t
    }

    /// Returns a copy put back into the triage queue, keeping the confidence and vibe the track
    /// already carried — resuming is not re-deciding.
    pub fn returned_to_triage(&self) -> (t: Self)
        ensures
            t@ == (TrackView { status: TrackStatus::InTriage, ..self@ }),
    {
        let mut t = self.clone();
        t.status = TrackStatus::InTriage;
        t
    }

    /// Returns a copy carrying the audio downloaded to `path`. Downloading decides nothing, so
    /// the lifecycle is untouched.
    pub fn downloaded(&self, path: String) -> (t: Self)
        ensures
            t@ == (TrackView { local_audio_path: Some(path@), ..self@ }),
    {
        let mut t = self.clone();
        t.local_audio_path = Some(path);
        t
    }

    /// Returns a copy carrying the deterministic analysis of its audio. Only measurements are
    /// written: status, crate and confidence are left alone.
    pub fn analyzed(&self, features: AudioFeatures) -> (t: Self)
        ensures
            t@ == (TrackView {
                bpm: Some(features.bpm),
                tempo_ambiguity: Some(features.tempo_ambiguity),
                camelot_key: features.key,
                energy: Some(features.energy),
                ..self@
            }),
    {
        let mut t = self.clone();
        t.bpm = Some(features.bpm);
        t.tempo_ambiguity = Some(features.tempo_ambiguity);
        t.camelot_key = features.key;
        t.energy = Some(features.energy);
        t
    }

    /// Whether a human has already decided this track (it must not be re-presented).
    pub fn is_manually_decided(&self) -> (b: bool)
        ensures
            b == (self@.status == TrackStatus::ManuallyDecided),
    {
        match self.status {
            TrackStatus::ManuallyDecided => true,
            _ => false,
        }
    }

    /// Whether the detected tempo is too ambiguous to tag unattended; `false` for a track that
    /// was never analyzed.
    pub fn has_uncertain_tempo(&self) -> (b: bool)
        ensures
            b == (self@.tempo_ambiguity == Some(TempoAmbiguity::HalfOrDoubleTime)),
    {
        match self.tempo_ambiguity {
            Some(t) => t.is_uncertain(),
            None => false,
        }
    }

    /// Internal identity.
    pub fn id(&self) -> (i: TrackId)
        ensures
            i == self@.id,
    {
        self.id
    }

    /// The source's stable track id (dedup key).
    pub fn source_track_id(&self) -> (s: &str)
        ensures
            s@ == self@.source_track_id,
    {
        self.source_track_id.as_str()
    }

    /// Track title.
    pub fn title(&self) -> (s: &str)
        ensures
            s@ == self@.title,
    {
        self.title.as_str()
    }

    /// Artist / uploader.
    pub fn artist(&self) -> (s: &str)
        ensures
            s@ == self@.artist,
    {
        self.artist.as_str()
    }

    /// Source genre tag, if present.
    pub fn source_genre(&self) -> (g: Option<&str>)
        ensures
            match g {
                Some(s) => self@.source_genre == Some(s@),
                None => self@.source_genre is None,
            },
    {
        match &self.source_genre {
            Some(s) => Some(s.as_str()),
            None => None,
        }
    }

    /// Duration in milliseconds.
    pub fn duration_ms(&self) -> (d: u64)
        ensures
            d == self@.duration_ms,
    {
        self.duration_ms
    }

    /// Permalink URL.
    pub fn permalink_url(&self) -> (s: &str)
        ensures
            s@ == self@.permalink_url,
    {
        self.permalink_url.as_str()
    }

    /// Artwork URL, if present.
    pub fn artwork_url(&self) -> (a: Option<&str>)
        ensures
            match a {
                Some(s) => self@.artwork_url == Some(s@),
                None => self@.artwork_url is None,
            },
    {
        match &self.artwork_url {
            Some(s) => Some(s.as_str()),
            None => None,
        }
    }

    /// Detected BPM (present only after audio analysis).
    pub fn bpm(&self) -> (b: Option<u16>)
        ensures
            b == self@.bpm,
    {
        self.bpm
    }

    /// How trustworthy the detected BPM is (`None` until analyzed).
    pub fn tempo_ambiguity(&self) -> (t: Option<TempoAmbiguity>)
        ensures
            t == self@.tempo_ambiguity,
    {
        self.tempo_ambiguity
    }

    /// Detected Camelot key (present only after audio analysis).
    pub fn camelot_key(&self) -> (k: Option<CamelotKey>)
        ensures
            k == self@.camelot_key,
    {
        self.camelot_key
    }

    /// Detected energy (present only after audio analysis).
    pub fn energy(&self) -> (e: Option<Energy>)
        ensures
            e == self@.energy,
    {
        self.energy
    }

    /// AI-inferred vibe tags (optional, never required).
    pub fn vibe_tags(&self) -> (v: &[String])
        ensures
            texts(v@) == self@.vibe_tags,
    {
        self.vibe_tags.as_slice()
    }

    /// Assigned crate, if any (`None` while unclassified or in triage).
    pub fn crate_id(&self) -> (c: Option<CrateId>)
        ensures
            c == self@.crate_id,
    {
        self.crate_id
    }

    /// Latest auto-classification confidence, if any.
    pub fn confidence(&self) -> (c: Option<Confidence>)
        ensures
            c == self@.confidence,
    {
        self.confidence
    }

    /// Lifecycle status.
    pub fn status(&self) -> (s: TrackStatus)
        ensures
            s == self@.status,
    {
        self.status
    }

    /// Local audio path, once downloaded.
    pub fn local_audio_path(&self) -> (p: Option<&str>)
        ensures
            match p {
                Some(s) => self@.local_audio_path == Some(s@),
                None => self@.local_audio_path is None,
            },
    {
        match &self.local_audio_path {
            Some(s) => Some(s.as_str()),
            None => None,
        }
    }
}

/// Normalizes an optional string, collapsing blank/white-space-only values to `None`.
pub fn normalize_optional(value: Option<String>) -> (r: Option<String>)
    ensures
        opt_text(r) == normalized_genre(value),
{
    match value {
        Some(v) => {
            if is_blank(v.as_str()) {
                None
            } else {
                Some(v)
            }
        },
        None => None,
    }
}

} // verus!
