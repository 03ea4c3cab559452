//! The `AuditEvent` entity — the durable, queryable "why is this track in this crate?" trail.
use vstd::prelude::*;
use uuid::Uuid;
use crate::domain::identity::{uuid_of_bits, uuid_bits, uuid_from_bits};
use crate::domain::timestamp::Timestamp;
use crate::domain::track::TrackId;
use crate::text::{
    lemma_seq_lt_irreflexive, lemma_seq_lt_total, lemma_seq_lt_transitive, seq_lt, str_eq, str_lt,
};

verus! {

/// Correlates every event produced by one pipeline run.
#[derive(Debug, Clone, Copy, PartialEq, Eq, Structural, Hash)]
pub struct RunId {
    bits: u128,
}

impl RunId {
    /// The UUID this id stands for.
    pub closed spec fn spec_uuid(self) -> Uuid {
        uuid_of_bits(self.bits)
    }

    /// Wraps a raw UUID minted by the application's id provider.
    pub fn from_uuid(id: Uuid) -> (r: Self)
        ensures
            r.spec_uuid() == id,
            forall|other: Self| #[trigger] other.spec_uuid() == id ==> other == r,
    {
        RunId { bits: uuid_bits(id) }
    }

    /// Returns the underlying UUID (for persistence at the adapter edge).
    pub fn as_uuid(&self) -> (u: Uuid)
        ensures
            u == self.spec_uuid(),
    {
        uuid_from_bits(self.bits)
    }
}

/// Stable identity of an `AuditEvent`.
#[derive(Debug, Clone, Copy, PartialEq, Eq, Structural, Hash)]
pub struct AuditEventId {
    bits: u128,
}

impl AuditEventId {
    /// The UUID this id stands for.
    pub closed spec fn spec_uuid(self) -> Uuid {
        uuid_of_bits(self.bits)
    }

    /// Wraps a raw UUID minted by the application's id provider.
    pub fn from_uuid(id: Uuid) -> (r: Self)
        ensures
            r.spec_uuid() == id,
            forall|other: Self| #[trigger] other.spec_uuid() == id ==> other == r,
    {
        AuditEventId { bits: uuid_bits(id) }
    }

    /// Returns the underlying UUID (for persistence at the adapter edge).
    pub fn as_uuid(&self) -> (u: Uuid)
        ensures
            u == self.spec_uuid(),
    {
        uuid_from_bits(self.bits)
    }
}

/// The pipeline stage an event belongs to.
#[derive(Debug, Clone, Copy, PartialEq, Eq, Structural)]
pub enum PipelineStage {
    /// Scanning likes from the source.
    Scan,
    /// Deduplicating the library.
    Dedup,
    /// Downloading audio (opt-in).
    Download,
    /// Analyzing audio for BPM/key/energy.
    Analyze,
    /// Classifying a track into a crate.
    Classify,
    /// A manual triage action.
    Triage,
    /// Exporting crates to disk.
    Export,
}

impl PipelineStage {
    /// Persistence token.
    pub open spec fn spec_str(self) -> Seq<char> {
        match self {
            PipelineStage::Scan => "scan"@,
            PipelineStage::Dedup => "dedup"@,
            PipelineStage::Download => "download"@,
            PipelineStage::Analyze => "analyze"@,
            PipelineStage::Classify => "classify"@,
            PipelineStage::Triage => "triage"@,
            PipelineStage::Export => "export"@,
        }
    }

    /// The stage a token names, if any.
    pub open spec fn spec_from_token(token: Seq<char>) -> Option<PipelineStage> {
        if token == "scan"@ {
            Some(PipelineStage::Scan)
        } else if token == "dedup"@ {
            Some(PipelineStage::Dedup)
        } else if token == "download"@ {
            Some(PipelineStage::Download)
        } else if token == "analyze"@ {
            Some(PipelineStage::Analyze)
        } else if token == "classify"@ {
            Some(PipelineStage::Classify)
        } else if token == "triage"@ {
            Some(PipelineStage::Triage)
        } else if token == "export"@ {
            Some(PipelineStage::Export)
        } else {
            None
        }
    }

    /// Lowercase persistence token.
    pub fn as_str(self) -> (s: &'static str)
        ensures
            s@ == self.spec_str(),
    {
        match self {
            PipelineStage::Scan => "scan",
            PipelineStage::Dedup => "dedup",
            PipelineStage::Download => "download",
            PipelineStage::Analyze => "analyze",
            PipelineStage::Classify => "classify",
            PipelineStage::Triage => "triage",
            PipelineStage::Export => "export",
        }
    }

    /// Parses a persistence token back into a stage; `None` when unrecognized.
    pub fn from_token(token: &str) -> (r: Option<Self>)
        ensures
            r == Self::spec_from_token(token@),
    {
        if str_eq(token, "scan") {
            Some(PipelineStage::Scan)
        } else if str_eq(token, "dedup") {
            Some(PipelineStage::Dedup)
        } else if str_eq(token, "download") {
            Some(PipelineStage::Download)
        } else if str_eq(token, "analyze") {
            Some(PipelineStage::Analyze)
        } else if str_eq(token, "classify") {
            Some(PipelineStage::Classify)
        } else if str_eq(token, "triage") {
            Some(PipelineStage::Triage)
        } else if str_eq(token, "export") {
            Some(PipelineStage::Export)
        } else {
            None
        }
    }
}

/// Every stage reads back from its own token.
pub proof fn lemma_stage_token_round_trip(stage: PipelineStage)
    ensures
        PipelineStage::spec_from_token(stage.spec_str()) == Some(stage),
{
    reveal_strlit("scan");
    reveal_strlit("dedup");
    reveal_strlit("download");
    reveal_strlit("analyze");
    reveal_strlit("classify");
    reveal_strlit("triage");
    reveal_strlit("export");
    assert("scan"@.len() == 4 && "dedup"@.len() == 5 && "download"@.len() == 8);
    assert("analyze"@.len() == 7 && "classify"@.len() == 8 && "triage"@.len() == 6);
    assert("export"@.len() == 6);
    assert("download"@[0] != "classify"@[0]);
    assert("triage"@[0] != "export"@[0]);
}

/// The category of an audited event.
#[derive(Debug, Clone, Copy, PartialEq, Eq, Structural)]
pub enum AuditKind {
    /// A run-level lifecycle event (start/finish of a stage).
    RunLifecycle,
    /// A classification decision.
    Classification,
    /// A manual triage action (from → to crate).
    TriageAction,
    /// Result of an audio download attempt.
    DownloadResult,
    /// Result of an audio analysis.
    AnalyzeResult,
    /// A track skipped as a duplicate.
    DedupSkip,
    /// Result of a crate export.
    ExportResult,
}

impl AuditKind {
    /// Persistence token.
    pub open spec fn spec_str(self) -> Seq<char> {
        match self {
            AuditKind::RunLifecycle => "run_lifecycle"@,
            AuditKind::Classification => "classification"@,
            AuditKind::TriageAction => "triage_action"@,
            AuditKind::DownloadResult => "download_result"@,
            AuditKind::AnalyzeResult => "analyze_result"@,
            AuditKind::DedupSkip => "dedup_skip"@,
            AuditKind::ExportResult => "export_result"@,
        }
    }

    /// The kind a token names, if any.
    pub open spec fn spec_from_token(token: Seq<char>) -> Option<AuditKind> {
        if token == "run_lifecycle"@ {
            Some(AuditKind::RunLifecycle)
        } else if token == "classification"@ {
            Some(AuditKind::Classification)
        } else if token == "triage_action"@ {
            Some(AuditKind::TriageAction)
        } else if token == "download_result"@ {
            Some(AuditKind::DownloadResult)
        } else if token == "analyze_result"@ {
            Some(AuditKind::AnalyzeResult)
        } else if token == "dedup_skip"@ {
            Some(AuditKind::DedupSkip)
        } else if token == "export_result"@ {
            Some(AuditKind::ExportResult)
        } else {
            None
        }
    }

    /// Lowercase persistence token.
    pub fn as_str(self) -> (s: &'static str)
        ensures
            s@ == self.spec_str(),
    {
        match self {
            AuditKind::RunLifecycle => "run_lifecycle",
            AuditKind::Classification => "classification",
            AuditKind::TriageAction => "triage_action",
            AuditKind::DownloadResult => "download_result",
            AuditKind::AnalyzeResult => "analyze_result",
            AuditKind::DedupSkip => "dedup_skip",
            AuditKind::ExportResult => "export_result",
        }
    }

    /// Parses a persistence token back into a kind; `None` when unrecognized.
    pub fn from_token(token: &str) -> (r: Option<Self>)
        ensures
            r == Self::spec_from_token(token@),
    {
        if str_eq(token, "run_lifecycle") {
            Some(AuditKind::RunLifecycle)
        } else if str_eq(token, "classification") {
            Some(AuditKind::Classification)
        } else if str_eq(token, "triage_action") {
            Some(AuditKind::TriageAction)
        } else if str_eq(token, "download_result") {
            Some(AuditKind::DownloadResult)
        } else if str_eq(token, "analyze_result") {
            Some(AuditKind::AnalyzeResult)
        } else if str_eq(token, "dedup_skip") {
            Some(AuditKind::DedupSkip)
        } else if str_eq(token, "export_result") {
            Some(AuditKind::ExportResult)
        } else {
            None
        }
    }
}

/// Every kind reads back from its own token.
pub proof fn lemma_kind_token_round_trip(kind: AuditKind)
    ensures
        AuditKind::spec_from_token(kind.spec_str()) == Some(kind),
{
    reveal_strlit("run_lifecycle");
    reveal_strlit("classification");
    reveal_strlit("triage_action");
    reveal_strlit("download_result");
    reveal_strlit("analyze_result");
    reveal_strlit("dedup_skip");
    reveal_strlit("export_result");
    assert("run_lifecycle"@.len() == 13 && "classification"@.len() == 14);
    assert("triage_action"@.len() == 13 && "download_result"@.len() == 15);
    assert("analyze_result"@.len() == 14 && "dedup_skip"@.len() == 10);
    assert("export_result"@.len() == 13);
    assert("run_lifecycle"@[0] != "triage_action"@[0]);
    assert("run_lifecycle"@[0] != "export_result"@[0]);
    assert("triage_action"@[0] != "export_result"@[0]);
    assert("classification"@[0] != "analyze_result"@[0]);
}

/// The outcome of an audited event.
#[derive(Debug, Clone, Copy, PartialEq, Eq, Structural)]
pub enum AuditOutcome {
    /// A stage/run began.
    Started,
    /// A stage/run finished successfully.
    Completed,
    /// A new entity (crate/decision/file) was created.
    Created,
    /// An existing entity was updated.
    Updated,
    /// Skipped because it duplicates an existing track.
    SkippedDuplicate,
    /// Skipped because the track has no local audio.
    SkippedNoAudio,
    /// The operation failed (per-item, non-fatal).
    Failed,
}

impl AuditOutcome {
    /// Persistence token.
    pub open spec fn spec_str(self) -> Seq<char> {
        match self {
            AuditOutcome::Started => "started"@,
            AuditOutcome::Completed => "completed"@,
            AuditOutcome::Created => "created"@,
            AuditOutcome::Updated => "updated"@,
            AuditOutcome::SkippedDuplicate => "skipped_duplicate"@,
            AuditOutcome::SkippedNoAudio => "skipped_no_audio"@,
            AuditOutcome::Failed => "failed"@,
        }
    }

    /// The outcome a token names, if any.
    pub open spec fn spec_from_token(token: Seq<char>) -> Option<AuditOutcome> {
        if token == "started"@ {
            Some(AuditOutcome::Started)
        } else if token == "completed"@ {
            Some(AuditOutcome::Completed)
        } else if token == "created"@ {
            Some(AuditOutcome::Created)
        } else if token == "updated"@ {
            Some(AuditOutcome::Updated)
        } else if token == "skipped_duplicate"@ {
            Some(AuditOutcome::SkippedDuplicate)
        } else if token == "skipped_no_audio"@ {
            Some(AuditOutcome::SkippedNoAudio)
        } else if token == "failed"@ {
            Some(AuditOutcome::Failed)
        } else {
            None
        }
    }

    /// Lowercase persistence token.
    pub fn as_str(self) -> (s: &'static str)
        ensures
            s@ == self.spec_str(),
    {
        match self {
            AuditOutcome::Started => "started",
            AuditOutcome::Completed => "completed",
            AuditOutcome::Created => "created",
            AuditOutcome::Updated => "updated",
            AuditOutcome::SkippedDuplicate => "skipped_duplicate",
            AuditOutcome::SkippedNoAudio => "skipped_no_audio",
            AuditOutcome::Failed => "failed",
        }
    }

    /// Parses a persistence token back into an outcome; `None` when unrecognized.
    pub fn from_token(token: &str) -> (r: Option<Self>)
        ensures
            r == Self::spec_from_token(token@),
    {
        if str_eq(token, "started") {
            Some(AuditOutcome::Started)
        } else if str_eq(token, "completed") {
            Some(AuditOutcome::Completed)
        } else if str_eq(token, "created") {
            Some(AuditOutcome::Created)
        } else if str_eq(token, "updated") {
            Some(AuditOutcome::Updated)
        } else if str_eq(token, "skipped_duplicate") {
            Some(AuditOutcome::SkippedDuplicate)
        } else if str_eq(token, "skipped_no_audio") {
            Some(AuditOutcome::SkippedNoAudio)
        } else if str_eq(token, "failed") {
            Some(AuditOutcome::Failed)
        } else {
            None
        }
    }
}

/// Every outcome reads back from its own token.
pub proof fn lemma_outcome_token_round_trip(outcome: AuditOutcome)
    ensures
        AuditOutcome::spec_from_token(outcome.spec_str()) == Some(outcome),
{
    reveal_strlit("started");
    reveal_strlit("completed");
    reveal_strlit("created");
    reveal_strlit("updated");
    reveal_strlit("skipped_duplicate");
    reveal_strlit("skipped_no_audio");
    reveal_strlit("failed");
    assert("started"@.len() == 7 && "completed"@.len() == 9 && "created"@.len() == 7);
    assert("updated"@.len() == 7 && "skipped_duplicate"@.len() == 17);
    assert("skipped_no_audio"@.len() == 16 && "failed"@.len() == 6);
    assert("started"@[0] != "created"@[0]);
    assert("started"@[0] != "updated"@[0]);
    assert("created"@[0] != "updated"@[0]);
}

/// The text of each key/value pair.
pub open spec fn pair_texts(v: Seq<(String, String)>) -> Seq<(Seq<char>, Seq<char>)> {
    v.map_values(|p: (String, String)| (p.0@, p.1@))
}

/// Whether the keys of `s` strictly ascend, so that each key occurs once.
pub open spec fn keys_ascend(s: Seq<(Seq<char>, Seq<char>)>) -> bool {
    forall|i: int, j: int| 0 <= i < j < s.len() ==> seq_lt(#[trigger] s[i].0, #[trigger] s[j].0)
}

/// `s` with `key` set to `value`: the pair replaces the one with that key, or goes in before
/// the first larger key.
pub open spec fn detail_insert(
    s: Seq<(Seq<char>, Seq<char>)>,
    key: Seq<char>,
    value: Seq<char>,
) -> Seq<(Seq<char>, Seq<char>)>
    decreases s.len(),
{
    if s.len() == 0 {
        seq![(key, value)]
    } else if seq_lt(s[0].0, key) {
        seq![s[0]] + detail_insert(s.drop_first(), key, value)
    } else if s[0].0 == key {
        s.update(0, (key, value))
    } else {
        seq![(key, value)] + s
    }
}

/// The value stored under `key`, if any.
pub open spec fn detail_get(s: Seq<(Seq<char>, Seq<char>)>, key: Seq<char>) -> Option<Seq<char>>
    decreases s.len(),
{
    if s.len() == 0 {
        None
    } else if s[0].0 == key {
        Some(s[0].1)
    } else {
        detail_get(s.drop_first(), key)
    }
}

/// Structured, secret-free event detail: string key/values kept sorted by key, so it
/// serializes deterministically at the adapter edge.
#[derive(Debug, PartialEq, Eq)]
pub struct AuditDetail {
    entries: Vec<(String, String)>,
}

impl View for AuditDetail {
    type V = Seq<(Seq<char>, Seq<char>)>;

    closed spec fn view(&self) -> Seq<(Seq<char>, Seq<char>)> {
        pair_texts(self.entries@)
    }
}

/// Where `key` belongs in `s`: every earlier key is smaller, and the key there (if any) is not.
pub open spec fn is_slot(s: Seq<(Seq<char>, Seq<char>)>, key: Seq<char>, i: int) -> bool {
    &&& 0 <= i <= s.len()
    &&& forall|j: int| 0 <= j < i ==> seq_lt(#[trigger] s[j].0, key)
    &&& i < s.len() ==> !seq_lt(s[i].0, key)
}

/// Inserting at a slot is what `detail_insert` does.
proof fn lemma_insert_at_slot(
    s: Seq<(Seq<char>, Seq<char>)>,
    key: Seq<char>,
    value: Seq<char>,
    i: int,
)
    requires
        is_slot(s, key, i),
    ensures
        detail_insert(s, key, value) == (if i < s.len() && s[i].0 == key {
            s.update(i, (key, value))
        } else {
            s.insert(i, (key, value))
        }),
    decreases i,
{
    if i == 0 {
        if s.len() == 0 {
            assert(s.insert(0, (key, value)) =~= seq![(key, value)]);
        } else if s[0].0 != key {
            assert(s.insert(0, (key, value)) =~= seq![(key, value)] + s);
        }
    } else {
        let t = s.drop_first();
        assert(seq_lt(s[0].0, key));
        assert forall|j: int| 0 <= j < i - 1 implies seq_lt(#[trigger] t[j].0, key) by {
            assert(t[j] == s[j + 1]);
        }
        lemma_insert_at_slot(t, key, value, i - 1);
        if i < s.len() && s[i].0 == key {
            assert(seq![s[0]] + t.update(i - 1, (key, value)) =~= s.update(i, (key, value)));
        } else {
            assert(seq![s[0]] + t.insert(i - 1, (key, value)) =~= s.insert(i, (key, value)));
        }
    }
}

/// Inserting at a slot keeps the keys ascending.
proof fn lemma_insert_keeps_order(
    s: Seq<(Seq<char>, Seq<char>)>,
    key: Seq<char>,
    value: Seq<char>,
    i: int,
)
    requires
        is_slot(s, key, i),
        keys_ascend(s),
    ensures
        keys_ascend(detail_insert(s, key, value)),
{
    lemma_insert_at_slot(s, key, value, i);
    let r = detail_insert(s, key, value);
    if i < s.len() && s[i].0 == key {
        assert forall|a: int, b: int| 0 <= a < b < r.len() implies seq_lt(
            #[trigger] r[a].0,
            #[trigger] r[b].0,
        ) by {
            assert(r[a].0 == s[a].0);
            assert(r[b].0 == s[b].0);
        }
    } else {
        if i < s.len() {
            lemma_seq_lt_total(s[i].0, key);
        }
        assert forall|a: int, b: int| 0 <= a < b < r.len() implies seq_lt(
            #[trigger] r[a].0,
            #[trigger] r[b].0,
        ) by {
            if b < i {
                assert(r[a] == s[a] && r[b] == s[b]);
            } else if b == i {
                assert(r[a] == s[a]);
            } else if a == i {
                assert(r[b] == s[b - 1]);
                if b - 1 > i {
                    lemma_seq_lt_transitive(key, s[i].0, s[b - 1].0);
                }
            } else if a < i {
                assert(r[a] == s[a] && r[b] == s[b - 1]);
            } else {
                assert(r[a] == s[a - 1] && r[b] == s[b - 1]);
            }
        }
    }
}

/// Setting a key and reading it back gives the value set; every other key reads as before.
pub proof fn lemma_detail_get_insert(
    s: Seq<(Seq<char>, Seq<char>)>,
    key: Seq<char>,
    value: Seq<char>,
    other: Seq<char>,
)
    ensures
        detail_get(detail_insert(s, key, value), key) == Some(value),
        other != key ==> detail_get(detail_insert(s, key, value), other) == detail_get(s, other),
    decreases s.len(),
{
    if s.len() > 0 && seq_lt(s[0].0, key) {
        lemma_detail_get_insert(s.drop_first(), key, value, other);
        let r = detail_insert(s, key, value);
        assert(r.drop_first() =~= detail_insert(s.drop_first(), key, value));
        lemma_seq_lt_irreflexive(key);
    } else if s.len() > 0 && s[0].0 == key {
        assert(s.update(0, (key, value)).drop_first() =~= s.drop_first());
    } else {
        assert((seq![(key, value)] + s).drop_first() =~= s);
    }
}

impl AuditDetail {
    #[verifier::type_invariant]
    spec fn sorted(self) -> bool {
        keys_ascend(pair_texts(self.entries@))
    }

    /// An empty detail map.
    pub fn new() -> (d: Self)
        ensures
            d@ == Seq::<(Seq<char>, Seq<char>)>::empty(),
    {
        let d = AuditDetail { entries: Vec::new() };
        assert(d@ =~= Seq::<(Seq<char>, Seq<char>)>::empty());
        d
    }

    /// Returns a copy with `key` set to `value` (builder-style).
    pub fn with(self, key: &str, value: String) -> (d: Self)
        ensures
            d@ == detail_insert(self@, key@, value@),
    {
        proof {
            use_type_invariant(&self);
        }
        let ghost s = self@;
        let mut entries = self.entries;
        let n = entries.len();
        let mut i: usize = 0;
        while i < n && str_lt(entries[i].0.as_str(), key)
            invariant
                n == entries.len(),
                s == pair_texts(entries@),
                i <= n,
                forall|j: int| 0 <= j < i ==> seq_lt(#[trigger] s[j].0, key@),
            decreases n - i,
        {
            i = i + 1;
        }
        proof {
            lemma_insert_at_slot(s, key@, value@, i as int);
            lemma_insert_keeps_order(s, key@, value@, i as int);
        }
        if i < n && str_eq(entries[i].0.as_str(), key) {
            entries.set(i, (String::from_str(key), value));
            assert(pair_texts(entries@) =~= s.update(i as int, (key@, value@)));
        } else {
            let ghost before = entries@;
            entries.insert(i, (String::from_str(key), value));
            assert(pair_texts(entries@) =~= s.insert(i as int, (key@, value@)));
        }
        AuditDetail { entries }
    }

    /// The key/value pairs, sorted by key (used by the adapter to serialize).
    pub fn entries(&self) -> (e: &[(String, String)])
        ensures
            pair_texts(e@) == self@,
            keys_ascend(self@),
    {
        proof {
            use_type_invariant(self);
        }
        self.entries.as_slice()
    }

    /// Whether the detail map is empty.
    pub fn is_empty(&self) -> (b: bool)
        ensures
            b == (self@.len() == 0),
    {
        self.entries.len() == 0
    }
}

impl Clone for AuditDetail {
    fn clone(&self) -> (r: Self)
        ensures
            r@ == self@,
    {
        proof {
            use_type_invariant(self);
        }
        let mut entries: Vec<(String, String)> = Vec::new();
        let mut i: usize = 0;
        while i < self.entries.len()
            invariant
                i <= self.entries.len(),
                entries@ == self.entries@.take(i as int),
            decreases self.entries.len() - i,
        {
            let key = self.entries[i].0.clone();
            let value = self.entries[i].1.clone();
            entries.push((key, value));
            i = i + 1;
            assert(entries@ =~= self.entries@.take(i as int));
        }
        assert(self.entries@.take(self.entries.len() as int) =~= self.entries@);
        AuditDetail { entries }
    }
}

/// The abstract value of an audit event.
pub struct AuditEventView {
    /// Event identity.
    pub id: AuditEventId,
    /// The run this event belongs to.
    pub run_id: RunId,
    /// The track it concerns, if any.
    pub track_id: Option<TrackId>,
    /// The pipeline stage.
    pub stage: PipelineStage,
    /// The event category.
    pub kind: AuditKind,
    /// The outcome.
    pub outcome: AuditOutcome,
    /// The detail pairs.
    pub detail: Seq<(Seq<char>, Seq<char>)>,
    /// When it occurred.
    pub occurred_at: Timestamp,
}

/// A durable, queryable audit record.
#[derive(Debug, PartialEq, Eq)]
pub struct AuditEvent {
    id: AuditEventId,
    run_id: RunId,
    track_id: Option<TrackId>,
    stage: PipelineStage,
    kind: AuditKind,
    outcome: AuditOutcome,
    detail: AuditDetail,
    occurred_at: Timestamp,
}

/// Constructor input for an `AuditEvent`.
#[derive(Debug)]
pub struct NewAuditEvent {
    /// Minted event id.
    pub id: AuditEventId,
    /// The run this event belongs to.
    pub run_id: RunId,
    /// The track this event concerns, if any (`None` for run-level events).
    pub track_id: Option<TrackId>,
    /// The pipeline stage.
    pub stage: PipelineStage,
    /// The event category.
    pub kind: AuditKind,
    /// The outcome.
    pub outcome: AuditOutcome,
    /// Structured, secret-free detail.
    pub detail: AuditDetail,
    /// When it occurred.
    pub occurred_at: Timestamp,
}

impl View for AuditEvent {
    type V = AuditEventView;

    closed spec fn view(&self) -> AuditEventView {
        AuditEventView {
            id: self.id,
            run_id: self.run_id,
            track_id: self.track_id,
            stage: self.stage,
            kind: self.kind,
            outcome: self.outcome,
            detail: self.detail@,
            occurred_at: self.occurred_at,
        }
    }
}

impl NewAuditEvent {
    /// The abstract event these fields describe.
    pub open spec fn spec_event(self) -> AuditEventView {
        AuditEventView {
            id: self.id,
            run_id: self.run_id,
            track_id: self.track_id,
            stage: self.stage,
            kind: self.kind,
            outcome: self.outcome,
            detail: self.detail@,
            occurred_at: self.occurred_at,
        }
    }
}

impl Clone for AuditEvent {
    fn clone(&self) -> (r: Self)
        ensures
            r@ == self@,
    {
        AuditEvent {
            id: self.id,
            run_id: self.run_id,
            track_id: self.track_id,
            stage: self.stage,
            kind: self.kind,
            outcome: self.outcome,
            detail: self.detail.clone(),
            occurred_at: self.occurred_at,
        }
    }
}

impl AuditEvent {
    /// Builds an audit event from its grouped fields.
    pub fn new(fields: NewAuditEvent) -> (e: Self)
        ensures
            e@ == fields.spec_event(),
    {
        AuditEvent {
            id: fields.id,
            run_id: fields.run_id,
            track_id: fields.track_id,
            stage: fields.stage,
            kind: fields.kind,
            outcome: fields.outcome,
            detail: fields.detail,
            occurred_at: fields.occurred_at,
        }
    }

    /// Event identity.
    pub fn id(&self) -> (i: AuditEventId)
        ensures
            i == self@.id,
    {
        self.id
    }

    /// The correlating run id.
    pub fn run_id(&self) -> (r: RunId)
        ensures
            r == self@.run_id,
    {
        self.run_id
    }

    /// The track this event concerns, if any.
    pub fn track_id(&self) -> (t: Option<TrackId>)
        ensures
            t == self@.track_id,
    {
        self.track_id
    }

    /// The pipeline stage.
    pub fn stage(&self) -> (s: PipelineStage)
        ensures
            s == self@.stage,
    {
        self.stage
    }

    /// The event category.
    pub fn kind(&self) -> (k: AuditKind)
        ensures
            k == self@.kind,
    {
        self.kind
    }

    /// The outcome.
    pub fn outcome(&self) -> (o: AuditOutcome)
        ensures
            o == self@.outcome,
    {
        self.outcome
    }

    /// Structured, secret-free detail.
    pub fn detail(&self) -> (d: &AuditDetail)
        ensures
            d@ == self@.detail,
    {
        &self.detail
    }

    /// When it occurred.
    pub fn occurred_at(&self) -> (t: Timestamp)
        ensures
            t == self@.occurred_at,
    {
        self.occurred_at
    }
}

} // verus!
