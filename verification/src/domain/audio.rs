//! Deterministic audio-analysis results: tempo, harmonic key, loudness.
//!
//! Nothing here is inferred or fabricated to fill a gap: an undetectable key is `None`.
use vstd::prelude::*;
use crate::domain::camelot_key::CamelotKey;
use crate::domain::confidence::Energy;
use crate::text::str_eq;

verus! {

/// How much to trust a detected tempo.
///
/// Beat trackers routinely lock onto half or double the true tempo; an ambiguous estimate must
/// reach a human rather than be acted on silently.
#[derive(Debug, Clone, Copy, PartialEq, Eq, Structural)]
pub enum TempoAmbiguity {
    /// The estimate showed no half-/double-time conflict.
    Confident,
    /// The estimate is ambiguous with its half or double.
    HalfOrDoubleTime,
}

impl TempoAmbiguity {
    /// The persistence token.
    pub open spec fn spec_str(self) -> Seq<char> {
        match self {
            TempoAmbiguity::Confident => "confident"@,
            TempoAmbiguity::HalfOrDoubleTime => "half_or_double_time"@,
        }
    }

    /// The ambiguity a token names, if any.
    pub open spec fn spec_from_token(token: Seq<char>) -> Option<TempoAmbiguity> {
        if token == "confident"@ {
            Some(TempoAmbiguity::Confident)
        } else if token == "half_or_double_time"@ {
            Some(TempoAmbiguity::HalfOrDoubleTime)
        } else {
            None
        }
    }

    /// Whether the tempo is too ambiguous to act on without a human.
    pub fn is_uncertain(self) -> (b: bool)
        ensures
            b == (self == TempoAmbiguity::HalfOrDoubleTime),
    {
        match self {
            TempoAmbiguity::HalfOrDoubleTime => true,
            TempoAmbiguity::Confident => false,
        }
    }

    /// Lowercase persistence token.
    pub fn as_str(self) -> (s: &'static str)
        ensures
            s@ == self.spec_str(),
    {
        match self {
            TempoAmbiguity::Confident => "confident",
            TempoAmbiguity::HalfOrDoubleTime => "half_or_double_time",
        }
    }

    /// Parses a persistence token; an unrecognized token is `None`, never a default.
    pub fn from_token(token: &str) -> (r: Option<Self>)
        ensures
            r == Self::spec_from_token(token@),
    {
        if str_eq(token, "confident") {
            Some(TempoAmbiguity::Confident)
        } else if str_eq(token, "half_or_double_time") {
            Some(TempoAmbiguity::HalfOrDoubleTime)
        } else {
            None
        }
    }
}

/// Every ambiguity reads back from its own token.
pub proof fn lemma_tempo_token_round_trip(t: TempoAmbiguity)
    ensures
        TempoAmbiguity::spec_from_token(t.spec_str()) == Some(t),
{
    reveal_strlit("confident");
    reveal_strlit("half_or_double_time");
    assert("half_or_double_time"@.len() != "confident"@.len());
}

/// The deterministic features of one track's audio. Same file, same values.
#[derive(Debug, Clone, Copy, PartialEq, Eq, Structural)]
pub struct AudioFeatures {
    /// Detected tempo in beats per minute.
    pub bpm: u16,
    /// Whether that tempo is trustworthy enough to act on unattended.
    pub tempo_ambiguity: TempoAmbiguity,
    /// Detected Camelot key, or `None` when no key is detectable.
    pub key: Option<CamelotKey>,
    /// Normalized loudness-derived energy.
    pub energy: Energy,
}

} // verus!
