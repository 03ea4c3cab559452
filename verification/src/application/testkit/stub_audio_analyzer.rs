//! Analyzer double: returns preloaded features (or a preloaded failure) and counts calls.
use vstd::prelude::*;
use crate::application::ports::audio_analyzer::AnalyzeError;
use crate::domain::audio::{AudioFeatures, TempoAmbiguity};
use crate::domain::camelot_key::{CamelotKey, CamelotLetter};
use crate::domain::confidence::Energy;

verus! {

/// What the stub does when asked to analyze.
#[derive(Debug, Clone, Copy, PartialEq, Eq, Structural)]
pub enum AnalyzerBehavior {
    /// Return fixed features.
    Return(AudioFeatures),
    /// Fail the way an undecodable file does.
    Decode,
    /// Report the file as holding no analyzable audio.
    Silence,
}

/// An analyzer returning fixed features, deterministic by construction.
#[derive(Debug)]
pub struct StubAudioAnalyzer {
    behavior: AnalyzerBehavior,
    calls: usize,
}

impl View for StubAudioAnalyzer {
    type V = (AnalyzerBehavior, nat);

    closed spec fn view(&self) -> (AnalyzerBehavior, nat) {
        (self.behavior, self.calls as nat)
    }
}

/// Confident 128 BPM, key 8B, energy 80 — or an ambiguous 70 BPM with the same key and energy.
fn plausible_features(bpm: u16, tempo_ambiguity: TempoAmbiguity) -> (f: AudioFeatures)
    ensures
        f.bpm == bpm,
        f.tempo_ambiguity == tempo_ambiguity,
        f.key is Some && f.key->0@ == (8int, CamelotLetter::B),
        f.energy@ == 80,
{
    AudioFeatures {
        bpm,
        tempo_ambiguity,
        key: Some(CamelotKey::new(8, CamelotLetter::B).unwrap()),
        energy: Energy::new(80).unwrap(),
    }
}

impl StubAudioAnalyzer {
    /// Builds a stub returning `features` for every file.
    pub fn returning(features: AudioFeatures) -> (s: Self)
        ensures
            s@ == (AnalyzerBehavior::Return(features), 0nat),
    {
        Self::with(AnalyzerBehavior::Return(features))
    }

    /// Builds a stub returning plausible confident features (128 BPM, 8B, energy 80).
    pub fn typical() -> (s: Self)
        ensures
            s@.1 == 0,
            s@.0 matches AnalyzerBehavior::Return(f) && f.bpm == 128 && f.tempo_ambiguity
                == TempoAmbiguity::Confident && f.key is Some && f.key->0@ == (8int, CamelotLetter::B)
                && f.energy@ == 80,
    {
        Self::returning(plausible_features(128, TempoAmbiguity::Confident))
    }

    /// Builds a stub whose tempo is ambiguous with its half/double (70 BPM, 8B, energy 80).
    pub fn uncertain_tempo() -> (s: Self)
        ensures
            s@.1 == 0,
            s@.0 matches AnalyzerBehavior::Return(f) && f.bpm == 70 && f.tempo_ambiguity
                == TempoAmbiguity::HalfOrDoubleTime && f.key is Some && f.key->0@ == (8int, CamelotLetter::B)
                && f.energy@ == 80,
    {
        Self::returning(plausible_features(70, TempoAmbiguity::HalfOrDoubleTime))
    }

    /// Builds a stub that fails to decode every file.
    pub fn failing() -> (s: Self)
        ensures
            s@ == (AnalyzerBehavior::Decode, 0nat),
    {
        Self::with(AnalyzerBehavior::Decode)
    }

    /// Builds a stub that reports every file as holding no analyzable audio.
    pub fn silent() -> (s: Self)
        ensures
            s@ == (AnalyzerBehavior::Silence, 0nat),
    {
        Self::with(AnalyzerBehavior::Silence)
    }

    /// Number of times `analyze` was invoked.
    pub fn call_count(&self) -> (n: usize)
        ensures
            n == self@.1,
    {
        self.calls
    }

    /// Builds a stub with the given behavior.
    fn with(behavior: AnalyzerBehavior) -> (s: Self)
        ensures
            s@ == (behavior, 0nat),
    {
        StubAudioAnalyzer { behavior, calls: 0 }
    }

    /// Analyzes a file the configured way, counting the call.
    pub fn analyze(&mut self, _audio_path: &str) -> (r: Result<AudioFeatures, AnalyzeError>)
        requires
            old(self)@.1 < usize::MAX,
        ensures
            final(self)@ == (old(self)@.0, old(self)@.1 + 1),
            r == (match old(self)@.0 {
                AnalyzerBehavior::Return(f) => Ok::<AudioFeatures, AnalyzeError>(f),
                AnalyzerBehavior::Decode => Err(AnalyzeError::Decode),
                AnalyzerBehavior::Silence => Err(AnalyzeError::Silence),
            }),
    {
        self.calls = self.calls + 1;
        match self.behavior {
            AnalyzerBehavior::Return(features) => Ok(features),
            AnalyzerBehavior::Decode => Err(AnalyzeError::Decode),
            AnalyzerBehavior::Silence => Err(AnalyzeError::Silence),
        }
    }
}

} // verus!
