//! The audio analyzer port: deterministic BPM/key/energy for a downloaded file.
use vstd::prelude::*;
use crate::domain::audio::AudioFeatures;

verus! {

/// Failure analyzing audio. Per-track failure is a reported skip, never a run-stopper.
#[derive(Debug, Clone, Copy, PartialEq, Eq, Structural)]
pub enum AnalyzeError {
    /// The file could not be decoded to PCM.
    Decode,
    /// Decoding succeeded but the analysis stage failed.
    Analysis,
    /// The file holds no analyzable audio at all (silence).
    Silence,
}

/// Computes deterministic BPM/key/energy for the audio file at a path. Same file, same result.
pub trait AudioAnalyzerPort {
    /// Analyzes the audio at `audio_path`.
    fn analyze(&self, audio_path: &str) -> Result<AudioFeatures, AnalyzeError>;
}

} // verus!
