//! The tag writer port's data: ID3 values and the ways writing fails.
use vstd::prelude::*;
use crate::domain::camelot_key::CamelotKey;
use crate::domain::confidence::Energy;

verus! {

/// The tag values written into a file's ID3 frames.
#[derive(Debug, PartialEq, Eq)]
pub struct TrackTags {
    /// Genre.
    pub genre: String,
    /// BPM, if analyzed.
    pub bpm: Option<u16>,
    /// Camelot key, if analyzed.
    pub key: Option<CamelotKey>,
    /// Energy, if analyzed.
    pub energy: Option<Energy>,
    /// Vibe tags.
    pub vibe_tags: Vec<String>,
}

/// Failure writing tags or a playlist.
#[derive(Debug, Clone, Copy, PartialEq, Eq, Structural)]
pub enum TagWriteError {
    /// The track has no local audio to tag.
    NoAudio,
    /// The audio format is not supported for tagging.
    UnsupportedFormat,
    /// A local I/O failure.
    Io,
}

} // verus!
