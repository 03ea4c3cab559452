//! The playlist publisher port's data (playlist write is reserved for a later version).
use vstd::prelude::*;

verus! {

/// Where a crate's tracks are published.
#[derive(Debug, PartialEq, Eq)]
pub enum PublishTarget {
    /// Create a new playlist.
    NewPlaylist,
    /// Fill an existing playlist by id.
    ExistingPlaylist(String),
}

/// The result of a publish, deduplicated against the playlist's existing contents.
#[derive(Debug, Clone, Copy, PartialEq, Eq, Structural)]
pub struct PublishOutcome {
    /// Whether a new playlist was created.
    pub created: bool,
    /// Number of tracks added.
    pub added: usize,
    /// Number of tracks skipped because already present.
    pub skipped: usize,
}

/// Failure publishing.
#[derive(Debug, Clone, Copy, PartialEq, Eq, Structural)]
pub enum PublishError {
    /// Authentication/authorization failed.
    Unauthorized,
    /// The target playlist was not found.
    PlaylistNotFound,
    /// A transport failure.
    Transport,
}

} // verus!
