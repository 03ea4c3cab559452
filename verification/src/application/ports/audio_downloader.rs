//! The audio downloader port's data: the produced file and the ways a download fails.
use vstd::prelude::*;

verus! {

/// The local file produced by a successful download.
#[derive(Debug, PartialEq, Eq)]
pub struct DownloadedAudio {
    /// Absolute path to the downloaded audio file.
    pub path: String,
}

/// Failure downloading one track. Per-track failure is a reported skip, never a run-stopper.
#[derive(Debug, Clone, Copy, PartialEq, Eq, Structural)]
pub enum DownloadError {
    /// The track is deleted, geo-blocked, or otherwise unavailable.
    Unavailable,
    /// The download tool is not installed.
    ToolMissing,
    /// A local I/O failure writing the file.
    Io,
}

} // verus!
