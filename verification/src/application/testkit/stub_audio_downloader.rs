//! Downloader double: decides each download's fate and counts calls; the placeholder file
//! itself is written by the caller.
use vstd::prelude::*;
use crate::application::ports::audio_downloader::DownloadError;
use crate::domain::track::Track;

verus! {

/// What the stub does when asked to download.
#[derive(Debug, Clone, Copy, PartialEq, Eq, Structural)]
pub enum DownloaderBehavior {
    /// Write a placeholder file and return its path.
    Succeed,
    /// Fail the way a deleted or geo-blocked track does.
    Unavailable,
    /// Fail the way a missing download tool does.
    ToolMissing,
}

/// A downloader that counts calls, so a test can prove the opt-in gate actually gates.
#[derive(Debug)]
pub struct StubAudioDownloader {
    behavior: DownloaderBehavior,
    calls: usize,
}

impl View for StubAudioDownloader {
    type V = (DownloaderBehavior, nat);

    closed spec fn view(&self) -> (DownloaderBehavior, nat) {
        (self.behavior, self.calls as nat)
    }
}

impl StubAudioDownloader {
    /// Builds a stub that writes a placeholder file for every track.
    pub fn available() -> (s: Self)
        ensures
            s@ == (DownloaderBehavior::Succeed, 0nat),
    {
        Self::with(DownloaderBehavior::Succeed)
    }

    /// Builds a stub that reports every track as unavailable.
    pub fn unavailable() -> (s: Self)
        ensures
            s@ == (DownloaderBehavior::Unavailable, 0nat),
    {
        Self::with(DownloaderBehavior::Unavailable)
    }

    /// Builds a stub that reports the download tool as missing.
    pub fn tool_missing() -> (s: Self)
        ensures
            s@ == (DownloaderBehavior::ToolMissing, 0nat),
    {
        Self::with(DownloaderBehavior::ToolMissing)
    }

    /// Number of times a download was attempted — `0` proves the opt-in gate held.
    pub fn call_count(&self) -> (n: usize)
        ensures
            n == self@.1,
    {
        self.calls
    }

    /// Builds a stub with the given behavior.
    fn with(behavior: DownloaderBehavior) -> (s: Self)
        ensures
            s@ == (behavior, 0nat),
    {
        StubAudioDownloader { behavior, calls: 0 }
    }

    /// Counts one download attempt and says whether it succeeds (the caller then writes the
    /// placeholder file) or how it fails.
    pub fn attempt(&mut self) -> (r: Result<(), DownloadError>)
        requires
            old(self)@.1 < usize::MAX,
        ensures
            final(self)@ == (old(self)@.0, old(self)@.1 + 1),
            r == (match old(self)@.0 {
                DownloaderBehavior::Succeed => Ok::<(), DownloadError>(()),
                DownloaderBehavior::Unavailable => Err(DownloadError::Unavailable),
                DownloaderBehavior::ToolMissing => Err(DownloadError::ToolMissing),
            }),
    {
        self.calls = self.calls + 1;
        match self.behavior {
            DownloaderBehavior::Succeed => Ok(()),
            DownloaderBehavior::Unavailable => Err(DownloadError::Unavailable),
            DownloaderBehavior::ToolMissing => Err(DownloadError::ToolMissing),
        }
    }

    /// The placeholder file's name for a track: its source id with an `.mp3` extension.
    pub fn file_name(track: &Track) -> (name: String)
        ensures
            name@ == track@.source_track_id + ".mp3"@,
    {
        let mut name = track.source_track_id().to_owned();
        name.append(".mp3");
        name
    }
}

} // verus!
