//! Application `Settings` — the single-row app state.
use vstd::prelude::*;
use crate::domain::confidence::ConfidenceThreshold;
use crate::text::str_eq;

verus! {

/// Default confidence cutoff, in thousandths: lands most tracks in auto-classification while
/// sending the genuinely ambiguous tail to triage.
pub const DEFAULT_CONFIDENCE_THRESHOLD: u16 = 600;

/// Where classified crates are exported.
#[derive(Debug, Clone, Copy, PartialEq, Eq, Structural)]
pub enum ExportMode {
    /// Export to per-crate local folders.
    Local,
    /// Publish to SoundCloud playlists.
    SoundCloud,
    /// Both local and SoundCloud.
    Both,
}

impl ExportMode {
    /// Persistence token.
    pub open spec fn spec_str(self) -> Seq<char> {
        match self {
            ExportMode::Local => "local"@,
            ExportMode::SoundCloud => "soundcloud"@,
            ExportMode::Both => "both"@,
        }
    }

    /// The mode a token names, defaulting to `Local` for unknown input.
    pub open spec fn spec_from_token(token: Seq<char>) -> ExportMode {
        if token == "soundcloud"@ {
            ExportMode::SoundCloud
        } else if token == "both"@ {
            ExportMode::Both
        } else {
            ExportMode::Local
        }
    }

    /// Lowercase persistence token.
    pub fn as_str(self) -> (s: &'static str)
        ensures
            s@ == self.spec_str(),
    {
        match self {
            ExportMode::Local => "local",
            ExportMode::SoundCloud => "soundcloud",
            ExportMode::Both => "both",
        }
    }

    /// Parses a persistence token back into an export mode, defaulting to `Local`.
    pub fn from_token(token: &str) -> (m: Self)
        ensures
            m == Self::spec_from_token(token@),
    {
        if str_eq(token, "soundcloud") {
            ExportMode::SoundCloud
        } else if str_eq(token, "both") {
            ExportMode::Both
        } else {
            ExportMode::Local
        }
    }
}

/// Every export mode reads back from its own token.
pub proof fn lemma_export_token_round_trip(mode: ExportMode)
    ensures
        ExportMode::spec_from_token(mode.spec_str()) == mode,
{
    reveal_strlit("local");
    reveal_strlit("soundcloud");
    reveal_strlit("both");
    assert("local"@.len() == 5 && "soundcloud"@.len() == 10 && "both"@.len() == 4);
}

/// The app's mutable settings (persisted as a single row).
#[derive(Debug, Clone, Copy, PartialEq, Eq, Structural)]
pub struct Settings {
    confidence_threshold: ConfidenceThreshold,
    download_enabled: bool,
    export_mode: ExportMode,
}

impl View for Settings {
    type V = (ConfidenceThreshold, bool, ExportMode);

    closed spec fn view(&self) -> (ConfidenceThreshold, bool, ExportMode) {
        (self.confidence_threshold, self.download_enabled, self.export_mode)
    }
}

impl Settings {
    /// Builds settings from explicit values.
    pub fn new(
        confidence_threshold: ConfidenceThreshold,
        download_enabled: bool,
        export_mode: ExportMode,
    ) -> (s: Self)
        ensures
            s@ == (confidence_threshold, download_enabled, export_mode),
    {
        Settings { confidence_threshold, download_enabled, export_mode }
    }

    /// The confidence cutoff for auto-classification vs triage.
    pub fn confidence_threshold(&self) -> (t: ConfidenceThreshold)
        ensures
            t == self@.0,
    {
        self.confidence_threshold
    }

    /// Whether opt-in audio download is enabled (default off).
    pub fn download_enabled(&self) -> (b: bool)
        ensures
            b == self@.1,
    {
        self.download_enabled
    }

    /// The export target mode.
    pub fn export_mode(&self) -> (m: ExportMode)
        ensures
            m == self@.2,
    {
        self.export_mode
    }

    /// Returns a copy with a new confidence threshold.
    pub fn with_confidence_threshold(&self, threshold: ConfidenceThreshold) -> (s: Self)
        ensures
            s@ == (threshold, self@.1, self@.2),
    {
        Settings { confidence_threshold: threshold, ..*self }
    }

    /// Returns a copy with download enablement set to `enabled`.
    pub fn with_download_enabled(&self, enabled: bool) -> (s: Self)
        ensures
            s@ == (self@.0, enabled, self@.2),
    {
        Settings { download_enabled: enabled, ..*self }
    }
}

impl Default for Settings {
    /// Safe defaults: the tuned threshold, download off, local export.
    fn default() -> (s: Self)
        ensures
            s@.0@ == DEFAULT_CONFIDENCE_THRESHOLD,
            s@.1 == false,
            s@.2 == ExportMode::Local,
    {
        let threshold = ConfidenceThreshold::new(DEFAULT_CONFIDENCE_THRESHOLD).unwrap();
        Settings::new(threshold, false, ExportMode::Local)
    }
}

} // verus!
