//! In-memory settings store: the defaults until something is saved.
use vstd::prelude::*;
use crate::domain::settings::Settings;

verus! {

/// Holds one `Settings` value in memory (defaults until saved).
#[derive(Debug)]
pub struct InMemorySettingsRepository {
    settings: Option<Settings>,
}

impl View for InMemorySettingsRepository {
    type V = Option<Settings>;

    closed spec fn view(&self) -> Option<Settings> {
        self.settings
    }
}

impl InMemorySettingsRepository {
    /// Builds a repository with nothing saved yet.
    pub fn new() -> (r: Self)
        ensures
            r@ is None,
    {
        InMemorySettingsRepository { settings: None }
    }

    /// Returns the saved settings, or the defaults when nothing was saved.
    pub fn load(&self) -> (s: Settings)
        ensures
            match self@ {
                Some(saved) => s == saved,
                None => s@.0@ == 600 && s@.1 == false && s@.2
                    == crate::domain::settings::ExportMode::Local,
            },
    {
        match self.settings {
            Some(saved) => saved,
            None => Settings::default(),
        }
    }

    /// Persists `settings`, overwriting what was saved.
    pub fn save(&mut self, settings: Settings)
        ensures
            final(self)@ == Some(settings),
    {
        self.settings = Some(settings);
    }
}

} // verus!
