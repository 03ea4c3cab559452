//! Classifier double: returns a preloaded suggestion (or fails) and counts calls.
use vstd::prelude::*;
use crate::application::ports::genre_vibe_classifier::{ClassifyError, GenreVibeSuggestion};

verus! {

/// A classifier that returns a fixed suggestion and counts calls, or fails with
/// `BadResponse`.
#[derive(Debug)]
pub struct StubGenreVibeClassifier {
    suggestion: Option<GenreVibeSuggestion>,
    calls: usize,
}

impl StubGenreVibeClassifier {
    /// The configured answer (`None` for a failing stub).
    pub closed spec fn spec_suggestion(&self) -> Option<GenreVibeSuggestion> {
        self.suggestion
    }

    /// How many times `classify` was invoked.
    pub closed spec fn spec_calls(&self) -> nat {
        self.calls as nat
    }

    /// Builds a stub that always returns `suggestion`.
    pub fn always(suggestion: GenreVibeSuggestion) -> (s: Self)
        ensures
            s.spec_suggestion() == Some(suggestion),
            s.spec_calls() == 0,
    {
        StubGenreVibeClassifier { suggestion: Some(suggestion), calls: 0 }
    }

    /// Builds a stub that always fails with `BadResponse`.
    pub fn failing() -> (s: Self)
        ensures
            s.spec_suggestion() is None,
            s.spec_calls() == 0,
    {
        StubGenreVibeClassifier { suggestion: None, calls: 0 }
    }

    /// Number of times `classify` was invoked.
    pub fn call_count(&self) -> (n: usize)
        ensures
            n == self.spec_calls(),
    {
        self.calls
    }

    /// Answers with the configured suggestion, counting the call.
    pub fn classify(&mut self) -> (r: Result<GenreVibeSuggestion, ClassifyError>)
        requires
            old(self).spec_calls() < usize::MAX,
        ensures
            final(self).spec_calls() == old(self).spec_calls() + 1,
            final(self).spec_suggestion() == old(self).spec_suggestion(),
            match old(self).spec_suggestion() {
                Some(s) => r matches Ok(got) && got.candidates@ == s.candidates@ && got.vibe_tags@
                    == s.vibe_tags@,
                None => r == Err::<GenreVibeSuggestion, ClassifyError>(ClassifyError::BadResponse),
            },
    {
        self.calls = self.calls + 1;
        match &self.suggestion {
            Some(s) => Ok(s.clone()),
            None => Err(ClassifyError::BadResponse),
        }
    }
}

} // verus!
