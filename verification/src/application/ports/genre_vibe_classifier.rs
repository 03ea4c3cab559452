//! The genre/vibe classifier port's data: what is asked and what comes back.
use vstd::prelude::*;
use crate::domain::confidence::Confidence;
use crate::text::clone_strings;

verus! {

/// The text signals handed to the classifier. Audio features are never sent here.
#[derive(Debug, PartialEq, Eq)]
pub struct ClassificationInput {
    /// Track title.
    pub title: String,
    /// Artist / uploader.
    pub artist: String,
    /// Source genre tag, if any.
    pub source_genre: Option<String>,
    /// Free-text description, if available.
    pub description: Option<String>,
}

/// One candidate genre with the model's confidence in it.
#[derive(Debug, PartialEq, Eq)]
pub struct GenreCandidate {
    /// The candidate genre label.
    pub genre: String,
    /// The model's confidence for this candidate.
    pub confidence: Confidence,
}

impl Clone for GenreCandidate {
    fn clone(&self) -> (r: Self)
        ensures
            r == *self,
    {
        GenreCandidate { genre: self.genre.clone(), confidence: self.confidence }
    }
}

/// The classifier's answer: genre candidates plus vibe tags.
#[derive(Debug, PartialEq, Eq)]
pub struct GenreVibeSuggestion {
    /// Candidate genres, in the order the model gave them.
    pub candidates: Vec<GenreCandidate>,
    /// Optional vibe/mood tags.
    pub vibe_tags: Vec<String>,
}

impl Clone for GenreVibeSuggestion {
    fn clone(&self) -> (r: Self)
        ensures
            r.candidates@ == self.candidates@,
            r.vibe_tags@ == self.vibe_tags@,
    {
        let candidates = self.candidates.clone();
        assert(candidates@ =~= self.candidates@);
        GenreVibeSuggestion { candidates, vibe_tags: clone_strings(&self.vibe_tags) }
    }
}

/// Failure classifying. Every failure is treated as "no genre determined".
#[derive(Debug, Clone, Copy, PartialEq, Eq, Structural)]
pub enum ClassifyError {
    /// The provider rate-limited us.
    RateLimited,
    /// A transport failure talking to the provider.
    Transport,
    /// The response did not match the expected schema.
    BadResponse,
}

} // verus!
