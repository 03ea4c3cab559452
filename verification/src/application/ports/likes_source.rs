//! The likes source port: a resolved user, the ways reading likes fails, and the port itself.
use vstd::prelude::*;
use crate::domain::track::LikedTrack;

verus! {

/// A resolved source user identity (opaque string id).
#[derive(Debug, PartialEq, Eq)]
pub struct SourceUserId {
    id: String,
}

impl SourceUserId {
    /// Wraps a raw source user id.
    pub fn new(id: String) -> (u: Self)
        ensures
            u.spec_id() == id@,
    {
        SourceUserId { id }
    }

    /// The id's text.
    pub closed spec fn spec_id(&self) -> Seq<char> {
        self.id@
    }

    /// The underlying id string.
    pub fn as_str(&self) -> (s: &str)
        ensures
            s@ == self.spec_id(),
    {
        self.id.as_str()
    }
}

/// Failure reading likes.
#[derive(Debug, Clone, Copy, PartialEq, Eq, Structural)]
pub enum LikesSourceError {
    /// The profile could not be resolved.
    ProfileNotFound,
    /// The profile (or its likes) is private.
    ProfilePrivate,
    /// The source rate-limited us.
    RateLimited,
    /// A transport/parse failure talking to the source.
    Transport,
}

/// Reads public likes and resolves profile URLs (pagination is the source's own affair).
pub trait LikesSourcePort {
    /// Resolves a public profile URL to a stable source user id.
    fn resolve_user(&self, profile_url: &str) -> Result<SourceUserId, LikesSourceError>;

    /// Returns every publicly readable liked track.
    fn list_likes(&self, user: &SourceUserId) -> Result<Vec<LikedTrack>, LikesSourceError>;
}

} // verus!
