//! Likes-source double: resolves any profile to a fixed user and returns preloaded likes.
use vstd::prelude::*;
use crate::application::ports::likes_source::{LikesSourceError, LikesSourcePort, SourceUserId};
use crate::domain::track::LikedTrack;

verus! {

/// A likes source resolving any profile URL to a fixed user id with a preloaded set of likes;
/// `profile_not_found` exercises the resolve failure.
#[derive(Debug)]
pub struct StubLikesSource {
    user_id: String,
    likes: Vec<LikedTrack>,
    profile_not_found: bool,
}

impl StubLikesSource {
    /// The user id every profile resolves to.
    pub closed spec fn spec_user_id(&self) -> Seq<char> {
        self.user_id@
    }

    /// The preloaded likes.
    pub closed spec fn spec_likes(&self) -> Seq<LikedTrack> {
        self.likes@
    }

    /// Whether resolving fails.
    pub closed spec fn spec_not_found(&self) -> bool {
        self.profile_not_found
    }

    /// Builds a stub that resolves to `user_id` and returns `likes`.
    pub fn with_likes(user_id: String, likes: Vec<LikedTrack>) -> (s: Self)
        ensures
            s.spec_user_id() == user_id@,
            s.spec_likes() == likes@,
            !s.spec_not_found(),
    {
        StubLikesSource { user_id, likes, profile_not_found: false }
    }

    /// Builds a stub whose `resolve_user` fails with `ProfileNotFound`.
    pub fn profile_not_found() -> (s: Self)
        ensures
            s.spec_likes().len() == 0,
            s.spec_not_found(),
    {
        StubLikesSource { user_id: String::new(), likes: Vec::new(), profile_not_found: true }
    }
}

impl LikesSourcePort for StubLikesSource {
    /// Resolves any profile URL to the fixed user, or fails with `ProfileNotFound`.
    fn resolve_user(&self, _profile_url: &str) -> (r: Result<SourceUserId, LikesSourceError>)
        ensures
            self.spec_not_found() ==> r == Err::<SourceUserId, LikesSourceError>(
                LikesSourceError::ProfileNotFound,
            ),
            !self.spec_not_found() ==> (r matches Ok(u) && u.spec_id() == self.spec_user_id()),
    {
        if self.profile_not_found {
            return Err(LikesSourceError::ProfileNotFound);
        }
        Ok(SourceUserId::new(self.user_id.clone()))
    }

    /// Returns the preloaded likes.
    fn list_likes(&self, _user: &SourceUserId) -> (r: Result<Vec<LikedTrack>, LikesSourceError>)
        ensures
            r matches Ok(v) && v@ == self.spec_likes(),
    {
        let v = self.likes.clone();
        assert(v@ =~= self.likes@);
        Ok(v)
    }
}

} // verus!
