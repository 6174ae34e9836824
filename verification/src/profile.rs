//! Public profiles and the follow relationship's guard.

use vstd::prelude::*;

use crate::errors::{DomainError, DomainResult};
use crate::identifiers::UserId;
use crate::user::{ImageUrl, Username};

verus! {

#[derive(Debug)]
pub struct Profile {
    pub username: Username,
    pub bio: Option<String>,
    pub image: Option<ImageUrl>,
    pub following: bool,
}

impl Clone for Profile {
    fn clone(&self) -> (r: Self)
        ensures
            r.username@ == self.username@,
            crate::user::opt_str_view(r.bio) == crate::user::opt_str_view(self.bio),
            crate::user::opt_image_view(r.image) == crate::user::opt_image_view(self.image),
            r.following == self.following,
    {
        let bio = match &self.bio {
            Some(b) => Some(b.clone()),
            None => None,
        };
        let image = match &self.image {
            Some(im) => Some(im.clone()),
            None => None,
        };
        Profile { username: self.username.clone(), bio, image, following: self.following }
    }
}

impl Profile {
    pub fn new(username: Username, bio: Option<String>, image: Option<ImageUrl>, following: bool) -> (r:
        Profile)
        ensures
            r.username == username,
            r.bio == bio,
            r.image == image,
            r.following == following,
    {
        Profile { username, bio, image, following }
    }

    pub fn follow(&mut self)
        ensures
            final(self).following == true,
            final(self).username == old(self).username,
            final(self).bio == old(self).bio,
            final(self).image == old(self).image,
    {
        self.following = true;
    }

    pub fn unfollow(&mut self)
        ensures
            final(self).following == false,
            final(self).username == old(self).username,
            final(self).bio == old(self).bio,
            final(self).image == old(self).image,
    {
        self.following = false;
    }

    /// A user may not follow or unfollow themselves.
    pub fn validate_follow_action(target_id: &UserId, follower_id: &UserId) -> (r: DomainResult<
        (),
    >)
        ensures
            r is Ok <==> target_id != follower_id,
            r matches Err(e) ==> e == DomainError::UnauthorizedAction,
    {
        if target_id.0 == follower_id.0 {
            Err(DomainError::UnauthorizedAction)
        } else {
            Ok(())
        }
    }
}

#[derive(Debug)]
pub struct ProfileEnvelope {
    pub profile: Profile,
}

impl From<Profile> for ProfileEnvelope {
    fn from(value: Profile) -> (r: ProfileEnvelope) {
        ProfileEnvelope { profile: value }
    }
}

impl vstd::std_specs::convert::FromSpecImpl<Profile> for ProfileEnvelope {
    open spec fn obeys_from_spec() -> bool {
        true
    }

    open spec fn from_spec(value: Profile) -> ProfileEnvelope {
        ProfileEnvelope { profile: value }
    }
}

} // verus!
