//! Users and the validated text values around them.

use vstd::prelude::*;
use vstd::utf8::encode_utf8;

use crate::errors::{DomainError, DomainResult};
use crate::identifiers::UserId;
use crate::profile::Profile;
use crate::text::{contains_char, trim_str, trimmed};
use crate::time::Timestamp;

verus! {

/// An email address: trimmed, non-empty, containing an `@`.
#[derive(Debug, PartialEq, Eq)]
pub struct Email(String);

impl View for Email {
    type V = Seq<char>;

    closed spec fn view(&self) -> Seq<char> {
        self.0@
    }
}

impl Clone for Email {
    fn clone(&self) -> (r: Self)
        ensures
            r@ == self@,
    {
        Email(self.0.clone())
    }
}

impl Email {
    pub fn parse(value: String) -> (r: DomainResult<Email>)
        ensures
            match r {
                Ok(e) => e@ == trimmed(value@) && trimmed(value@).len() > 0 && trimmed(
                    value@,
                ).contains('@'),
                Err(err) => err == DomainError::InvalidEmail && (trimmed(value@).len() == 0
                    || !trimmed(value@).contains('@')),
            },
    {
        let t = trim_str(value.as_str());
        if t.as_str().is_empty() || !contains_char(t.as_str(), '@') {
            Err(DomainError::InvalidEmail)
        } else {
            Ok(Email(t))
        }
    }

    pub fn as_str(&self) -> (r: &str)
        ensures
            r@ == self@,
    {
        self.0.as_str()
    }
}

/// A username: trimmed and non-empty.
#[derive(Debug, PartialEq, Eq)]
pub struct Username(String);

impl View for Username {
    type V = Seq<char>;

    closed spec fn view(&self) -> Seq<char> {
        self.0@
    }
}

impl Clone for Username {
    fn clone(&self) -> (r: Self)
        ensures
            r@ == self@,
    {
        Username(self.0.clone())
    }
}

impl Username {
    pub fn new(value: String) -> (r: DomainResult<Username>)
        ensures
            match r {
                Ok(u) => u@ == trimmed(value@) && trimmed(value@).len() > 0,
                Err(err) => err == DomainError::InvalidUsername && trimmed(value@).len() == 0,
            },
    {
        let t = trim_str(value.as_str());
        if t.as_str().is_empty() {
            Err(DomainError::InvalidUsername)
        } else {
            Ok(Username(t))
        }
    }

    pub fn as_str(&self) -> (r: &str)
        ensures
            r@ == self@,
    {
        self.0.as_str()
    }
}

/// An image location: trimmed and non-empty.
#[derive(Debug, PartialEq, Eq)]
pub struct ImageUrl(String);

impl View for ImageUrl {
    type V = Seq<char>;

    closed spec fn view(&self) -> Seq<char> {
        self.0@
    }
}

impl Clone for ImageUrl {
    fn clone(&self) -> (r: Self)
        ensures
            r@ == self@,
    {
        ImageUrl(self.0.clone())
    }
}

impl ImageUrl {
    pub fn new(value: String) -> (r: DomainResult<ImageUrl>)
        ensures
            match r {
                Ok(u) => u@ == trimmed(value@) && trimmed(value@).len() > 0,
                Err(err) => err == DomainError::InvalidImageUrl && trimmed(value@).len() == 0,
            },
    {
        let t = trim_str(value.as_str());
        if t.as_str().is_empty() {
            Err(DomainError::InvalidImageUrl)
        } else {
            Ok(ImageUrl(t))
        }
    }

    pub fn as_str(&self) -> (r: &str)
        ensures
            r@ == self@,
    {
        self.0.as_str()
    }
}

/// A plain-text password: kept exactly as given; its trimmed form must span
/// at least eight bytes.
#[derive(Debug, PartialEq, Eq)]
pub struct PlainPassword(String);

impl View for PlainPassword {
    type V = Seq<char>;

    closed spec fn view(&self) -> Seq<char> {
        self.0@
    }
}

impl Clone for PlainPassword {
    fn clone(&self) -> (r: Self)
        ensures
            r@ == self@,
    {
        PlainPassword(self.0.clone())
    }
}

impl PlainPassword {
    pub fn new(value: String) -> (r: DomainResult<PlainPassword>)
        ensures
            match r {
                Ok(p) => p@ == value@ && encode_utf8(trimmed(value@)).len() >= 8,
                Err(err) => err == DomainError::InvalidPassword && encode_utf8(
                    trimmed(value@),
                ).len() < 8,
            },
    {
        let t = trim_str(value.as_str());
        if t.as_str().as_bytes().len() < 8 {
            Err(DomainError::InvalidPassword)
        } else {
            Ok(PlainPassword(value))
        }
    }

    pub fn as_str(&self) -> (r: &str)
        ensures
            r@ == self@,
    {
        self.0.as_str()
    }
}

/// A password hash: trimmed and non-empty.
#[derive(Debug, PartialEq, Eq)]
pub struct PasswordHash(String);

impl View for PasswordHash {
    type V = Seq<char>;

    closed spec fn view(&self) -> Seq<char> {
        self.0@
    }
}

impl Clone for PasswordHash {
    fn clone(&self) -> (r: Self)
        ensures
            r@ == self@,
    {
        PasswordHash(self.0.clone())
    }
}

impl Default for PasswordHash {
    fn default() -> (r: Self)
        ensures
            r@ == Seq::<char>::empty(),
    {
        PasswordHash(String::new())
    }
}

impl PasswordHash {
    pub fn new(value: String) -> (r: DomainResult<PasswordHash>)
        ensures
            match r {
                Ok(p) => p@ == trimmed(value@) && trimmed(value@).len() > 0,
                Err(err) => err == DomainError::InvalidPassword && trimmed(value@).len() == 0,
            },
    {
        let t = trim_str(value.as_str());
        if t.as_str().is_empty() {
            Err(DomainError::InvalidPassword)
        } else {
            Ok(PasswordHash(t))
        }
    }

    pub fn as_str(&self) -> (r: &str)
        ensures
            r@ == self@,
    {
        self.0.as_str()
    }
}

/// An authentication token: trimmed and non-empty.
#[derive(Debug, PartialEq, Eq)]
pub struct AuthToken(String);

impl View for AuthToken {
    type V = Seq<char>;

    closed spec fn view(&self) -> Seq<char> {
        self.0@
    }
}

impl Clone for AuthToken {
    fn clone(&self) -> (r: Self)
        ensures
            r@ == self@,
    {
        AuthToken(self.0.clone())
    }
}

impl AuthToken {
    pub fn new(value: String) -> (r: DomainResult<AuthToken>)
        ensures
            match r {
                Ok(t) => t@ == trimmed(value@) && trimmed(value@).len() > 0,
                Err(err) => err == DomainError::UnauthorizedAction && trimmed(value@).len() == 0,
            },
    {
        let t = trim_str(value.as_str());
        if t.as_str().is_empty() {
            Err(DomainError::UnauthorizedAction)
        } else {
            Ok(AuthToken(t))
        }
    }

    pub fn as_str(&self) -> (r: &str)
        ensures
            r@ == self@,
    {
        self.0.as_str()
    }
}

#[derive(Debug)]
pub struct User {
    pub id: UserId,
    pub email: Email,
    pub username: Username,
    pub bio: Option<String>,
    pub image: Option<ImageUrl>,
    pub password_hash: PasswordHash,
    pub created_at: Timestamp,
    pub updated_at: Timestamp,
}

impl User {
    pub fn new(
        id: UserId,
        email: Email,
        username: Username,
        password_hash: PasswordHash,
        now: Timestamp,
    ) -> (r: User)
        ensures
            r.id == id,
            r.email == email,
            r.username == username,
            r.bio is None,
            r.image is None,
            r.password_hash == password_hash,
            r.created_at == now,
            r.updated_at == now,
    {
        User {
            id,
            email,
            username,
            bio: None,
            image: None,
            password_hash,
            created_at: now,
            updated_at: now,
        }
    }

    /// Overwrite exactly the fields the change set names, and stamp the
    /// update instant.
    pub fn apply_update(&mut self, changes: UpdateUserInput, now: Timestamp)
        ensures
            final(self).email == (match changes.email {
                Some(e) => e,
                None => old(self).email,
            }),
            final(self).username == (match changes.username {
                Some(u) => u,
                None => old(self).username,
            }),
            final(self).bio == (match changes.bio {
                Some(b) => b,
                None => old(self).bio,
            }),
            final(self).image == (match changes.image {
                Some(im) => im,
                None => old(self).image,
            }),
            final(self).password_hash == (match changes.password_hash {
                Some(p) => p,
                None => old(self).password_hash,
            }),
            final(self).id == old(self).id,
            final(self).created_at == old(self).created_at,
            final(self).updated_at == now,
    {
        if let Some(email) = changes.email {
            self.email = email;
        }
        if let Some(username) = changes.username {
            self.username = username;
        }
        if let Some(bio) = changes.bio {
            self.bio = bio;
        }
        if let Some(image) = changes.image {
            self.image = image;
        }
        if let Some(password_hash) = changes.password_hash {
            self.password_hash = password_hash;
        }
        self.updated_at = now;
    }

    /// The user's public profile, with the given follow flag.
    pub fn to_profile(&self, following: bool) -> (r: Profile)
        ensures
            r.username@ == self.username@,
            opt_str_view(r.bio) == opt_str_view(self.bio),
            opt_image_view(r.image) == opt_image_view(self.image),
            r.following == following,
    {
        let bio = match &self.bio {
            Some(b) => Some(b.clone()),
            None => None,
        };
        let image = match &self.image {
            Some(im) => Some(im.clone()),
            None => None,
        };
        Profile::new(self.username.clone(), bio, image, following)
    }

    /// The user's own view, with an optional session token attached.
    pub fn to_view(&self, token: Option<AuthToken>) -> (r: UserView)
        ensures
            r.email@ == self.email@,
            r.token == token,
            r.username@ == self.username@,
            opt_str_view(r.bio) == opt_str_view(self.bio),
            opt_image_view(r.image) == opt_image_view(self.image),
    {
        let bio = match &self.bio {
            Some(b) => Some(b.clone()),
            None => None,
        };
        let image = match &self.image {
            Some(im) => Some(im.clone()),
            None => None,
        };
        UserView {
            email: self.email.clone(),
            token,
            username: self.username.clone(),
            bio,
            image,
        }
    }
}

/// The view of an optional free-text value.
pub open spec fn opt_str_view(o: Option<String>) -> Option<Seq<char>> {
    match o {
        None => None,
        Some(s) => Some(s@),
    }
}

/// The view of an optional image location.
pub open spec fn opt_image_view(o: Option<ImageUrl>) -> Option<Seq<char>> {
    match o {
        None => None,
        Some(u) => Some(u@),
    }
}

#[derive(Debug)]
pub struct RegisterUserInput {
    pub email: Email,
    pub username: Username,
    pub password: PlainPassword,
}

#[derive(Debug)]
pub struct LoginUserInput {
    pub email: Email,
    pub password: PlainPassword,
}

/// An update to the current user; every field is optional, and `bio` and
/// `image` distinguish "leave alone" from "clear".
#[derive(Debug)]
pub struct UpdateUserInput {
    pub email: Option<Email>,
    pub username: Option<Username>,
    pub bio: Option<Option<String>>,
    pub image: Option<Option<ImageUrl>>,
    pub password: Option<PlainPassword>,
    pub password_hash: Option<PasswordHash>,
}

impl Default for UpdateUserInput {
    fn default() -> (r: Self)
        ensures
            r.email is None,
            r.username is None,
            r.bio is None,
            r.image is None,
            r.password is None,
            r.password_hash is None,
    {
        UpdateUserInput {
            email: None,
            username: None,
            bio: None,
            image: None,
            password: None,
            password_hash: None,
        }
    }
}

impl UpdateUserInput {
    pub fn with_password_hash(self, password_hash: PasswordHash) -> (r: Self)
        ensures
            r.password_hash matches Some(p) && p == password_hash,
            r.email == self.email,
            r.username == self.username,
            r.bio == self.bio,
            r.image == self.image,
            r.password == self.password,
    {
        UpdateUserInput { password_hash: Some(password_hash), ..self }
    }
}

#[derive(Debug)]
pub struct UserView {
    pub email: Email,
    pub token: Option<AuthToken>,
    pub username: Username,
    pub bio: Option<String>,
    pub image: Option<ImageUrl>,
}

#[derive(Debug)]
pub struct UserEnvelope {
    pub user: UserView,
}

impl From<UserView> for UserEnvelope {
    fn from(value: UserView) -> (r: UserEnvelope) {
        UserEnvelope { user: value }
    }
}

impl vstd::std_specs::convert::FromSpecImpl<UserView> for UserEnvelope {
    open spec fn obeys_from_spec() -> bool {
        true
    }

    open spec fn from_spec(value: UserView) -> UserEnvelope {
        UserEnvelope { user: value }
    }
}

} // verus!
