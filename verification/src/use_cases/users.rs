//! User use cases: registration, login and profile updates.

use vstd::prelude::*;

use crate::errors::{DomainError, DomainResult};
use crate::identifiers::UserId;
use crate::text::trimmed;
use crate::time::Timestamp;
use crate::user::{Email, ImageUrl, PasswordHash, User, Username};

verus! {

/// Input for registering a new user; the password is already hashed by the
/// host.
#[derive(Debug)]
pub struct RegisterUserInput {
    pub username: String,
    pub email: String,
    pub password_hash: PasswordHash,
}

/// Input for logging in; the password is already hashed by the host.
#[derive(Debug)]
pub struct LoginUserInput {
    pub email: String,
    pub password_hash: PasswordHash,
}

/// Input for updating the current user; the password is already hashed by
/// the host.
#[derive(Debug)]
pub struct UpdateUserInput {
    pub email: Option<String>,
    pub username: Option<String>,
    pub bio: Option<Option<String>>,
    pub image: Option<Option<String>>,
    pub password_hash: Option<PasswordHash>,
}

/// The validation step of registration: the username, then the email. The
/// host then checks uniqueness of both.
pub fn validate_registration(input: RegisterUserInput) -> (r: DomainResult<
    (Username, Email, PasswordHash),
>)
    ensures
        match r {
            Ok(t) => t.0@ == trimmed(input.username@) && trimmed(input.username@).len() > 0 && t.1@
                == trimmed(input.email@) && trimmed(input.email@).len() > 0 && trimmed(
                input.email@,
            ).contains('@') && t.2 == input.password_hash,
            Err(e) => (e == DomainError::InvalidUsername && trimmed(input.username@).len() == 0)
                || (e == DomainError::InvalidEmail && trimmed(input.username@).len() > 0 && (
                trimmed(input.email@).len() == 0 || !trimmed(input.email@).contains('@'))),
        },
{
    let username = match Username::new(input.username) {
        Ok(u) => u,
        Err(e) => {
            return Err(e);
        },
    };
    let email = match Email::parse(input.email) {
        Ok(e) => e,
        Err(e) => {
            return Err(e);
        },
    };
    Ok((username, email, input.password_hash))
}

/// The decision step after the uniqueness checks: an email already
/// registered wins over a username already taken; otherwise the new user.
pub fn finish_registration(
    id: UserId,
    username: Username,
    email: Email,
    password_hash: PasswordHash,
    email_taken: bool,
    username_taken: bool,
    now: Timestamp,
) -> (r: DomainResult<User>)
    ensures
        match r {
            Ok(u) => !email_taken && !username_taken && u.id == id && u.email == email
                && u.username == username && u.password_hash == password_hash && u.bio is None
                && u.image is None && u.created_at == now && u.updated_at == now,
            Err(e) => (e == (DomainError::Conflict { entity: "email" }) && email_taken) || (e == (
            DomainError::Conflict { entity: "username" }) && !email_taken && username_taken),
        },
{
    if email_taken {
        return Err(DomainError::Conflict { entity: "email" });
    }
    if username_taken {
        return Err(DomainError::Conflict { entity: "username" });
    }
    Ok(User::new(id, email, username, password_hash, now))
}

/// The decision step of login once the user is loaded: the presented
/// password hash must match the stored one.
pub fn verify_login(user: &User, password_hash: &PasswordHash) -> (r: DomainResult<()>)
    ensures
        r is Ok <==> user.password_hash@ == password_hash@,
        r matches Err(e) ==> e == DomainError::UnauthorizedAction,
{
    if user.password_hash.as_str().eq(password_hash.as_str()) {
        Ok(())
    } else {
        Err(DomainError::UnauthorizedAction)
    }
}

/// The decision step of updating a user: parse what changed, reject a new
/// email or username that another user already holds, and apply the rest.
/// `email_taken` and `username_taken` report the host's uniqueness lookups
/// for the new values.
pub fn plan_user_update(
    user: &mut User,
    changes: UpdateUserInput,
    email_taken: bool,
    username_taken: bool,
    now: Timestamp,
) -> (r: DomainResult<()>)
    ensures
        match r {
            Ok(()) => (match changes.email {
                Some(raw) => trimmed(raw@).len() > 0 && trimmed(raw@).contains('@') && final(user).email@ == trimmed(raw@) && (trimmed(raw@) == old(user).email@ || !email_taken),
                None => final(user).email == old(user).email,
            }) && (match changes.username {
                Some(raw) => trimmed(raw@).len() > 0 && final(user).username@ == trimmed(raw@) && (
                trimmed(raw@) == old(user).username@ || !username_taken),
                None => final(user).username == old(user).username,
            }) && (match changes.bio {
                Some(b) => final(user).bio == b,
                None => final(user).bio == old(user).bio,
            }) && (match changes.image {
                Some(None) => final(user).image is None,
                Some(Some(raw)) => trimmed(raw@).len() > 0 && (final(user).image matches Some(im)
                    && im@ == trimmed(raw@)),
                None => final(user).image == old(user).image,
            }) && (match changes.password_hash {
                Some(p) => final(user).password_hash == p,
                None => final(user).password_hash == old(user).password_hash,
            }) && final(user).id == old(user).id && final(user).created_at == old(user).created_at && final(user).updated_at == now,
            Err(e) => *final(user) == *old(user) && ((e == DomainError::InvalidEmail && (
            changes.email matches Some(raw) && (trimmed(raw@).len() == 0 || !trimmed(
                raw@,
            ).contains('@')))) || (e == (DomainError::Conflict { entity: "email" }) && (
            changes.email matches Some(raw) && trimmed(raw@) != old(user).email@ && email_taken))
                || (e == DomainError::InvalidUsername && (changes.username matches Some(raw)
                && trimmed(raw@).len() == 0)) || (e == (DomainError::Conflict {
                entity: "username",
            }) && (changes.username matches Some(raw) && trimmed(raw@) != old(user).username@
                && username_taken)) || (e == DomainError::InvalidImageUrl && (
            changes.image matches Some(opt) && opt matches Some(raw) && trimmed(raw@).len()
                == 0))),
        },
{
    let email = match changes.email {
        Some(raw) => {
            let parsed = match Email::parse(raw) {
                Ok(e) => e,
                Err(e) => {
                    return Err(e);
                },
            };
            if !parsed.as_str().eq(user.email.as_str()) && email_taken {
                return Err(DomainError::Conflict { entity: "email" });
            }
            Some(parsed)
        },
        None => None,
    };
    let username = match changes.username {
        Some(raw) => {
            let parsed = match Username::new(raw) {
                Ok(u) => u,
                Err(e) => {
                    return Err(e);
                },
            };
            if !parsed.as_str().eq(user.username.as_str()) && username_taken {
                return Err(DomainError::Conflict { entity: "username" });
            }
            Some(parsed)
        },
        None => None,
    };
    let image = match changes.image {
        Some(Some(raw)) => {
            let parsed = match ImageUrl::new(raw) {
                Ok(u) => u,
                Err(e) => {
                    return Err(e);
                },
            };
            Some(Some(parsed))
        },
        Some(None) => Some(None),
        None => None,
    };
    let domain_changes = crate::user::UpdateUserInput {
        email,
        username,
        bio: changes.bio,
        image,
        password: None,
        password_hash: changes.password_hash,
    };
    user.apply_update(domain_changes, now);
    Ok(())
}

} // verus!
