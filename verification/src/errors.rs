//! The domain error type shared by every validation rule in the library.

use vstd::prelude::*;
use vstd::string::StringExecFns;

verus! {

pub type DomainResult<T> = Result<T, DomainError>;

#[derive(Debug, PartialEq, Eq)]
pub enum DomainError {
    InvalidEmail,
    InvalidUsername,
    InvalidPassword,
    InvalidImageUrl,
    InvalidTitle,
    InvalidDescription,
    InvalidBody,
    InvalidSlug,
    InvalidTag,
    LimitOutOfRange,
    NegativeOffset,
    NotFound { entity: &'static str },
    Conflict { entity: &'static str },
    UnauthorizedAction,
    Database { message: String },
}

/// The human-readable description of a domain error.
pub open spec fn error_message(e: DomainError) -> Seq<char> {
    match e {
        DomainError::InvalidEmail => "invalid email address"@,
        DomainError::InvalidUsername => "username must not be empty"@,
        DomainError::InvalidPassword => "password must contain at least 8 characters"@,
        DomainError::InvalidImageUrl => "image url must not be empty"@,
        DomainError::InvalidTitle => "title must not be empty"@,
        DomainError::InvalidDescription => "description must not be empty"@,
        DomainError::InvalidBody => "body must not be empty"@,
        DomainError::InvalidSlug => "slug must not be empty"@,
        DomainError::InvalidTag => "tag must not be empty"@,
        DomainError::LimitOutOfRange => "limit must be between 1 and 50"@,
        DomainError::NegativeOffset => "offset cannot be negative"@,
        DomainError::NotFound { entity } => "requested entity `"@ + entity@ + "` was not found"@,
        DomainError::Conflict { entity } => "`"@ + entity@ + "` already exists"@,
        DomainError::UnauthorizedAction => "operation is not allowed for the current user"@,
        DomainError::Database { message } => "database error: "@ + message@,
    }
}

impl DomainError {
    /// The description this error prints.
    pub fn message(&self) -> (r: String)
        ensures
            r@ == error_message(*self),
    {
        match self {
            DomainError::InvalidEmail => "invalid email address".to_owned(),
            DomainError::InvalidUsername => "username must not be empty".to_owned(),
            DomainError::InvalidPassword => "password must contain at least 8 characters".to_owned(),
            DomainError::InvalidImageUrl => "image url must not be empty".to_owned(),
            DomainError::InvalidTitle => "title must not be empty".to_owned(),
            DomainError::InvalidDescription => "description must not be empty".to_owned(),
            DomainError::InvalidBody => "body must not be empty".to_owned(),
            DomainError::InvalidSlug => "slug must not be empty".to_owned(),
            DomainError::InvalidTag => "tag must not be empty".to_owned(),
            DomainError::LimitOutOfRange => "limit must be between 1 and 50".to_owned(),
            DomainError::NegativeOffset => "offset cannot be negative".to_owned(),
            DomainError::NotFound { entity } => {
                let m = "requested entity `".to_owned();
                let m = m.concat(entity);
                m.concat("` was not found")
            },
            DomainError::Conflict { entity } => {
                let m = "`".to_owned();
                let m = m.concat(entity);
                m.concat("` already exists")
            },
            DomainError::UnauthorizedAction => {
                "operation is not allowed for the current user".to_owned()
            },
            DomainError::Database { message } => {
                let m = "database error: ".to_owned();
                m.concat(message.as_str())
            },
        }
    }
}

} // verus!
