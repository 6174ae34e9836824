//! Request authentication helpers: the password hashing rule and the parsing
//! of an `Authorization` header into a session token.

use vstd::prelude::*;
use vstd::string::StrSliceExecFns;
use vstd::string::StringExecFns;

use crate::app_error::{app_error_message, ApiResult, AppError};
use crate::text::{lemma_trimmed_idempotent, lemma_trimmed_of_headed, starts_with, str_starts_with,
    trim_str, trimmed};
use crate::user::{AuthToken, PasswordHash, PlainPassword};

verus! {

/// What hashing makes of a password: the salted text, trimmed as every
/// stored hash is.
pub open spec fn hashed_password(password: Seq<char>) -> Seq<char> {
    trimmed("hashed:"@ + password)
}

/// Derive the stored hash for a password. Never fails: the salted text
/// always has content.
pub fn hash_password(password: &PlainPassword) -> (r: ApiResult<PasswordHash>)
    ensures
        r matches Ok(h) && h@ == hashed_password(password@),
{
    let salted = "hashed:".to_owned().concat(password.as_str());
    proof {
        reveal_strlit("hashed:");
        assert(salted@[0] == 'h');
        assert(!crate::text::is_space(salted@[0]));
        lemma_trimmed_of_headed(salted@);
    }
    match PasswordHash::new(salted) {
        Ok(h) => Ok(h),
        Err(e) => Err(AppError { source: crate::app_error::AppErrorSource::Domain(e) }),
    }
}

/// The token text inside an `Authorization` header value: the `Token ` or
/// `Bearer ` scheme prefix dropped, the rest trimmed.
pub open spec fn auth_token_text(header: Seq<char>) -> Seq<char> {
    if starts_with(header, "Token "@) {
        trimmed(header.subrange(6, header.len() as int))
    } else if starts_with(header, "Bearer "@) {
        trimmed(header.subrange(7, header.len() as int))
    } else {
        trimmed(header)
    }
}

/// Parse an `Authorization` header value into a session token; a header with
/// no token text is rejected.
pub fn token_from_header(header: &str) -> (r: ApiResult<AuthToken>)
    ensures
        r matches Ok(t) ==> t@ == auth_token_text(header@) && auth_token_text(header@).len() > 0,
        r matches Err(e) ==> app_error_message(e) == "invalid authorization header"@
            && auth_token_text(header@).len() == 0,
{
    let n: usize = header.unicode_len();
    proof {
        reveal_strlit("Token ");
        reveal_strlit("Bearer ");
    }
    let stripped: &str = if str_starts_with(header, "Token ") {
        header.substring_char(6, n)
    } else if str_starts_with(header, "Bearer ") {
        header.substring_char(7, n)
    } else {
        header
    };
    let token_value = trim_str(stripped);
    if token_value.as_str().is_empty() {
        return Err(AppError::unauthorized("invalid authorization header".to_owned()));
    }
    proof {
        lemma_trimmed_idempotent(stripped@);
    }
    match AuthToken::new(token_value) {
        Ok(t) => Ok(t),
        Err(e) => Err(AppError { source: crate::app_error::AppErrorSource::Domain(e) }),
    }
}

} // verus!
