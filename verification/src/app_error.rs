//! The host-facing error type: any failure a request handler meets, with the
//! decision of which HTTP problem it is answered with.

use vstd::prelude::*;
use vstd::string::StringExecFns;

use crate::errors::{error_message, DomainError};
use crate::problem::ProblemDetails;
use crate::text::{contains_str, contains_substring};

verus! {

/// Where an `AppError` came from: a domain rule, or a plain message from any
/// other failure.
#[derive(Debug)]
pub enum AppErrorSource {
    Domain(DomainError),
    Message(String),
}

/// An error a request handler answers with.
#[derive(Debug)]
pub struct AppError {
    pub source: AppErrorSource,
}

pub type AppResult<T> = Result<T, AppError>;

pub type ApiError = AppError;

pub type ApiResult<T> = AppResult<T>;

/// The description an error prints.
pub open spec fn app_error_message(e: AppError) -> Seq<char> {
    match e.source {
        AppErrorSource::Domain(d) => error_message(d),
        AppErrorSource::Message(m) => m@,
    }
}

/// The status code and title the error is answered with. A domain rule names
/// its own class; any other failure is classed by what its message says, and
/// an unrecognized one is an internal error.
pub open spec fn app_response_parts(e: AppError) -> (u16, Seq<char>) {
    match e.source {
        AppErrorSource::Domain(d) => match d {
            DomainError::Conflict { .. } => (409u16, "Conflict"@),
            DomainError::NotFound { .. } => (404u16, "Not Found"@),
            DomainError::UnauthorizedAction => (401u16, "Unauthorized"@),
            _ => (422u16, "Validation Error"@),
        },
        AppErrorSource::Message(m) => {
            let s = m@;
            if contains_substring(s, "already registered"@) || contains_substring(
                s,
                "already exists"@,
            ) {
                (409u16, "Conflict"@)
            } else if contains_substring(s, "not found"@) {
                (404u16, "Not Found"@)
            } else if contains_substring(s, "invalid credentials"@) || contains_substring(
                s,
                "unauthorized"@,
            ) {
                (401u16, "Unauthorized"@)
            } else if contains_substring(s, "cannot follow"@) || contains_substring(
                s,
                "validation"@,
            ) {
                (422u16, "Validation Error"@)
            } else {
                (500u16, "Internal Server Error"@)
            }
        },
    }
}

impl AppError {
    pub fn validation(message: String) -> (r: AppError)
        ensures
            app_error_message(r) == message@,
    {
        AppError { source: AppErrorSource::Message(message) }
    }

    pub fn conflict(message: String) -> (r: AppError)
        ensures
            app_error_message(r) == message@,
    {
        AppError { source: AppErrorSource::Message(message) }
    }

    pub fn unauthorized(message: String) -> (r: AppError)
        ensures
            app_error_message(r) == message@,
    {
        AppError { source: AppErrorSource::Message(message) }
    }

    pub fn not_found(message: String) -> (r: AppError)
        ensures
            app_error_message(r) == message@,
    {
        AppError { source: AppErrorSource::Message(message) }
    }

    pub fn internal(message: String) -> (r: AppError)
        ensures
            app_error_message(r) == message@,
    {
        AppError { source: AppErrorSource::Message(message) }
    }

    /// The description this error prints.
    pub fn message(&self) -> (r: String)
        ensures
            r@ == app_error_message(*self),
    {
        match &self.source {
            AppErrorSource::Domain(d) => d.message(),
            AppErrorSource::Message(m) => m.clone(),
        }
    }

    /// The problem this error is answered with: the class's status and title,
    /// and the error's own description as the detail.
    pub fn to_problem(&self) -> (r: ProblemDetails)
        ensures
            r.status == app_response_parts(*self).0,
            r.title@ == app_response_parts(*self).1,
            r.detail matches Some(d) && d@ == app_error_message(*self),
    {
        let (status, title): (u16, &str) = match &self.source {
            AppErrorSource::Domain(d) => match d {
                DomainError::Conflict { .. } => (409, "Conflict"),
                DomainError::NotFound { .. } => (404, "Not Found"),
                DomainError::UnauthorizedAction => (401, "Unauthorized"),
                _ => (422, "Validation Error"),
            },
            AppErrorSource::Message(m) => {
                let s: &str = m.as_str();
                if contains_str(s, "already registered") || contains_str(s, "already exists") {
                    (409, "Conflict")
                } else if contains_str(s, "not found") {
                    (404, "Not Found")
                } else if contains_str(s, "invalid credentials") || contains_str(s, "unauthorized")
                {
                    (401, "Unauthorized")
                } else if contains_str(s, "cannot follow") || contains_str(s, "validation") {
                    (422, "Validation Error")
                } else {
                    (500, "Internal Server Error")
                }
            },
        };
        ProblemDetails::new(status).with_title(title.to_owned()).with_detail(self.message())
    }
}

impl From<DomainError> for AppError {
    fn from(err: DomainError) -> (r: AppError) {
        AppError { source: AppErrorSource::Domain(err) }
    }
}

impl vstd::std_specs::convert::FromSpecImpl<DomainError> for AppError {
    open spec fn obeys_from_spec() -> bool {
        true
    }

    open spec fn from_spec(err: DomainError) -> AppError {
        AppError { source: AppErrorSource::Domain(err) }
    }
}

} // verus!
