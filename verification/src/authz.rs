//! Authorization decisions, as plain values. Consulting the policy engine is
//! the host's concern; the decision's meaning lives here.

use vstd::prelude::*;

use crate::user::opt_str_view;

verus! {

/// A policy decision: whether the action is allowed, and an optional reason.
#[derive(Debug)]
pub struct AuthzDecision {
    pub allow: bool,
    pub reason: Option<String>,
}

impl AuthzDecision {
    pub fn allow(reason: Option<String>) -> (r: AuthzDecision)
        ensures
            r.allow == true,
            r.reason == reason,
    {
        AuthzDecision { allow: true, reason }
    }

    pub fn deny(reason: String) -> (r: AuthzDecision)
        ensures
            r.allow == false,
            r.reason matches Some(s) && s == reason,
    {
        AuthzDecision { allow: false, reason: Some(reason) }
    }

    /// What a policy engine's raw answer becomes: an allowance keeps its
    /// optional reason; a denial without a reason gets the default one.
    pub fn from_policy_result(allow: bool, reason: Option<String>) -> (r: AuthzDecision)
        ensures
            r.allow == allow,
            allow ==> r.reason == reason,
            !allow ==> opt_str_view(r.reason) == (match reason {
                Some(s) => Some(s@),
                None => Some("OPA denied"@),
            }),
    {
        if allow {
            AuthzDecision::allow(reason)
        } else {
            match reason {
                Some(s) => AuthzDecision::deny(s),
                None => AuthzDecision::deny("OPA denied".to_owned()),
            }
        }
    }

    /// An allowed decision passes; a denied one becomes the error that
    /// carries it.
    pub fn into_result(self) -> (r: Result<AuthzDecision, AuthzError>)
        ensures
            self.allow ==> (r matches Ok(d) && d == self),
            !self.allow ==> (r matches Err(e) && e == AuthzError::Denied(self)),
    {
        if self.allow {
            Ok(self)
        } else {
            Err(AuthzError::Denied(self))
        }
    }
}

/// Why authorization failed: the policy denied it, or the engine could not
/// be consulted.
#[derive(Debug)]
pub enum AuthzError {
    Denied(AuthzDecision),
    Cache(String),
    Transport(String),
}

} // verus!
