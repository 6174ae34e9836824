//! RFC 9457 problem details: the structured error payload requests are
//! answered with.

use vstd::prelude::*;
use vstd::string::StringExecFns;

use crate::text::{dec_str, u16_to_decimal};

verus! {

/// The standard reason phrase the HTTP status registry gives a status code,
/// if it names one.
pub uninterp spec fn status_canonical_reason(status: u16) -> Option<Seq<char>>;

/// Relies on `http::StatusCode::canonical_reason` (through `from_u16`): the
/// registry's reason phrase for the code; in particular 401 is named
/// "Unauthorized".
#[verifier::external_body]
fn canonical_reason(status: u16) -> (r: Option<&'static str>)
    ensures
        r is Some <==> status_canonical_reason(status) is Some,
        r matches Some(s) ==> status_canonical_reason(status) == Some(s@),
        status == 401 ==> r is Some,
        r matches Some(s) ==> (status == 401 ==> s@ == "Unauthorized"@),
{
    http::StatusCode::from_u16(status).ok().and_then(|s| s.canonical_reason())
}

/// A problem-details payload. The `extensions` member of the wire format is
/// the host's concern and is attached there.
#[derive(Debug)]
pub struct ProblemDetails {
    pub kind: Option<String>,
    pub title: String,
    pub status: u16,
    pub detail: Option<String>,
    pub instance: Option<String>,
}

/// The `type` member a freshly built problem carries.
pub open spec fn blank_kind(status: u16) -> Seq<char> {
    "about:blank#"@ + dec_str(status as int)
}

impl ProblemDetails {
    /// A problem for the given status, titled with the status registry's
    /// reason phrase.
    pub fn new(status: u16) -> (r: ProblemDetails)
        ensures
            r.status == status,
            r.kind matches Some(k) && k@ == blank_kind(status),
            match status_canonical_reason(status) {
                Some(t) => r.title@ == t,
                None => r.title@ == "HTTP Problem"@,
            },
            status == 401 ==> r.title@ == "Unauthorized"@,
            r.detail is None,
            r.instance is None,
    {
        let digits = u16_to_decimal(status);
        let kind = "about:blank#".to_owned().concat(digits.as_str());
        let title = match canonical_reason(status) {
            Some(reason) => reason.to_owned(),
            None => "HTTP Problem".to_owned(),
        };
        ProblemDetails { kind: Some(kind), title, status, detail: None, instance: None }
    }

    pub fn with_title(self, title: String) -> (r: ProblemDetails)
        ensures
            r.title == title,
            r.status == self.status,
            r.kind == self.kind,
            r.detail == self.detail,
            r.instance == self.instance,
    {
        ProblemDetails { title, ..self }
    }

    pub fn with_detail(self, detail: String) -> (r: ProblemDetails)
        ensures
            r.detail matches Some(d) && d == detail,
            r.status == self.status,
            r.kind == self.kind,
            r.title == self.title,
            r.instance == self.instance,
    {
        ProblemDetails { detail: Some(detail), ..self }
    }

    pub fn with_instance(self, instance: String) -> (r: ProblemDetails)
        ensures
            r.instance matches Some(i) && i == instance,
            r.status == self.status,
            r.kind == self.kind,
            r.title == self.title,
            r.detail == self.detail,
    {
        ProblemDetails { instance: Some(instance), ..self }
    }
}

/// The uniform response every rejected request receives: an HTTP 401 problem
/// whose body never names the internal rejection reason.
pub fn unauthorized_problem() -> (r: ProblemDetails)
    ensures
        r.status == 401,
        r.title@ == "Unauthorized"@,
        r.detail matches Some(d) && d@ == "unauthorized"@,
{
    ProblemDetails::new(401).with_detail("unauthorized".to_owned())
}

} // verus!
