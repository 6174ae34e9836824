//! Calendar parsing and the wall clock, behind a trusted boundary.
//!
//! Instants are modelled as milliseconds from the Unix epoch.

use chrono::TimeZone;
use vstd::prelude::*;

verus! {

/// What chrono's RFC 3339 parser makes of the given text: `None` when the
/// text is not an RFC 3339 date-time, otherwise its instant in epoch
/// milliseconds. A function of the text alone.
pub uninterp spec fn rfc3339_millis(s: Seq<char>) -> Option<i64>;

/// Whether a count of epoch seconds lies within the range of instants that
/// chrono's date-time type represents.
pub uninterp spec fn epoch_secs_in_range(secs: i64) -> bool;

/// Relies on `chrono::DateTime::parse_from_rfc3339` (and `timestamp_millis`):
/// parses an RFC 3339 date-time and takes its instant at millisecond
/// precision.
#[verifier::external_body]
pub(crate) fn parse_rfc3339_millis(s: &str) -> (r: Option<i64>)
    ensures
        r == rfc3339_millis(s@),
{
    chrono::DateTime::parse_from_rfc3339(s)
        .ok()
        .map(|dt| dt.with_timezone(&chrono::Utc).timestamp_millis())
}

/// Relies on `chrono::Utc.timestamp_opt(secs, 0).single()`: defined exactly
/// for the seconds counts chrono's date-time type represents; such an instant
/// lies `secs * 1000` milliseconds from the epoch.
#[verifier::external_body]
pub(crate) fn epoch_millis_from_secs(secs: i64) -> (r: Option<i64>)
    ensures
        r is Some <==> epoch_secs_in_range(secs),
        r matches Some(ms) ==> ms == secs as int * 1000,
{
    chrono::Utc.timestamp_opt(secs, 0).single().map(|dt| dt.timestamp_millis())
}

/// Relies on `chrono::Utc::now`: the verifier's wall clock, taken at
/// millisecond precision. Nothing is assumed of the value.
#[verifier::external_body]
pub fn now_millis() -> (r: i64) {
    chrono::Utc::now().timestamp_millis()
}

} // verus!
