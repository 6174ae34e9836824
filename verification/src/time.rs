//! Instants as plain values: milliseconds from the Unix epoch.

use vstd::prelude::*;

verus! {

/// An instant, at millisecond precision.
#[derive(Debug, Clone, Copy, PartialEq, Eq, Structural)]
pub struct Timestamp {
    pub millis: i64,
}

impl Timestamp {
    pub fn from_millis(millis: i64) -> (r: Self)
        ensures
            r.millis == millis,
    {
        Timestamp { millis }
    }

    pub fn as_millis(&self) -> (r: i64)
        ensures
            r == self.millis,
    {
        self.millis
    }

    /// Relies on `chrono::Utc::now`: the wall clock, taken at millisecond
    /// precision. Nothing is assumed of the value.
    #[verifier::external_body]
    pub fn now() -> (r: Self) {
        Timestamp { millis: chrono::Utc::now().timestamp_millis() }
    }
}

} // verus!
