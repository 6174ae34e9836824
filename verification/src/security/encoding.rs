//! Base64 decoding, behind a trusted boundary.

use base64::Engine;
use vstd::prelude::*;

verus! {

/// What base64's `STANDARD` engine decodes the given text to: `None` when the
/// text is not canonical standard-alphabet base64 with padding, otherwise the
/// decoded bytes.
pub uninterp spec fn base64_decoded(s: Seq<char>) -> Option<Seq<u8>>;

/// Relies on base64's `Engine::decode` with the `STANDARD` engine: the result
/// is a function of the input text alone.
#[verifier::external_body]
pub(crate) fn base64_decode(s: &str) -> (r: Option<Vec<u8>>)
    ensures
        r.deep_view() == base64_decoded(s@),
{
    base64::engine::general_purpose::STANDARD.decode(s.as_bytes()).ok()
}

} // verus!
