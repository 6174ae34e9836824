//! Ed25519 signature verification, behind a trusted boundary.

use ed25519_dalek::Verifier;
use vstd::prelude::*;

verus! {

/// Whether 32 bytes are valid Ed25519 public-key material, that is, whether
/// they decompress to a curve point.
pub uninterp spec fn ed25519_key_well_formed(key: Seq<u8>) -> bool;

/// Whether Ed25519 verification accepts the signature on the message under
/// the key. Verification is deterministic: a function of the three byte
/// strings alone.
pub uninterp spec fn ed25519_accepts(key: Seq<u8>, msg: Seq<u8>, sig: Seq<u8>) -> bool;

/// Relies on `ed25519_dalek::VerifyingKey::from_bytes`: it succeeds exactly
/// when the bytes decompress to a curve point.
#[verifier::external_body]
pub(crate) fn key_well_formed(key: &[u8]) -> (r: bool)
    requires
        key@.len() == 32,
    ensures
        r == ed25519_key_well_formed(key@),
{
    let bytes: [u8; 32] = key.try_into().unwrap();
    ed25519_dalek::VerifyingKey::from_bytes(&bytes).is_ok()
}

/// Relies on `ed25519_dalek::VerifyingKey::verify` (reached through
/// `from_bytes` on key material already known to be well formed, and
/// `Signature::from_bytes`, an infallible conversion): deterministic Ed25519
/// verification of the message under the key.
#[verifier::external_body]
pub(crate) fn verify_signature(key: &[u8], msg: &[u8], sig: &[u8]) -> (r: bool)
    requires
        key@.len() == 32,
        sig@.len() == 64,
        ed25519_key_well_formed(key@),
    ensures
        r == ed25519_accepts(key@, msg@, sig@),
{
    let key_bytes: [u8; 32] = key.try_into().unwrap();
    let sig_bytes: [u8; 64] = sig.try_into().unwrap();
    match ed25519_dalek::VerifyingKey::from_bytes(&key_bytes) {
        Ok(vk) => {
            let signature = ed25519_dalek::Signature::from_bytes(&sig_bytes);
            vk.verify(msg, &signature).is_ok()
        },
        Err(_) => false,
    }
}

} // verus!
