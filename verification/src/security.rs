//! Verification of detached Ed25519 signatures over inbound requests.
//!
//! A request carries three headers — a key id, a base64 signature and a raw
//! signed timestamp — and is accepted only when the signature verifies over
//! the canonical message built from the timestamp, method, path+query and
//! body, the key id resolves in the registry (and matches the pinned id when
//! one is configured), and the timestamp lies within the tolerance window.
//! Every failure is a rejection: the pipeline is fail-closed.

pub mod canonical;
pub mod clock;
pub mod crypto;
pub mod encoding;
pub mod registry;
pub mod timestamp;

use vstd::prelude::*;

use crate::config::SecurityConfig;
use crate::security::canonical::{canonical_bytes, canonical_message};
use crate::security::crypto::{ed25519_accepts, verify_signature};
use crate::security::encoding::{base64_decode, base64_decoded};
use crate::security::registry::{key_map, lookup_key, parse_key_entry, parsed_entry, ConfigError,
    KeyEntry};
use crate::security::timestamp::{check_tolerance, effective_tolerance_ms, stamp_millis,
    timestamp_millis, tolerance_millis, within_tolerance};

verus! {

/// Why a request was rejected. Every variant maps to the same outward
/// unauthorized response; the variant itself is kept for diagnostics only.
#[derive(Debug, Clone, Copy, PartialEq, Eq)]
pub enum VerifyError {
    MissingKeyId,
    MissingSignature,
    MissingTimestamp,
    KeyIdMismatch,
    UnknownKeyId,
    BadSignatureEncoding,
    BadSignatureLength,
    BadTimestampFormat,
    TimestampOutOfTolerance,
    BodyReadFailure,
    SignatureMismatch,
}

pub open spec fn verify_error_detail(e: VerifyError) -> Seq<char> {
    match e {
        VerifyError::MissingKeyId => "missing header x-key-id"@,
        VerifyError::MissingSignature => "missing header x-signature"@,
        VerifyError::MissingTimestamp => "missing header x-signed-timestamp"@,
        VerifyError::KeyIdMismatch => "unexpected key id"@,
        VerifyError::UnknownKeyId => "unknown key id"@,
        VerifyError::BadSignatureEncoding => "invalid signature encoding"@,
        VerifyError::BadSignatureLength => "invalid signature length"@,
        VerifyError::BadTimestampFormat => "invalid timestamp"@,
        VerifyError::TimestampOutOfTolerance => "timestamp outside allowed skew"@,
        VerifyError::BodyReadFailure => "unable to read body for verification"@,
        VerifyError::SignatureMismatch => "signature mismatch"@,
    }
}

impl VerifyError {
    /// The internal diagnostic description; never shown to the caller.
    pub fn detail(&self) -> (r: String)
        ensures
            r@ == verify_error_detail(*self),
    {
        match self {
            VerifyError::MissingKeyId => "missing header x-key-id".to_owned(),
            VerifyError::MissingSignature => "missing header x-signature".to_owned(),
            VerifyError::MissingTimestamp => "missing header x-signed-timestamp".to_owned(),
            VerifyError::KeyIdMismatch => "unexpected key id".to_owned(),
            VerifyError::UnknownKeyId => "unknown key id".to_owned(),
            VerifyError::BadSignatureEncoding => "invalid signature encoding".to_owned(),
            VerifyError::BadSignatureLength => "invalid signature length".to_owned(),
            VerifyError::BadTimestampFormat => "invalid timestamp".to_owned(),
            VerifyError::TimestampOutOfTolerance => "timestamp outside allowed skew".to_owned(),
            VerifyError::BodyReadFailure => "unable to read body for verification".to_owned(),
            VerifyError::SignatureMismatch => "signature mismatch".to_owned(),
        }
    }
}

/// What verification reads of an inbound request: its method and path+query
/// exactly as received, the three signing headers (absent when the header is
/// missing or not readable as text), and the fully buffered body.
#[derive(Debug)]
pub struct IncomingRequest {
    pub method: String,
    pub path_and_query: String,
    pub key_id: Option<String>,
    pub signature: Option<String>,
    pub timestamp: Option<String>,
    pub body: Vec<u8>,
}

/// Verifies signed requests against an immutable key registry. Built once at
/// startup; never mutated afterwards.
#[derive(Debug, Clone)]
pub struct SignedRequestVerifier {
    pub keys: Vec<KeyEntry>,
    pub tolerance_ms: u64,
    pub required_key_id: Option<String>,
}

/// Whether the presented key id satisfies the pin: with no pinned id every
/// id passes; with one, only that id.
pub open spec fn pin_accepts(v: SignedRequestVerifier, kid: Seq<char>) -> bool {
    match v.required_key_id {
        None => true,
        Some(required) => required@ == kid,
    }
}

/// The whole verification pipeline as one decision: which rejection an
/// inbound request draws, or acceptance. The checks run in a fixed order and
/// the first failure wins.
pub open spec fn verify_spec(
    v: SignedRequestVerifier,
    method: Seq<char>,
    path: Seq<char>,
    key_id: Option<Seq<char>>,
    signature: Option<Seq<char>>,
    stamp: Option<Seq<char>>,
    body: Seq<u8>,
    now_ms: i64,
) -> Result<(), VerifyError> {
    match key_id {
        None => Err(VerifyError::MissingKeyId),
        Some(kid) => {
            if !pin_accepts(v, kid) {
                Err(VerifyError::KeyIdMismatch)
            } else {
                if !key_map(v.keys@).contains_key(kid) {
                    Err(VerifyError::UnknownKeyId)
                } else {
                    let key = key_map(v.keys@)[kid];
                    match signature {
                        None => Err(VerifyError::MissingSignature),
                        Some(sig_text) => match base64_decoded(sig_text) {
                            None => Err(VerifyError::BadSignatureEncoding),
                            Some(sig) => {
                                if sig.len() != 64 {
                                    Err(VerifyError::BadSignatureLength)
                                } else {
                                    match stamp {
                                        None => Err(VerifyError::MissingTimestamp),
                                        Some(st) => match stamp_millis(st) {
                                            None => Err(VerifyError::BadTimestampFormat),
                                            Some(ms) => {
                                                if !within_tolerance(ms, now_ms, v.tolerance_ms) {
                                                    Err(VerifyError::TimestampOutOfTolerance)
                                                } else if !ed25519_accepts(
                                                    key,
                                                    canonical_bytes(st, method, path, body),
                                                    sig,
                                                ) {
                                                    Err(VerifyError::SignatureMismatch)
                                                } else {
                                                    Ok(())
                                                }
                                            },
                                        },
                                    }
                                }
                            },
                        },
                    }
                }
            }
        },
    }
}

/// The pipeline never rejects for a body-read failure: reading the body is
/// the caller's step, taken before the pipeline runs.
proof fn lemma_verify_spec_never_body_failure(
    v: SignedRequestVerifier,
    method: Seq<char>,
    path: Seq<char>,
    key_id: Option<Seq<char>>,
    signature: Option<Seq<char>>,
    stamp: Option<Seq<char>>,
    body: Seq<u8>,
    now_ms: i64,
)
    ensures
        verify_spec(v, method, path, key_id, signature, stamp, body, now_ms) != Err::<
            (),
            VerifyError,
        >(VerifyError::BodyReadFailure),
{
}

impl SignedRequestVerifier {
    /// Every registered key is 32 bytes of valid Ed25519 key material.
    pub open spec fn wf(&self) -> bool {
        forall|i: int| 0 <= i < self.keys@.len() ==> (#[trigger] self.keys@[i]).wf()
    }

    /// Build a verifier from static configuration. A disabled flag or an
    /// empty key list yields the explicit pass-through state `None`; any
    /// malformed entry fails construction entirely, and the first bad entry
    /// decides the error.
    pub fn maybe_from_config(config: &SecurityConfig) -> (r: Result<
        Option<SignedRequestVerifier>,
        ConfigError,
    >)
        ensures
            match r {
                Ok(opt) => match opt {
                    None => !config.enabled || config.ed25519_public_keys@.len() == 0,
                    Some(v) => config.enabled && config.ed25519_public_keys@.len() > 0 && v.wf()
                        && v.keys@.len() == config.ed25519_public_keys@.len() && (forall|i: int|
                        0 <= i < v.keys@.len() ==> parsed_entry(
                            config.ed25519_public_keys@[i]@,
                        ) == Ok::<_, ConfigError>(
                            ((#[trigger] v.keys@[i]).key_id@, v.keys@[i].key@),
                        )) && v.tolerance_ms == effective_tolerance_ms(
                        config.clock_skew_tolerance_secs,
                    ) && v.required_key_id == config.required_key_id,
                },
                Err(e) => config.enabled && config.ed25519_public_keys@.len() > 0 && (exists|i: int|
                    0 <= i < config.ed25519_public_keys@.len() && parsed_entry(
                        #[trigger] config.ed25519_public_keys@[i]@,
                    ) == Err::<(Seq<char>, Seq<u8>), _>(e) && (forall|j: int|
                        0 <= j < i ==> parsed_entry(config.ed25519_public_keys@[j]@) is Ok)),
            },
    {
        if !config.enabled || config.ed25519_public_keys.len() == 0 {
            return Ok(None);
        }
        let n: usize = config.ed25519_public_keys.len();
        let mut keys: Vec<KeyEntry> = Vec::new();
        let mut i: usize = 0;
        while i < n
            invariant
                0 <= i <= n,
                n == config.ed25519_public_keys@.len(),
                config.enabled,
                n >= 1,
                keys@.len() == i,
                forall|j: int|
                    0 <= j < i ==> parsed_entry(config.ed25519_public_keys@[j]@) == Ok::<
                        _,
                        ConfigError,
                    >(((#[trigger] keys@[j]).key_id@, keys@[j].key@)),
                forall|j: int| 0 <= j < i ==> (#[trigger] keys@[j]).wf(),
            decreases n - i,
        {
            let entry = match parse_key_entry(config.ed25519_public_keys[i].as_str()) {
                Ok(entry) => entry,
                Err(e) => {
                    proof {
                        let idx = i as int;
                        assert(parsed_entry(config.ed25519_public_keys@[idx]@) == Err::<
                            (Seq<char>, Seq<u8>),
                            ConfigError,
                        >(e));
                        assert forall|j: int| 0 <= j < idx implies parsed_entry(
                            config.ed25519_public_keys@[j]@,
                        ) is Ok by {
                            assert(parsed_entry(config.ed25519_public_keys@[j]@) == Ok::<
                                _,
                                ConfigError,
                            >((keys@[j].key_id@, keys@[j].key@)));
                        }
                    }
                    return Err(e);
                },
            };
            keys.push(entry);
            i = i + 1;
        }
        let required_key_id = match &config.required_key_id {
            Some(required) => Some(required.clone()),
            None => None,
        };
        Ok(
            Some(
                SignedRequestVerifier {
                    keys,
                    tolerance_ms: tolerance_millis(config.clock_skew_tolerance_secs),
                    required_key_id,
                },
            ),
        )
    }

    /// Run the verification pipeline against a buffered request, judging the
    /// timestamp against the given current instant. On success the request is
    /// handed back untouched — in particular the forwarded body is
    /// byte-identical to the one verified.
    pub fn verify_at(&self, request: IncomingRequest, now_ms: i64) -> (r: Result<
        IncomingRequest,
        VerifyError,
    >)
        requires
            self.wf(),
        ensures
            match r {
                Ok(out) => out == request && verify_spec(
                    *self,
                    request.method@,
                    request.path_and_query@,
                    opt_text(request.key_id),
                    opt_text(request.signature),
                    opt_text(request.timestamp),
                    request.body@,
                    now_ms,
                ) == Ok::<(), VerifyError>(()),
                Err(e) => verify_spec(
                    *self,
                    request.method@,
                    request.path_and_query@,
                    opt_text(request.key_id),
                    opt_text(request.signature),
                    opt_text(request.timestamp),
                    request.body@,
                    now_ms,
                ) == Err::<(), VerifyError>(e),
            },
    {
        let key_id = match &request.key_id {
            Some(k) => k,
            None => {
                return Err(VerifyError::MissingKeyId);
            },
        };
        if let Some(required) = &self.required_key_id {
            if !required.eq(key_id) {
                return Err(VerifyError::KeyIdMismatch);
            }
        }
        let key = match lookup_key(&self.keys, key_id) {
            Some(k) => k,
            None => {
                return Err(VerifyError::UnknownKeyId);
            },
        };
        proof {
            crate::security::registry::lemma_key_map_wf(self.keys@, key_id@);
        }
        let sig_text = match &request.signature {
            Some(s) => s,
            None => {
                return Err(VerifyError::MissingSignature);
            },
        };
        let decoded = base64_decode(sig_text.as_str());
        proof {
            match &decoded {
                Some(v) => {
                    assert(v.deep_view() =~= v@);
                    assert(base64_decoded(sig_text@) == Some(v@));
                },
                None => {
                    assert(base64_decoded(sig_text@) is None);
                },
            }
        }
        let sig = match decoded {
            Some(sig) => sig,
            None => {
                return Err(VerifyError::BadSignatureEncoding);
            },
        };
        if sig.len() != 64 {
            return Err(VerifyError::BadSignatureLength);
        }
        let stamp_text = match &request.timestamp {
            Some(t) => t,
            None => {
                return Err(VerifyError::MissingTimestamp);
            },
        };
        let stamp_ms = match timestamp_millis(stamp_text.as_str()) {
            Some(ms) => ms,
            None => {
                return Err(VerifyError::BadTimestampFormat);
            },
        };
        if !check_tolerance(stamp_ms, now_ms, self.tolerance_ms) {
            return Err(VerifyError::TimestampOutOfTolerance);
        }
        let message = canonical_message(
            stamp_text.as_str(),
            request.method.as_str(),
            request.path_and_query.as_str(),
            request.body.as_slice(),
        );
        if !verify_signature(key.as_slice(), message.as_slice(), sig.as_slice()) {
            return Err(VerifyError::SignatureMismatch);
        }
        Ok(request)
    }

    /// Run the verification pipeline against the wall clock. What the clock
    /// reads only moves the tolerance window: the header checks, the pin,
    /// and the registry lookup reject the same requests at every instant.
    pub fn verify(&self, request: IncomingRequest) -> (r: Result<IncomingRequest, VerifyError>)
        requires
            self.wf(),
        ensures
            r matches Ok(out) ==> out == request,
            r matches Err(e) ==> e != VerifyError::BodyReadFailure,
            request.key_id is None ==> r == Err::<IncomingRequest, VerifyError>(
                VerifyError::MissingKeyId,
            ),
            request.key_id matches Some(kid) ==> (!pin_accepts(*self, kid@) ==> r == Err::<
                IncomingRequest,
                VerifyError,
            >(VerifyError::KeyIdMismatch)),
            request.key_id matches Some(kid) ==> (pin_accepts(*self, kid@) && !key_map(
                self.keys@,
            ).contains_key(kid@) ==> r == Err::<IncomingRequest, VerifyError>(
                VerifyError::UnknownKeyId,
            )),
    {
        let now_ms: i64 = clock::now_millis();
        let ghost method = request.method@;
        let ghost path = request.path_and_query@;
        let ghost kid = opt_text(request.key_id);
        let ghost sig = opt_text(request.signature);
        let ghost stamp = opt_text(request.timestamp);
        let ghost body = request.body@;
        let r = self.verify_at(request, now_ms);
        proof {
            lemma_verify_spec_never_body_failure(*self, method, path, kid, sig, stamp, body, now_ms);
        }
        r
    }
}

/// The view of an optional header value.
pub open spec fn opt_text(o: Option<String>) -> Option<Seq<char>> {
    match o {
        None => None,
        Some(s) => Some(s@),
    }
}

/// Law: acceptance means every check passed. An accepted request presented
/// all three headers; its key id passed the pin and resolved to a registered
/// key; its signature was 64 bytes of valid base64; its timestamp parsed and
/// lay within tolerance of the verifying instant; and Ed25519 verification
/// accepted the signature over the canonical message under the resolved key.
/// (`verify_at` adds that the accepted request, body included, is handed
/// back untouched.)
pub proof fn lemma_acceptance_means_all_checks(
    v: SignedRequestVerifier,
    method: Seq<char>,
    path: Seq<char>,
    key_id: Option<Seq<char>>,
    signature: Option<Seq<char>>,
    stamp: Option<Seq<char>>,
    body: Seq<u8>,
    now_ms: i64,
)
    requires
        verify_spec(v, method, path, key_id, signature, stamp, body, now_ms) == Ok::<
            (),
            VerifyError,
        >(()),
    ensures
        key_id is Some && signature is Some && stamp is Some,
        v.required_key_id matches Some(req) ==> req@ == key_id->0,
        key_map(v.keys@).contains_key(key_id->0),
        base64_decoded(signature->0) matches Some(sig) && sig.len() == 64,
        stamp_millis(stamp->0) matches Some(ms) && within_tolerance(ms, now_ms, v.tolerance_ms),
        ed25519_accepts(
            key_map(v.keys@)[key_id->0],
            canonical_bytes(stamp->0, method, path, body),
            base64_decoded(signature->0)->0,
        ),
{
}

/// Law: every check passing means acceptance. A request with all three
/// headers, the pinned (or any registered) key id, a 64-byte base64
/// signature, a timestamp within tolerance, and a signature that verifies
/// over the canonical message is accepted.
pub proof fn lemma_all_checks_mean_acceptance(
    v: SignedRequestVerifier,
    method: Seq<char>,
    path: Seq<char>,
    kid: Seq<char>,
    sig_text: Seq<char>,
    stamp: Seq<char>,
    body: Seq<u8>,
    now_ms: i64,
)
    requires
        v.required_key_id matches Some(req) ==> req@ == kid,
        key_map(v.keys@).contains_key(kid),
        base64_decoded(sig_text) matches Some(sig) && sig.len() == 64,
        stamp_millis(stamp) matches Some(ms) && within_tolerance(ms, now_ms, v.tolerance_ms),
        ed25519_accepts(
            key_map(v.keys@)[kid],
            canonical_bytes(stamp, method, path, body),
            base64_decoded(sig_text)->0,
        ),
    ensures
        verify_spec(v, method, path, Some(kid), Some(sig_text), Some(stamp), body, now_ms) == Ok::<
            (),
            VerifyError,
        >(()),
{
}

/// Law: an unregistered key id is rejected outright, whatever the signature,
/// timestamp or body — no other registered key is consulted in its place.
pub proof fn lemma_unknown_key_rejected(
    v: SignedRequestVerifier,
    method: Seq<char>,
    path: Seq<char>,
    kid: Seq<char>,
    signature: Option<Seq<char>>,
    stamp: Option<Seq<char>>,
    body: Seq<u8>,
    now_ms: i64,
)
    requires
        v.required_key_id matches Some(req) ==> req@ == kid,
        !key_map(v.keys@).contains_key(kid),
    ensures
        verify_spec(v, method, path, Some(kid), signature, stamp, body, now_ms) == Err::<
            (),
            VerifyError,
        >(VerifyError::UnknownKeyId),
{
}

/// Law: with a pinned required key id, presenting any other id is rejected
/// before the registry is even consulted — a valid signature under a
/// different registered key does not help.
pub proof fn lemma_pinned_key_enforced(
    v: SignedRequestVerifier,
    method: Seq<char>,
    path: Seq<char>,
    kid: Seq<char>,
    signature: Option<Seq<char>>,
    stamp: Option<Seq<char>>,
    body: Seq<u8>,
    now_ms: i64,
)
    requires
        v.required_key_id matches Some(req) && req@ != kid,
    ensures
        verify_spec(v, method, path, Some(kid), signature, stamp, body, now_ms) == Err::<
            (),
            VerifyError,
        >(VerifyError::KeyIdMismatch),
{
}

/// The interception point in front of route dispatch. When the option holds
/// nothing (the explicit pass-through mode) every request is forwarded
/// unchanged, signed or not. When it holds a verifier, a request is
/// forwarded exactly when the pipeline accepts it, and what is forwarded is
/// the buffered request, untouched.
pub fn gate(
    verifier: &Option<SignedRequestVerifier>,
    request: IncomingRequest,
    now_ms: i64,
) -> (r: Result<IncomingRequest, VerifyError>)
    requires
        verifier matches Some(v) ==> v.wf(),
    ensures
        verifier is None ==> r == Ok::<IncomingRequest, VerifyError>(request),
        verifier matches Some(v) ==> match r {
            Ok(out) => out == request && verify_spec(
                *v,
                request.method@,
                request.path_and_query@,
                opt_text(request.key_id),
                opt_text(request.signature),
                opt_text(request.timestamp),
                request.body@,
                now_ms,
            ) == Ok::<(), VerifyError>(()),
            Err(e) => verify_spec(
                *v,
                request.method@,
                request.path_and_query@,
                opt_text(request.key_id),
                opt_text(request.signature),
                opt_text(request.timestamp),
                request.body@,
                now_ms,
            ) == Err::<(), VerifyError>(e),
        },
{
    match verifier {
        Some(v) => v.verify_at(request, now_ms),
        None => Ok(request),
    }
}

} // verus!
