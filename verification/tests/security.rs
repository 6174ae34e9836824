use base64::Engine;
use ed25519_dalek::{Signer, SigningKey};
use realworld_core::auth::token_from_header;
use realworld_core::config::{OpaConfig, SecurityConfig};
use realworld_core::problem::{unauthorized_problem, ProblemDetails};
use realworld_core::security::canonical::canonical_message;
use realworld_core::security::registry::ConfigError;
use realworld_core::security::timestamp::{parse_i64, timestamp_millis, tolerance_millis};
use realworld_core::security::{gate, IncomingRequest, SignedRequestVerifier, VerifyError};

const STAMP: &str = "2024-01-01T00:00:00Z";
const STAMP_MS: i64 = 1_704_067_200_000;

fn b64(bytes: &[u8]) -> String {
    base64::engine::general_purpose::STANDARD.encode(bytes)
}

fn signing_key(seed: u8) -> SigningKey {
    SigningKey::from_bytes(&[seed; 32])
}

fn key_entry(id: &str, key: &SigningKey) -> String {
    format!("{}:{}", id, b64(key.verifying_key().as_bytes()))
}

fn config(entries: Vec<String>, required: Option<&str>, tolerance_secs: u64) -> SecurityConfig {
    SecurityConfig {
        enabled: true,
        required_key_id: required.map(|s| s.to_string()),
        ed25519_public_keys: entries,
        clock_skew_tolerance_secs: tolerance_secs,
    }
}

fn make_verifier(entries: Vec<String>, required: Option<&str>) -> SignedRequestVerifier {
    SignedRequestVerifier::maybe_from_config(&config(entries, required, 5))
        .unwrap()
        .unwrap()
}

fn signed_request(key: &SigningKey, key_id: &str, stamp: &str, method: &str, path: &str, body: &[u8]) -> IncomingRequest {
    let canonical = canonical_message(stamp, method, path, body);
    let signature = key.sign(&canonical);
    IncomingRequest {
        method: method.to_string(),
        path_and_query: path.to_string(),
        key_id: Some(key_id.to_string()),
        signature: Some(b64(&signature.to_bytes())),
        timestamp: Some(stamp.to_string()),
        body: body.to_vec(),
    }
}

#[test]
fn accepts_correctly_signed_request_and_preserves_body() {
    let key = signing_key(1);
    let v = make_verifier(vec![key_entry("k1", &key)], None);
    let body = br#"{"title":"a"}"#;
    let request = signed_request(&key, "k1", STAMP, "POST", "/articles?x=1", body);
    let out = v.verify_at(request, STAMP_MS + 2_000).unwrap();
    assert_eq!(out.body, body.to_vec());
    assert_eq!(out.method, "POST");
    assert_eq!(out.path_and_query, "/articles?x=1");
}

#[test]
fn rejects_unknown_key_id_without_fallback() {
    let key = signing_key(1);
    let v = make_verifier(vec![key_entry("k1", &key)], None);
    let body = br#"{"title":"a"}"#;
    let mut request = signed_request(&key, "k1", STAMP, "POST", "/articles?x=1", body);
    request.key_id = Some("k2".to_string());
    let err = v.verify_at(request, STAMP_MS + 2_000).unwrap_err();
    assert_eq!(err, VerifyError::UnknownKeyId);
}

#[test]
fn rejects_other_registered_key_when_pinned() {
    let k1 = signing_key(1);
    let k2 = signing_key(2);
    let v = make_verifier(vec![key_entry("k1", &k1), key_entry("k2", &k2)], Some("k1"));
    let request = signed_request(&k2, "k2", STAMP, "POST", "/articles?x=1", b"body");
    let err = v.verify_at(request, STAMP_MS).unwrap_err();
    assert_eq!(err, VerifyError::KeyIdMismatch);
}

#[test]
fn tolerance_boundary_is_inclusive() {
    let key = signing_key(1);
    let v = make_verifier(vec![key_entry("k1", &key)], None);
    for (now, expect_ok) in [
        (STAMP_MS + 5_000, true),
        (STAMP_MS - 5_000, true),
        (STAMP_MS + 5_001, false),
        (STAMP_MS - 5_001, false),
    ] {
        let request = signed_request(&key, "k1", STAMP, "GET", "/articles", b"");
        let result = v.verify_at(request, now);
        if expect_ok {
            assert!(result.is_ok());
        } else {
            assert_eq!(result.unwrap_err(), VerifyError::TimestampOutOfTolerance);
        }
    }
}

#[test]
fn altering_any_signed_part_invalidates() {
    let key = signing_key(1);
    let v = make_verifier(vec![key_entry("k1", &key)], None);
    let body = br#"{"title":"a"}"#;
    let now = STAMP_MS + 1_000;
    let fresh = || signed_request(&key, "k1", STAMP, "POST", "/articles?x=1", body);

    let mut tampered = fresh();
    tampered.body[0] ^= 1;
    assert_eq!(v.verify_at(tampered, now).unwrap_err(), VerifyError::SignatureMismatch);

    let mut tampered = fresh();
    tampered.method = "PUT".to_string();
    assert_eq!(v.verify_at(tampered, now).unwrap_err(), VerifyError::SignatureMismatch);

    let mut tampered = fresh();
    tampered.path_and_query = "/articles?x=2".to_string();
    assert_eq!(v.verify_at(tampered, now).unwrap_err(), VerifyError::SignatureMismatch);

    // The same instant written in the other accepted format is still a
    // different raw string, so the canonical message changes.
    let mut tampered = fresh();
    tampered.timestamp = Some("1704067200".to_string());
    assert_eq!(v.verify_at(tampered, now).unwrap_err(), VerifyError::SignatureMismatch);

    let mut tampered = fresh();
    let mut sig = base64::engine::general_purpose::STANDARD
        .decode(tampered.signature.as_deref().unwrap())
        .unwrap();
    sig[10] ^= 1;
    tampered.signature = Some(b64(&sig));
    assert_eq!(v.verify_at(tampered, now).unwrap_err(), VerifyError::SignatureMismatch);
}

#[test]
fn missing_headers_are_rejected() {
    let key = signing_key(1);
    let v = make_verifier(vec![key_entry("k1", &key)], None);
    let fresh = || signed_request(&key, "k1", STAMP, "GET", "/", b"");

    let mut request = fresh();
    request.key_id = None;
    assert_eq!(v.verify_at(request, STAMP_MS).unwrap_err(), VerifyError::MissingKeyId);

    let mut request = fresh();
    request.signature = None;
    assert_eq!(v.verify_at(request, STAMP_MS).unwrap_err(), VerifyError::MissingSignature);

    let mut request = fresh();
    request.timestamp = None;
    assert_eq!(v.verify_at(request, STAMP_MS).unwrap_err(), VerifyError::MissingTimestamp);
}

#[test]
fn malformed_signatures_are_rejected() {
    let key = signing_key(1);
    let v = make_verifier(vec![key_entry("k1", &key)], None);
    let fresh = || signed_request(&key, "k1", STAMP, "GET", "/", b"");

    let mut request = fresh();
    request.signature = Some("!!!not-base64!!!".to_string());
    assert_eq!(v.verify_at(request, STAMP_MS).unwrap_err(), VerifyError::BadSignatureEncoding);

    let mut request = fresh();
    request.signature = Some(b64(&[7u8; 10]));
    assert_eq!(v.verify_at(request, STAMP_MS).unwrap_err(), VerifyError::BadSignatureLength);

    let mut request = fresh();
    request.timestamp = Some("not a timestamp".to_string());
    assert_eq!(v.verify_at(request, STAMP_MS).unwrap_err(), VerifyError::BadTimestampFormat);
}

#[test]
fn integer_second_timestamps_are_accepted() {
    let key = signing_key(1);
    let v = make_verifier(vec![key_entry("k1", &key)], None);
    let request = signed_request(&key, "k1", "1704067200", "GET", "/articles", b"");
    assert!(v.verify_at(request, STAMP_MS + 3_000).is_ok());
}

#[test]
fn rfc3339_with_offset_is_accepted() {
    let key = signing_key(1);
    let v = make_verifier(vec![key_entry("k1", &key)], None);
    let request = signed_request(&key, "k1", "2024-01-01T01:00:00+01:00", "GET", "/articles", b"");
    assert!(v.verify_at(request, STAMP_MS + 1_000).is_ok());
}

#[test]
fn later_entry_with_same_id_wins() {
    let old_key = signing_key(3);
    let new_key = signing_key(4);
    let v = make_verifier(vec![key_entry("k1", &old_key), key_entry("k1", &new_key)], None);

    let request = signed_request(&new_key, "k1", STAMP, "GET", "/", b"");
    assert!(v.verify_at(request, STAMP_MS).is_ok());

    let request = signed_request(&old_key, "k1", STAMP, "GET", "/", b"");
    assert_eq!(v.verify_at(request, STAMP_MS).unwrap_err(), VerifyError::SignatureMismatch);
}

#[test]
fn disabled_configuration_passes_everything_through() {
    let cfg = SecurityConfig {
        enabled: false,
        required_key_id: None,
        ed25519_public_keys: vec!["garbage".to_string()],
        clock_skew_tolerance_secs: 5,
    };
    assert!(SignedRequestVerifier::maybe_from_config(&cfg).unwrap().is_none());

    let request = IncomingRequest {
        method: "DELETE".to_string(),
        path_and_query: "/anything".to_string(),
        key_id: None,
        signature: None,
        timestamp: None,
        body: b"unsigned".to_vec(),
    };
    let out = gate(&None, request, 0).unwrap();
    assert_eq!(out.body, b"unsigned".to_vec());
    assert_eq!(out.method, "DELETE");
}

#[test]
fn empty_key_list_means_disabled() {
    let cfg = config(vec![], None, 5);
    assert!(SignedRequestVerifier::maybe_from_config(&cfg).unwrap().is_none());
}

#[test]
fn malformed_key_entries_fail_construction() {
    let cases: Vec<(String, ConfigError)> = vec![
        ("no-separator".to_string(), ConfigError::InvalidKeyEntry),
        ("k1:???".to_string(), ConfigError::InvalidKeyBase64),
        (format!("k1:{}", b64(&[1u8; 16])), ConfigError::InvalidKeyLength),
    ];
    for (entry, expected) in cases {
        let cfg = config(vec![entry], None, 5);
        let err = SignedRequestVerifier::maybe_from_config(&cfg).unwrap_err();
        assert_eq!(err, expected);
    }

    let mut bad_point: Option<[u8; 32]> = None;
    for first in 0u8..=255 {
        let mut candidate = [0u8; 32];
        candidate[0] = first;
        candidate[31] = 0x7f;
        if ed25519_dalek::VerifyingKey::from_bytes(&candidate).is_err() {
            bad_point = Some(candidate);
            break;
        }
    }
    let bad = bad_point.expect("some 32-byte string fails point decompression");
    let cfg = config(vec![format!("k1:{}", b64(&bad))], None, 5);
    assert_eq!(
        SignedRequestVerifier::maybe_from_config(&cfg).unwrap_err(),
        ConfigError::InvalidKey
    );
}

#[test]
fn first_bad_entry_decides_the_error() {
    let key = signing_key(1);
    let cfg = config(
        vec!["bad-entry".to_string(), key_entry("k1", &key)],
        None,
        5,
    );
    assert_eq!(
        SignedRequestVerifier::maybe_from_config(&cfg).unwrap_err(),
        ConfigError::InvalidKeyEntry
    );
}

#[test]
fn canonical_message_layout_is_exact() {
    let canonical = canonical_message("ts", "GET", "/p?q=1", b"xy");
    assert_eq!(canonical, b"ts\nGET\n/p?q=1\nxy".to_vec());
}

#[test]
fn verify_error_details_are_internal_only() {
    assert_eq!(VerifyError::MissingKeyId.detail(), "missing header x-key-id");
    assert_eq!(VerifyError::KeyIdMismatch.detail(), "unexpected key id");
    assert_eq!(VerifyError::UnknownKeyId.detail(), "unknown key id");
    assert_eq!(VerifyError::BadSignatureEncoding.detail(), "invalid signature encoding");
    assert_eq!(VerifyError::BadSignatureLength.detail(), "invalid signature length");
    assert_eq!(VerifyError::BadTimestampFormat.detail(), "invalid timestamp");
    assert_eq!(VerifyError::TimestampOutOfTolerance.detail(), "timestamp outside allowed skew");
    assert_eq!(VerifyError::BodyReadFailure.detail(), "unable to read body for verification");
    assert_eq!(VerifyError::SignatureMismatch.detail(), "signature mismatch");
}

#[test]
fn unauthorized_problem_is_uniform() {
    let problem = unauthorized_problem();
    assert_eq!(problem.status, 401);
    assert_eq!(problem.title, "Unauthorized");
    assert_eq!(problem.detail.as_deref(), Some("unauthorized"));
    assert_eq!(problem.kind.as_deref(), Some("about:blank#401"));
}

#[test]
fn problem_details_take_canonical_titles() {
    let problem = ProblemDetails::new(404);
    assert_eq!(problem.status, 404);
    assert_eq!(problem.title, "Not Found");
    assert_eq!(problem.kind.as_deref(), Some("about:blank#404"));
    assert!(problem.detail.is_none());
}

#[test]
fn parse_i64_agrees_with_std() {
    let samples = [
        "0",
        "42",
        "-7",
        "+13",
        "",
        "+",
        "-",
        "12a",
        " 5",
        "9223372036854775807",
        "9223372036854775808",
        "-9223372036854775808",
        "-9223372036854775809",
        "99999999999999999999999999",
        "007",
    ];
    for s in samples {
        assert_eq!(parse_i64(s), s.parse::<i64>().ok(), "mismatch for {:?}", s);
    }
}

#[test]
fn timestamp_millis_handles_both_formats() {
    assert_eq!(timestamp_millis(STAMP), Some(STAMP_MS));
    assert_eq!(timestamp_millis("1704067200"), Some(STAMP_MS));
    assert_eq!(timestamp_millis("2024-01-01T01:00:00+01:00"), Some(STAMP_MS));
    assert_eq!(timestamp_millis("never"), None);
    // A count of seconds outside chrono's date range is rejected.
    assert_eq!(timestamp_millis("9999999999999999"), None);
}

#[test]
fn tolerance_fallback_matches_delta_range() {
    assert_eq!(tolerance_millis(5), 5_000);
    assert_eq!(tolerance_millis(0), 0);
    assert_eq!(tolerance_millis(9_223_372_036_854_775), 9_223_372_036_854_775_000);
    assert_eq!(tolerance_millis(9_223_372_036_854_776), 5_000);
    let in_range = chrono::TimeDelta::from_std(std::time::Duration::from_secs(
        9_223_372_036_854_775,
    ));
    assert!(in_range.is_ok());
    let out_of_range = chrono::TimeDelta::from_std(std::time::Duration::from_secs(
        9_223_372_036_854_776,
    ));
    assert!(out_of_range.is_err());
}

#[test]
fn policy_url_joins_base_and_path() {
    let opa = OpaConfig {
        base_url: "http://opa:8181///".to_string(),
        policy_path: "/app/authz".to_string(),
        cache_ttl_seconds: 30,
    };
    assert_eq!(opa.policy_url(), "http://opa:8181/v1/data/app/authz");
    assert_eq!(opa.cache_ttl(), 30);
}

#[test]
fn token_from_header_strips_schemes() {
    assert_eq!(token_from_header("Token abc").unwrap().as_str(), "abc");
    assert_eq!(token_from_header("Bearer abc").unwrap().as_str(), "abc");
    assert_eq!(token_from_header("abc").unwrap().as_str(), "abc");
    assert_eq!(token_from_header("  raw-token  ").unwrap().as_str(), "raw-token");
    assert!(token_from_header("Token    ").is_err());
    assert!(token_from_header("").is_err());
}
