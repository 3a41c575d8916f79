//! Token codec behaviour: issue/verify round trip, rolling expiry,
//! tamper resistance, malformed input, wrong secret.

use social_core::schemas::AuthBody;
use social_core::token::{Claims, TokenCodec, TokenError, TOKEN_TTL_SECS};

const NOW: usize = 1_700_000_000;

fn codec() -> TokenCodec {
    TokenCodec::new(b"test-signing-secret".to_vec())
}

#[test]
fn issued_token_verifies_with_same_subject() {
    let codec = codec();
    let subject = String::from("alice");
    let token = codec.issue(&subject, NOW).expect("signing should succeed");
    let claims = codec.verify(&token, NOW).expect("fresh token should verify");
    assert_eq!(claims.sub, subject);
    assert_eq!(claims.exp, NOW + TOKEN_TTL_SECS);
}

#[test]
fn token_verifies_until_just_before_expiry() {
    let codec = codec();
    let subject = String::from("bob");
    let token = codec.issue(&subject, NOW).expect("signing should succeed");
    let claims = codec.verify(&token, NOW + TOKEN_TTL_SECS - 1).expect("still valid");
    assert_eq!(claims.sub, subject);
}

#[test]
fn token_expires_at_ttl_boundary_and_after() {
    let codec = codec();
    let subject = String::from("carol");
    let token = codec.issue(&subject, NOW).expect("signing should succeed");
    assert_eq!(codec.verify(&token, NOW + TOKEN_TTL_SECS).unwrap_err(), TokenError::Expired);
    assert_eq!(codec.verify(&token, NOW + TOKEN_TTL_SECS + 1).unwrap_err(), TokenError::Expired);
    assert_eq!(codec.verify(&token, usize::MAX).unwrap_err(), TokenError::Expired);
}

#[test]
fn tampered_signature_never_verifies() {
    let codec = codec();
    let subject = String::from("dave");
    let token = codec.issue(&subject, NOW).expect("signing should succeed");
    let dot = token.rfind('.').expect("a token has a signature segment");
    let sig_start = dot + 1;
    let bytes = token.as_bytes();
    for pos in sig_start..token.len() {
        let mut tampered = bytes.to_vec();
        tampered[pos] = if tampered[pos] == b'A' { b'B' } else { b'A' };
        let tampered = String::from_utf8(tampered).unwrap();
        if tampered == token {
            continue;
        }
        let outcome = codec.verify(&tampered, NOW);
        assert!(outcome.is_err(), "tampered byte {} verified", pos);
        if pos < token.len() - 1 {
            assert_eq!(outcome.unwrap_err(), TokenError::BadSignature);
        }
    }
}

#[test]
fn wrong_secret_fails_signature_check() {
    let codec = codec();
    let other = TokenCodec::new(b"another-secret".to_vec());
    let token = codec.issue(&String::from("erin"), NOW).expect("signing should succeed");
    assert_eq!(other.verify(&token, NOW).unwrap_err(), TokenError::BadSignature);
}

#[test]
fn garbage_tokens_are_malformed() {
    let codec = codec();
    for bad in ["", "abc", "a.b", "a.b.c", "...."] {
        let bad = String::from(bad);
        assert_eq!(codec.verify(&bad, NOW).unwrap_err(), TokenError::Malformed);
    }
}

#[test]
fn claims_use_rolling_ttl() {
    let claims = Claims::new(String::from("frank"), NOW);
    assert_eq!(claims.sub, "frank");
    assert_eq!(claims.exp, NOW + TOKEN_TTL_SECS);
}

#[test]
fn auth_body_wraps_bearer_token() {
    let body = AuthBody::new(String::from("token-text"));
    assert_eq!(body.access_token, "token-text");
    assert_eq!(body.token_type, "Bearer");
}
