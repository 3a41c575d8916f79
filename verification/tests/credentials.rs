//! Credential hasher behaviour: round trip, mismatch, salting, malformed
//! digests.

use social_core::hashing::{hash_password, verify_password};

#[test]
fn hash_then_verify_succeeds() {
    let password = String::from("correct horse battery staple");
    let digest = hash_password(&password).expect("hashing should succeed");
    assert!(verify_password(&password, &digest));
}

#[test]
fn verify_rejects_other_password() {
    let password = String::from("pw-one");
    let other = String::from("pw-two");
    let digest = hash_password(&password).expect("hashing should succeed");
    assert!(!verify_password(&other, &digest));
}

#[test]
fn digest_is_salted_per_call() {
    let password = String::from("same input");
    let first = hash_password(&password).expect("hashing should succeed");
    let second = hash_password(&password).expect("hashing should succeed");
    assert_ne!(first, second);
    assert!(verify_password(&password, &first));
    assert!(verify_password(&password, &second));
}

#[test]
fn digest_is_not_the_plaintext() {
    let password = String::from("plain");
    let digest = hash_password(&password).expect("hashing should succeed");
    assert_ne!(digest, password);
}

#[test]
fn malformed_digest_reads_as_mismatch() {
    let password = String::from("anything");
    let garbage = String::from("not a digest at all");
    assert!(!verify_password(&password, &garbage));
    let empty = String::new();
    assert!(!verify_password(&password, &empty));
}
