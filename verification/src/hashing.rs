//! Credential hashing: one-way, salted password digests.
//!
//! Hashing salts every call, so two digests of the same password differ;
//! nothing useful can therefore be said about the digest text itself.
//! What the contracts pin down instead is the check relation: whether a
//! plaintext matches a digest is a function of the two strings alone, and
//! a digest produced here always matches the plaintext it was made from.

use vstd::prelude::*;

verus! {

/// The outcome of checking a plaintext against a digest, as computed by
/// `bcrypt::verify`: `Some(matches)` for a well-formed digest, `None` for
/// a malformed one.
pub uninterp spec fn check_of(password: Seq<char>, digest: Seq<char>) -> Option<bool>;

/// A plaintext matches a digest when the check succeeds positively.
pub open spec fn digest_matches(password: Seq<char>, digest: Seq<char>) -> bool {
    check_of(password, digest) == Some(true)
}

/// Relies on bcrypt::hash with the default cost: the digest is salted
/// from OS randomness, and bcrypt::verify accepts the plaintext against it.
#[verifier::external_body]
fn bcrypt_hash(password: &String) -> (r: Option<String>)
    ensures
        r matches Some(digest) ==> digest_matches(password@, digest@),
{
    bcrypt::hash(password.as_str(), bcrypt::DEFAULT_COST).ok()
}

/// Relies on bcrypt::verify: the outcome is a function of the plaintext
/// and the digest alone, and mismatches are found in constant time.
#[verifier::external_body]
fn bcrypt_check(password: &String, digest: &String) -> (r: Option<bool>)
    ensures
        r == check_of(password@, digest@),
{
    bcrypt::verify(password.as_str(), digest.as_str()).ok()
}

/// Hashes a plaintext password into a salted digest. Fails only when the
/// underlying randomness source does.
pub fn hash_password(password: &String) -> (r: Option<String>)
    ensures
        r matches Some(digest) ==> digest_matches(password@, digest@),
{
    bcrypt_hash(password)
}

/// Checks a plaintext against a stored digest. A malformed digest is
/// reported as a mismatch, not as a distinguishable error.
pub fn verify_password(password: &String, digest: &String) -> (r: bool)
    ensures
        r == digest_matches(password@, digest@),
{
    match bcrypt_check(password, digest) {
        Some(outcome) => outcome,
        None => false,
    }
}

/// A digest freshly produced from a password always verifies against that
/// password: the positive half of the hashing round trip.
pub proof fn lemma_hash_then_verify(password: Seq<char>, digest: Seq<char>)
    requires
        digest_matches(password, digest),
    ensures
        check_of(password, digest) == Some(true),
{
}

} // verus!
