//! Identity resolver scenarios: header parsing, the rejection ladder, and
//! the deleted-account case.

use social_core::errors::AuthError;
use social_core::resolver::{bearer_token, resolve};
use social_core::schemas::{AuthPayload, CreateUserSchema};
use social_core::token::{TokenCodec, TOKEN_TTL_SECS};
use social_core::user_service::UserService;

const NOW: usize = 1_700_000_000;

fn codec() -> TokenCodec {
    TokenCodec::new(b"test-signing-secret".to_vec())
}

fn registered(username: &str, password: &str) -> UserService {
    let mut service = UserService::new();
    service
        .create_user(CreateUserSchema {
            username: String::from(username),
            password: String::from(password),
            avatar: None,
            about: String::new(),
        })
        .expect("registration");
    service
}

fn login(service: &UserService, username: &str, password: &str) -> String {
    service
        .login_by_username(
            AuthPayload { username: String::from(username), password: String::from(password) },
            &codec(),
            NOW,
        )
        .expect("login")
}

#[test]
fn bearer_token_takes_the_second_segment() {
    assert_eq!(bearer_token(&String::from("Bearer abc")), Some(String::from("abc")));
    assert_eq!(bearer_token(&String::from("  Bearer \t abc  more")), Some(String::from("abc")));
    assert_eq!(bearer_token(&String::from("Token xyz")), Some(String::from("xyz")));
    assert_eq!(bearer_token(&String::from("Bearer")), None);
    assert_eq!(bearer_token(&String::from("  Bearer   ")), None);
    assert_eq!(bearer_token(&String::from("")), None);
    assert_eq!(bearer_token(&String::from("   ")), None);
}

#[test]
fn valid_token_resolves_the_account() {
    let service = registered("alice", "pw");
    let token = login(&service, "alice", "pw");
    let header = format!("Bearer {}", token);
    let identity =
        resolve(Some(&header), &codec(), &service.repository, NOW).expect("resolution");
    assert_eq!(identity.username, "alice");
}

#[test]
fn missing_header_is_missing_credentials() {
    let service = registered("alice", "pw");
    assert_eq!(
        resolve(None, &codec(), &service.repository, NOW).unwrap_err(),
        AuthError::MissingCredentials
    );
}

#[test]
fn header_without_token_segment_is_invalid() {
    let service = registered("alice", "pw");
    for header in ["Bearer", "", "   "] {
        let header = String::from(header);
        assert_eq!(
            resolve(Some(&header), &codec(), &service.repository, NOW).unwrap_err(),
            AuthError::InvalidToken
        );
    }
}

#[test]
fn garbage_token_is_invalid() {
    let service = registered("alice", "pw");
    let header = String::from("Bearer not-a-token");
    assert_eq!(
        resolve(Some(&header), &codec(), &service.repository, NOW).unwrap_err(),
        AuthError::InvalidToken
    );
}

#[test]
fn expired_token_is_invalid_not_distinguished() {
    let service = registered("alice", "pw");
    let token = login(&service, "alice", "pw");
    let header = format!("Bearer {}", token);
    assert_eq!(
        resolve(Some(&header), &codec(), &service.repository, NOW + TOKEN_TTL_SECS + 1)
            .unwrap_err(),
        AuthError::InvalidToken
    );
}

#[test]
fn token_for_deleted_account_is_invalid_like_any_other() {
    let mut service = registered("alice", "pw");
    let token = login(&service, "alice", "pw");
    let identity = resolve(
        Some(&format!("Bearer {}", token)),
        &codec(),
        &service.repository,
        NOW,
    )
    .expect("resolution before deletion");
    service.delete_user(identity.id).expect("deletion");

    let after = resolve(Some(&format!("Bearer {}", token)), &codec(), &service.repository, NOW);
    assert_eq!(after.unwrap_err(), AuthError::InvalidToken);

    let garbage = resolve(
        Some(&String::from("Bearer not-a-token")),
        &codec(),
        &service.repository,
        NOW,
    );
    assert_eq!(garbage.unwrap_err(), AuthError::InvalidToken);
}

#[test]
fn wrong_secret_token_is_invalid() {
    let service = registered("alice", "pw");
    let other = TokenCodec::new(b"another-secret".to_vec());
    let token = other.issue(&String::from("alice"), NOW).expect("signing");
    let header = format!("Bearer {}", token);
    assert_eq!(
        resolve(Some(&header), &codec(), &service.repository, NOW).unwrap_err(),
        AuthError::InvalidToken
    );
}
