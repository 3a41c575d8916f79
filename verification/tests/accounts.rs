//! Account service scenarios: registration, uniqueness, login, lookup,
//! update and deletion.

use social_core::errors::{AppError, AuthError, EntityKind};
use social_core::schemas::{AuthPayload, CreateUserSchema, UpdateUserSchema};
use social_core::token::{TokenCodec, TOKEN_TTL_SECS};
use social_core::user_service::UserService;

const NOW: usize = 1_700_000_000;

fn codec() -> TokenCodec {
    TokenCodec::new(b"test-signing-secret".to_vec())
}

fn registration(username: &str, password: &str) -> CreateUserSchema {
    CreateUserSchema {
        username: String::from(username),
        password: String::from(password),
        avatar: None,
        about: String::from("hi"),
    }
}

fn login(username: &str, password: &str) -> AuthPayload {
    AuthPayload { username: String::from(username), password: String::from(password) }
}

#[test]
fn register_then_case_insensitive_collision() {
    let mut service = UserService::new();
    let created = service.create_user(registration("alice", "pw1")).expect("first registration");
    assert_eq!(created.username, "alice");
    assert_eq!(created.about, "hi");

    let err = service.create_user(registration("Alice", "pw2")).unwrap_err();
    assert_eq!(err, AppError::Auth(AuthError::UsernameTaken));

    let err = service.create_user(registration("ALICE", "pw3")).unwrap_err();
    assert_eq!(err, AppError::Auth(AuthError::UsernameTaken));
}

#[test]
fn registration_never_returns_the_digest() {
    let mut service = UserService::new();
    let created = service.create_user(registration("grace", "pw")).expect("registration");
    let listed = service.find_all_users();
    assert_eq!(listed.len(), 1);
    assert_eq!(listed[0].id, created.id);
    assert_eq!(listed[0].username, "grace");
}

#[test]
fn login_collapses_unknown_and_wrong_into_one_error() {
    let mut service = UserService::new();
    service.create_user(registration("alice", "pw1")).expect("registration");

    let wrong = service.login_by_username(login("alice", "wrong"), &codec(), NOW).unwrap_err();
    assert_eq!(wrong, AuthError::WrongCredentials);

    let unknown = service
        .login_by_username(login("nonexistent", "anything"), &codec(), NOW)
        .unwrap_err();
    assert_eq!(unknown, AuthError::WrongCredentials);
    assert_eq!(wrong, unknown);
}

#[test]
fn login_rejects_empty_credentials() {
    let mut service = UserService::new();
    service.create_user(registration("alice", "pw1")).expect("registration");
    let err = service.login_by_username(login("", "pw1"), &codec(), NOW).unwrap_err();
    assert_eq!(err, AuthError::MissingCredentials);
    let err = service.login_by_username(login("alice", ""), &codec(), NOW).unwrap_err();
    assert_eq!(err, AuthError::MissingCredentials);
}

#[test]
fn login_issues_verifiable_token() {
    let mut service = UserService::new();
    service.create_user(registration("alice", "pw1")).expect("registration");
    let codec = codec();
    let token = service.login_by_username(login("alice", "pw1"), &codec, NOW).expect("login");
    let claims = codec.verify(&token, NOW).expect("fresh token");
    assert_eq!(claims.sub, "alice");
    assert_eq!(claims.exp, NOW + TOKEN_TTL_SECS);
}

#[test]
fn login_is_case_insensitive_on_username() {
    let mut service = UserService::new();
    service.create_user(registration("alice", "pw1")).expect("registration");
    let token = service.login_by_username(login("ALICE", "pw1"), &codec(), NOW);
    assert!(token.is_ok());
}

#[test]
fn lookup_by_id_and_not_found() {
    let mut service = UserService::new();
    let created = service.create_user(registration("henry", "pw")).expect("registration");
    let found = service.find_one_user(created.id).expect("lookup");
    assert_eq!(found.id, created.id);
    assert_eq!(found.username, "henry");

    let missing = service.find_one_user(created.id + 1).unwrap_err();
    assert_eq!(missing, AppError::EntityNotFound { entity: EntityKind::User, id: created.id + 1 });
}

#[test]
fn update_changes_only_present_fields() {
    let mut service = UserService::new();
    let created = service.create_user(registration("ivy", "pw")).expect("registration");
    service
        .update_user(
            created.id,
            UpdateUserSchema {
                username: None,
                password: None,
                avatar: Some(String::from("http://pic")),
                about: Some(String::from("new about")),
            },
        )
        .expect("update");
    let after = service.find_one_user(created.id).expect("lookup");
    assert_eq!(after.username, "ivy");
    assert_eq!(after.avatar.as_deref(), Some("http://pic"));
    assert_eq!(after.about, "new about");
}

#[test]
fn update_rename_collision_is_rejected() {
    let mut service = UserService::new();
    service.create_user(registration("first", "pw")).expect("registration");
    let second = service.create_user(registration("second", "pw")).expect("registration");
    let err = service
        .update_user(
            second.id,
            UpdateUserSchema {
                username: Some(String::from("FIRST")),
                password: None,
                avatar: None,
                about: None,
            },
        )
        .unwrap_err();
    assert_eq!(err, AppError::Auth(AuthError::UsernameTaken));

    let renamed = service.update_user(
        second.id,
        UpdateUserSchema {
            username: Some(String::from("SECOND")),
            password: None,
            avatar: None,
            about: None,
        },
    );
    assert!(renamed.is_ok(), "renaming to one's own name must be allowed");
}

#[test]
fn update_unknown_account_is_not_found() {
    let mut service = UserService::new();
    let err = service
        .update_user(
            7,
            UpdateUserSchema { username: None, password: None, avatar: None, about: None },
        )
        .unwrap_err();
    assert_eq!(err, AppError::EntityNotFound { entity: EntityKind::User, id: 7 });
}

#[test]
fn update_rehashes_a_present_password() {
    let mut service = UserService::new();
    let created = service.create_user(registration("judy", "old-pw")).expect("registration");
    service
        .update_user(
            created.id,
            UpdateUserSchema {
                username: None,
                password: Some(String::from("new-pw")),
                avatar: None,
                about: None,
            },
        )
        .expect("update");
    assert!(service.login_by_username(login("judy", "new-pw"), &codec(), NOW).is_ok());
    assert_eq!(
        service.login_by_username(login("judy", "old-pw"), &codec(), NOW).unwrap_err(),
        AuthError::WrongCredentials
    );
}

#[test]
fn update_treats_empty_password_as_not_provided() {
    let mut service = UserService::new();
    let created = service.create_user(registration("kate", "keep-pw")).expect("registration");
    service
        .update_user(
            created.id,
            UpdateUserSchema {
                username: None,
                password: Some(String::new()),
                avatar: None,
                about: None,
            },
        )
        .expect("update");
    assert!(service.login_by_username(login("kate", "keep-pw"), &codec(), NOW).is_ok());
}

#[test]
fn delete_removes_the_account() {
    let mut service = UserService::new();
    let created = service.create_user(registration("leo", "pw")).expect("registration");
    service.delete_user(created.id).expect("deletion");
    assert!(service.find_one_user(created.id).is_err());
    assert_eq!(
        service.delete_user(created.id).unwrap_err(),
        AppError::EntityNotFound { entity: EntityKind::User, id: created.id }
    );
    assert_eq!(service.find_all_users().len(), 0);
}

#[test]
fn freed_username_can_be_retaken() {
    let mut service = UserService::new();
    let created = service.create_user(registration("mona", "pw")).expect("registration");
    service.delete_user(created.id).expect("deletion");
    let again = service.create_user(registration("Mona", "pw2")).expect("re-registration");
    assert_ne!(again.id, created.id, "ids are never reused");
}

#[test]
fn projection_drops_the_password_digest() {
    let stored = social_core::models::User {
        id: 9,
        username: String::from("nina"),
        password: String::from("$2b$12$digest"),
        avatar: Some(String::from("http://pic")),
        about: String::from("bio"),
    };
    let public = social_core::schemas::UserSchema::from(stored);
    assert_eq!(public.id, 9);
    assert_eq!(public.username, "nina");
    assert_eq!(public.avatar.as_deref(), Some("http://pic"));
    assert_eq!(public.about, "bio");
}
