//! Relationship service scenarios: self-follow, duplicate follow,
//! unfollow, counts and the is-following query.

use social_core::errors::AppError;
use social_core::following_service::FollowingService;
use social_core::schemas::UserSchema;

fn account(id: u64, name: &str) -> UserSchema {
    UserSchema { id, username: String::from(name), avatar: None, about: String::new() }
}

#[test]
fn self_follow_always_fails() {
    let mut service = FollowingService::new();
    let a = account(1, "a");
    assert_eq!(service.follow(account(1, "a"), account(1, "a")).unwrap_err(), AppError::SelfFollow);
    assert_eq!(service.get_followings_count(a).unwrap(), 0);
}

#[test]
fn double_follow_fails_and_count_stays_one() {
    let mut service = FollowingService::new();
    assert!(service.follow(account(1, "a"), account(2, "b")).is_ok());
    assert_eq!(
        service.follow(account(1, "a"), account(2, "b")).unwrap_err(),
        AppError::AlreadyFollowing
    );
    assert_eq!(service.get_followings_count(account(1, "a")).unwrap(), 1);
    assert_eq!(service.get_followers_count(account(2, "b")).unwrap(), 1);
}

#[test]
fn unfollow_without_follow_fails() {
    let mut service = FollowingService::new();
    assert_eq!(
        service.unfollow(account(1, "a"), account(2, "b")).unwrap_err(),
        AppError::NotFollowing
    );
}

#[test]
fn follow_then_unfollow_round_trip() {
    let mut service = FollowingService::new();
    assert!(service.follow(account(1, "a"), account(2, "b")).is_ok());
    assert!(service.is_following(1, 2));
    assert!(service.unfollow(account(1, "a"), account(2, "b")).is_ok());
    assert!(!service.is_following(1, 2));
    assert_eq!(service.get_followings_count(account(1, "a")).unwrap(), 0);
    assert_eq!(
        service.unfollow(account(1, "a"), account(2, "b")).unwrap_err(),
        AppError::NotFollowing
    );
}

#[test]
fn follow_is_directed() {
    let mut service = FollowingService::new();
    assert!(service.follow(account(1, "a"), account(2, "b")).is_ok());
    assert!(service.is_following(1, 2));
    assert!(!service.is_following(2, 1));
    assert!(service.follow(account(2, "b"), account(1, "a")).is_ok());
    assert!(service.is_following(2, 1));
}

#[test]
fn counts_tally_sources_and_targets() {
    let mut service = FollowingService::new();
    assert!(service.follow(account(1, "a"), account(2, "b")).is_ok());
    assert!(service.follow(account(1, "a"), account(3, "c")).is_ok());
    assert!(service.follow(account(3, "c"), account(2, "b")).is_ok());
    assert_eq!(service.get_followings_count(account(1, "a")).unwrap(), 2);
    assert_eq!(service.get_followings_count(account(2, "b")).unwrap(), 0);
    assert_eq!(service.get_followers_count(account(2, "b")).unwrap(), 2);
    assert_eq!(service.get_followers_count(account(1, "a")).unwrap(), 0);
}

#[test]
fn lookup_returns_the_edge() {
    let mut service = FollowingService::new();
    assert!(service.follow(account(4, "d"), account(5, "e")).is_ok());
    let edge = service
        .get_following_by_from_and_to_ids(account(4, "d"), account(5, "e"))
        .expect("edge exists");
    assert_eq!(edge.from_id, 4);
    assert_eq!(edge.to_id, 5);
    assert!(service.get_following_by_from_and_to_ids(account(5, "e"), account(4, "d")).is_none());
}
