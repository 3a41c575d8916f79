//! Post service scenarios: text bounds, ownership guard on edit and
//! deletion, author queries.

use social_core::errors::{AppError, EntityKind};
use social_core::guard::authorize;
use social_core::post_service::PostService;
use social_core::schemas::{CreatePostSchema, UpdatePostSchema, UserSchema};

const NOW: u64 = 1_700_000_000;

fn body(text: &str) -> CreatePostSchema {
    CreatePostSchema { text: String::from(text) }
}

fn identity(id: u64, name: &str) -> UserSchema {
    UserSchema { id, username: String::from(name), avatar: None, about: String::new() }
}

#[test]
fn create_post_bounds_the_text() {
    let mut service = PostService::new();
    assert_eq!(service.create_post(body(""), 1, NOW).unwrap_err(), AppError::TextTooLong);
    let longest = "x".repeat(256);
    let created = service.create_post(body(&longest), 1, NOW).expect("256 characters fit");
    assert_eq!(created.text.len(), 256);
    assert!(!created.edited);
    assert_eq!(created.created_at, NOW);
    let too_long = "x".repeat(257);
    assert_eq!(service.create_post(body(&too_long), 1, NOW).unwrap_err(), AppError::TextTooLong);
}

#[test]
fn owner_may_edit_and_delete() {
    let mut service = PostService::new();
    let post = service.create_post(body("first"), 7, NOW).expect("creation");
    service
        .update_post(post.id, UpdatePostSchema { text: Some(String::from("second")) }, 7)
        .expect("author edit");
    let after = service.find_one_post(post.id).expect("lookup");
    assert_eq!(after.text, "second");
    assert!(after.edited);
    service.delete_post(post.id, 7).expect("author delete");
    assert!(service.find_one_post(post.id).is_err());
}

#[test]
fn strangers_are_denied_by_the_ownership_guard() {
    let mut service = PostService::new();
    let owner = identity(2, "owner");
    let stranger = identity(1, "stranger");
    let post = service.create_post(body("mine"), owner.id, NOW).expect("creation");

    assert_eq!(service.delete_post(post.id, stranger.id).unwrap_err(), AppError::CantDoThis);
    assert_eq!(
        service
            .update_post(post.id, UpdatePostSchema { text: Some(String::from("taken")) }, stranger.id)
            .unwrap_err(),
        AppError::CantDoThis
    );
    let untouched = service.find_one_post(post.id).expect("still there");
    assert_eq!(untouched.text, "mine");
    assert!(!untouched.edited);

    assert_eq!(authorize(&stranger, owner.id).unwrap_err(), AppError::CantDoThis);
    assert!(authorize(&owner, owner.id).is_ok());
}

#[test]
fn edit_without_text_still_marks_edited() {
    let mut service = PostService::new();
    let post = service.create_post(body("keep"), 3, NOW).expect("creation");
    service.update_post(post.id, UpdatePostSchema { text: None }, 3).expect("edit");
    let after = service.find_one_post(post.id).expect("lookup");
    assert_eq!(after.text, "keep");
    assert!(after.edited);
}

#[test]
fn unknown_post_is_not_found() {
    let mut service = PostService::new();
    assert_eq!(
        service.find_one_post(9).unwrap_err(),
        AppError::EntityNotFound { entity: EntityKind::Post, id: 9 }
    );
    assert_eq!(
        service.delete_post(9, 1).unwrap_err(),
        AppError::EntityNotFound { entity: EntityKind::Post, id: 9 }
    );
    assert_eq!(
        service.update_post(9, UpdatePostSchema { text: None }, 1).unwrap_err(),
        AppError::EntityNotFound { entity: EntityKind::Post, id: 9 }
    );
}

#[test]
fn author_query_filters_and_lists_newest_first() {
    let mut service = PostService::new();
    let first = service.create_post(body("one"), 1, NOW).expect("creation");
    service.create_post(body("other"), 2, NOW + 1).expect("creation");
    let second = service.create_post(body("two"), 1, NOW + 2).expect("creation");
    let mine = service.find_all_posts(1);
    assert_eq!(mine.len(), 2);
    assert_eq!(mine[0].id, second.id);
    assert_eq!(mine[0].text, "two");
    assert_eq!(mine[0].created_at, NOW + 2);
    assert_eq!(mine[1].id, first.id);
    assert_eq!(mine[1].text, "one");
    assert_eq!(service.find_all_posts(3).len(), 0);
}

#[test]
fn post_projection_keeps_every_field() {
    let stored = social_core::models::Post {
        id: 4,
        text: String::from("words"),
        author_id: 11,
        created_at: NOW,
        edited: true,
    };
    let public = social_core::schemas::PostSchema::from(stored);
    assert_eq!(public.id, 4);
    assert_eq!(public.text, "words");
    assert_eq!(public.author_id, 11);
    assert_eq!(public.created_at, NOW);
    assert!(public.edited);
}
