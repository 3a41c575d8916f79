//! Core of a social-network backend: stateless authentication and
//! authorization around user accounts, follow relationships and posts.
//!
//! The crate is organised leaf-first: credential hashing and the token
//! codec sit at the bottom, the identity resolver and the account,
//! relationship and post services build on them, and the ownership guard
//! decides whether a resolved identity may mutate a resource.

pub mod config;
pub mod errors;
pub mod fold;
pub mod hashing;
pub mod token;
pub mod models;
pub mod schemas;
pub mod user_store;
pub mod following_store;
pub mod post_store;
pub mod guard;
pub mod user_service;
pub mod following_service;
pub mod post_service;
pub mod resolver;
