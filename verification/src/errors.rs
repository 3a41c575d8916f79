//! Error taxonomy of the core.
//!
//! Auth errors face the client of the authentication endpoints; app errors
//! cover the domain rules of accounts, follow edges and posts.

use vstd::prelude::*;

verus! {

/// The kind of entity a lookup failed on.
#[derive(Clone, Copy, Debug, PartialEq, Eq, Structural)]
pub enum EntityKind {
    User,
    Post,
}

/// Authentication failures.
#[derive(Clone, Copy, Debug, PartialEq, Eq, Structural)]
pub enum AuthError {
    /// Login was attempted with an empty username or password, or a
    /// protected request carried no Authorization header.
    MissingCredentials,
    /// The username is unknown or the password does not match; the two
    /// causes are deliberately indistinguishable.
    WrongCredentials,
    /// Signing a fresh token failed.
    TokenCreation,
    /// The bearer token is absent from the header, malformed, forged,
    /// expired, or names an unknown account; the causes are deliberately
    /// indistinguishable.
    InvalidToken,
    /// Registration or rename collides case-insensitively with an
    /// existing username.
    UsernameTaken,
}

/// Domain failures of the account, relationship and post services.
#[derive(Clone, Copy, Debug, PartialEq, Eq, Structural)]
pub enum AppError {
    /// No entity of the given kind carries the given id.
    EntityNotFound { entity: EntityKind, id: u64 },
    /// Post text is empty or longer than the allowed maximum.
    TextTooLong,
    /// The resolved identity does not own the resource it tries to mutate.
    CantDoThis,
    /// An account cannot follow itself.
    SelfFollow,
    /// The ordered follow edge already exists.
    AlreadyFollowing,
    /// No follow edge exists for the ordered pair.
    NotFollowing,
    /// An authentication failure surfaced through a service call.
    Auth(AuthError),
    /// An infrastructure operation (credential hashing) failed.
    Infrastructure,
}

impl AuthError {
    /// Client-facing message for this failure.
    pub fn message(&self) -> (r: &'static str)
        ensures
            r@ == self.spec_message(),
    {
        match self {
            AuthError::MissingCredentials => "Missing credentials",
            AuthError::WrongCredentials => "Wrong credentials",
            AuthError::TokenCreation => "Token creation error",
            AuthError::InvalidToken => "Invalid token",
            AuthError::UsernameTaken => "This username is already occupied!",
        }
    }

    pub open spec fn spec_message(self) -> Seq<char> {
        match self {
            AuthError::MissingCredentials => "Missing credentials"@,
            AuthError::WrongCredentials => "Wrong credentials"@,
            AuthError::TokenCreation => "Token creation error"@,
            AuthError::InvalidToken => "Invalid token"@,
            AuthError::UsernameTaken => "This username is already occupied!"@,
        }
    }
}

} // verus!
