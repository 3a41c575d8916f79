//! Stored records: accounts, follow edges and posts.
//!
//! Identifiers are opaque unsigned integers, unique per store and
//! immutable once assigned. The `password` field of a `User` always holds
//! a salted digest, never a plaintext: every write path runs through the
//! credential hasher.

use vstd::prelude::*;

verus! {

/// A stored account record.
#[derive(Debug)]
pub struct User {
    pub id: u64,
    pub username: String,
    /// Salted digest of the account's password.
    pub password: String,
    pub avatar: Option<String>,
    pub about: String,
}

/// Mathematical image of `User`.
pub struct UserModel {
    pub id: u64,
    pub username: Seq<char>,
    pub password: Seq<char>,
    pub avatar: Option<Seq<char>>,
    pub about: Seq<char>,
}

impl View for User {
    type V = UserModel;

    open spec fn view(&self) -> UserModel {
        UserModel {
            id: self.id,
            username: self.username@,
            password: self.password@,
            avatar: match self.avatar {
                Some(a) => Some(a@),
                None => None,
            },
            about: self.about@,
        }
    }
}

impl User {
    /// A field-for-field copy of the record.
    pub fn duplicate(&self) -> (r: User)
        ensures
            r@ == self@,
    {
        User {
            id: self.id,
            username: self.username.clone(),
            password: self.password.clone(),
            avatar: match &self.avatar {
                Some(a) => Some(a.clone()),
                None => None,
            },
            about: self.about.clone(),
        }
    }
}

/// A directed follow edge: the account `from_id` follows the account
/// `to_id`.
#[derive(Clone, Copy, Debug, PartialEq, Eq, Structural)]
pub struct Following {
    pub id: u64,
    pub from_id: u64,
    pub to_id: u64,
}

/// A stored post record.
#[derive(Debug)]
pub struct Post {
    pub id: u64,
    pub text: String,
    pub author_id: u64,
    /// Creation instant, in seconds of the same epoch the token codec uses.
    pub created_at: u64,
    /// Whether the text was changed after creation.
    pub edited: bool,
}

/// Mathematical image of `Post`.
pub struct PostModel {
    pub id: u64,
    pub text: Seq<char>,
    pub author_id: u64,
    pub created_at: u64,
    pub edited: bool,
}

impl View for Post {
    type V = PostModel;

    open spec fn view(&self) -> PostModel {
        PostModel {
            id: self.id,
            text: self.text@,
            author_id: self.author_id,
            created_at: self.created_at,
            edited: self.edited,
        }
    }
}

impl Post {
    /// A field-for-field copy of the record.
    pub fn duplicate(&self) -> (r: Post)
        ensures
            r@ == self@,
    {
        Post {
            id: self.id,
            text: self.text.clone(),
            author_id: self.author_id,
            created_at: self.created_at,
            edited: self.edited,
        }
    }
}

} // verus!
