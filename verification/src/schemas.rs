//! Wire-facing shapes: public projections of the stored records and the
//! request bodies of the services.
//!
//! `UserSchema` is the public projection of an account. It is built by one
//! central conversion that drops the password digest, so sensitive data is
//! excluded by construction, not by convention.

use vstd::prelude::*;

use crate::models::{Post, PostModel, User, UserModel};

verus! {

/// Public projection of an account: everything but the password digest.
#[derive(Debug)]
pub struct UserSchema {
    pub id: u64,
    pub username: String,
    pub avatar: Option<String>,
    pub about: String,
}

/// Mathematical image of `UserSchema`.
pub struct UserSchemaModel {
    pub id: u64,
    pub username: Seq<char>,
    pub avatar: Option<Seq<char>>,
    pub about: Seq<char>,
}

impl View for UserSchema {
    type V = UserSchemaModel;

    open spec fn view(&self) -> UserSchemaModel {
        UserSchemaModel {
            id: self.id,
            username: self.username@,
            avatar: match self.avatar {
                Some(a) => Some(a@),
                None => None,
            },
            about: self.about@,
        }
    }
}

/// The public projection of a stored account, at the spec level.
pub open spec fn public_of(u: UserModel) -> UserSchemaModel {
    UserSchemaModel { id: u.id, username: u.username, avatar: u.avatar, about: u.about }
}

impl UserSchema {
    /// Projects a stored record to its public shape, leaving the record in
    /// place. The password digest is dropped here and nowhere reintroduced.
    pub fn of_user(u: &User) -> (r: UserSchema)
        ensures
            r@ == public_of(u@),
    {
        UserSchema {
            id: u.id,
            username: u.username.clone(),
            avatar: match &u.avatar {
                Some(a) => Some(a.clone()),
                None => None,
            },
            about: u.about.clone(),
        }
    }
}

impl From<User> for UserSchema {
    /// The public projection as a consuming conversion.
    fn from(u: User) -> (r: UserSchema) {
        UserSchema { id: u.id, username: u.username, avatar: u.avatar, about: u.about }
    }
}

impl vstd::std_specs::convert::FromSpecImpl<User> for UserSchema {
    open spec fn obeys_from_spec() -> bool {
        true
    }

    open spec fn from_spec(u: User) -> UserSchema {
        UserSchema { id: u.id, username: u.username, avatar: u.avatar, about: u.about }
    }
}

/// Registration request: username, plaintext password and profile fields.
#[derive(Debug)]
pub struct CreateUserSchema {
    pub username: String,
    pub password: String,
    pub avatar: Option<String>,
    pub about: String,
}

/// Mathematical image of `CreateUserSchema`.
pub struct CreateUserSchemaModel {
    pub username: Seq<char>,
    pub password: Seq<char>,
    pub avatar: Option<Seq<char>>,
    pub about: Seq<char>,
}

impl View for CreateUserSchema {
    type V = CreateUserSchemaModel;

    open spec fn view(&self) -> CreateUserSchemaModel {
        CreateUserSchemaModel {
            username: self.username@,
            password: self.password@,
            avatar: match self.avatar {
                Some(a) => Some(a@),
                None => None,
            },
            about: self.about@,
        }
    }
}

/// Profile patch: only the present fields are changed.
#[derive(Debug)]
pub struct UpdateUserSchema {
    pub username: Option<String>,
    pub password: Option<String>,
    pub avatar: Option<String>,
    pub about: Option<String>,
}

/// Mathematical image of `UpdateUserSchema`.
pub struct UpdateUserSchemaModel {
    pub username: Option<Seq<char>>,
    pub password: Option<Seq<char>>,
    pub avatar: Option<Seq<char>>,
    pub about: Option<Seq<char>>,
}

impl View for UpdateUserSchema {
    type V = UpdateUserSchemaModel;

    open spec fn view(&self) -> UpdateUserSchemaModel {
        UpdateUserSchemaModel {
            username: match self.username {
                Some(u) => Some(u@),
                None => None,
            },
            password: match self.password {
                Some(p) => Some(p@),
                None => None,
            },
            avatar: match self.avatar {
                Some(a) => Some(a@),
                None => None,
            },
            about: match self.about {
                Some(a) => Some(a@),
                None => None,
            },
        }
    }
}

/// Public shape of a post.
#[derive(Debug)]
pub struct PostSchema {
    pub id: u64,
    pub text: String,
    pub author_id: u64,
    pub created_at: u64,
    pub edited: bool,
}

/// Mathematical image of `PostSchema`.
pub struct PostSchemaModel {
    pub id: u64,
    pub text: Seq<char>,
    pub author_id: u64,
    pub created_at: u64,
    pub edited: bool,
}

impl View for PostSchema {
    type V = PostSchemaModel;

    open spec fn view(&self) -> PostSchemaModel {
        PostSchemaModel {
            id: self.id,
            text: self.text@,
            author_id: self.author_id,
            created_at: self.created_at,
            edited: self.edited,
        }
    }
}

/// The public shape of a stored post, at the spec level.
pub open spec fn post_public_of(p: PostModel) -> PostSchemaModel {
    PostSchemaModel {
        id: p.id,
        text: p.text,
        author_id: p.author_id,
        created_at: p.created_at,
        edited: p.edited,
    }
}

impl PostSchema {
    /// Projects a stored post to its public shape, leaving the record in
    /// place.
    pub fn of_post(p: &Post) -> (r: PostSchema)
        ensures
            r@ == post_public_of(p@),
    {
        PostSchema {
            id: p.id,
            text: p.text.clone(),
            author_id: p.author_id,
            created_at: p.created_at,
            edited: p.edited,
        }
    }
}

impl From<Post> for PostSchema {
    /// The public shape as a consuming conversion.
    fn from(p: Post) -> (r: PostSchema) {
        PostSchema {
            id: p.id,
            text: p.text,
            author_id: p.author_id,
            created_at: p.created_at,
            edited: p.edited,
        }
    }
}

impl vstd::std_specs::convert::FromSpecImpl<Post> for PostSchema {
    open spec fn obeys_from_spec() -> bool {
        true
    }

    open spec fn from_spec(p: Post) -> PostSchema {
        PostSchema {
            id: p.id,
            text: p.text,
            author_id: p.author_id,
            created_at: p.created_at,
            edited: p.edited,
        }
    }
}

/// Body of a new post request.
#[derive(Debug)]
pub struct CreatePostSchema {
    pub text: String,
}

/// Body of a post edit request.
#[derive(Debug)]
pub struct UpdatePostSchema {
    pub text: Option<String>,
}

/// Successful login response: the bearer token and its type.
#[derive(Debug)]
pub struct AuthBody {
    pub access_token: String,
    pub token_type: String,
}

impl AuthBody {
    /// Wraps a freshly issued token; the token type is always `Bearer`.
    pub fn new(access_token: String) -> (r: AuthBody)
        ensures
            r.access_token@ == access_token@,
            r.token_type@ == "Bearer"@,
    {
        AuthBody { access_token, token_type: "Bearer".to_owned() }
    }
}

/// Login request: username and plaintext password.
#[derive(Debug)]
pub struct AuthPayload {
    pub username: String,
    pub password: String,
}

} // verus!
