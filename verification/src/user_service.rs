//! Account Service: registration, login, lookup, update and deletion of
//! accounts.
//!
//! Every mutation keeps the store invariant; registration and rename
//! enforce case-insensitive username uniqueness; login collapses "unknown
//! username" and "wrong password" into one error so usernames cannot be
//! enumerated; passwords are hashed before they reach the store.

use vstd::prelude::*;

use crate::errors::{AppError, AuthError, EntityKind};
use crate::fold::same_username;
use crate::hashing::{digest_matches, hash_password, verify_password};
use crate::models::UserModel;
use crate::schemas::{public_of, AuthPayload, CreateUserSchema, UpdateUserSchema, UserSchema};
use crate::token::{decode_of, token_of, DecodeOutcome, TokenCodec, TOKEN_TTL_SECS};
use crate::user_store::{has_id, has_username, CreateUserDTO, UpdateUserDTO, UserRepository};

verus! {

/// Whether some row is a login match for the credentials: its username
/// folds to the given one and its stored digest matches the password.
pub open spec fn login_match(rows: Seq<UserModel>, username: Seq<char>, password: Seq<char>) -> bool {
    exists|i: int|
        0 <= i < rows.len() && same_username((#[trigger] rows[i]).username, username)
            && digest_matches(password, rows[i].password)
}

/// Whether a requested rename collides case-insensitively with an
/// account other than the one being patched.
pub open spec fn rename_collides(rows: Seq<UserModel>, id: u64, username: Option<Seq<char>>) -> bool {
    match username {
        Some(n) => exists|j: int|
            0 <= j < rows.len() && (#[trigger] rows[j]).id != id && same_username(
                rows[j].username,
                n,
            ),
        None => false,
    }
}

/// Account service over the user store.
pub struct UserService {
    pub repository: UserRepository,
}

impl UserService {
    /// The stored account rows.
    pub open spec fn rows(self) -> Seq<UserModel> {
        self.repository.rows()
    }

    /// The service is as well formed as its store.
    pub open spec fn wf(self) -> bool {
        self.repository.wf()
    }

    /// A service over an empty store.
    pub fn new() -> (r: UserService)
        ensures
            r.wf(),
            r.rows() =~= Seq::<UserModel>::empty(),
            r.repository.id_seed() == 0,
    {
        UserService { repository: UserRepository::new() }
    }

    /// Registration. Fails with `UsernameTaken` when a case-insensitive
    /// match exists; otherwise hashes the password, persists the account
    /// and returns the public projection, which never carries the digest.
    pub fn create_user(&mut self, data: CreateUserSchema) -> (r: Result<UserSchema, AppError>)
        requires
            old(self).wf(),
            old(self).repository.id_seed() < u64::MAX,
        ensures
            final(self).wf(),
            r is Ok ==> final(self).repository.id_seed() == old(self).repository.id_seed() + 1,
            r is Err ==> final(self).repository.id_seed() == old(self).repository.id_seed(),
            match r {
                Ok(schema) => {
                    &&& !has_username(old(self).rows(), data.username@)
                    &&& final(self).rows().len() == old(self).rows().len() + 1
                    &&& final(self).rows().drop_last() =~= old(self).rows()
                    &&& ({
                        let row = final(self).rows().last();
                        &&& row.id == old(self).repository.id_seed()
                        &&& row.username == data.username@
                        &&& digest_matches(data.password@, row.password)
                        &&& row.avatar == data@.avatar
                        &&& row.about == data.about@
                        &&& schema@ == public_of(row)
                    })
                },
                Err(e) => {
                    &&& final(self).rows() =~= old(self).rows()
                    &&& if has_username(old(self).rows(), data.username@) {
                        e == AppError::Auth(AuthError::UsernameTaken)
                    } else {
                        e == AppError::Infrastructure
                    }
                },
            },
    {
        match self.repository.find_one_by_username(&data.username) {
            Some(existing) => {
                proof {
                    let i = choose|i: int|
                        0 <= i < self.rows().len() && #[trigger] self.rows()[i] == existing@;
                    assert(same_username(self.rows()[i].username, data.username@));
                }
                Err(AppError::Auth(AuthError::UsernameTaken))
            },
            None => {
                let digest = match hash_password(&data.password) {
                    Some(d) => d,
                    None => {
                        return Err(AppError::Infrastructure);
                    },
                };
                let row = self.repository.create(
                    CreateUserDTO {
                        username: data.username,
                        password: digest,
                        avatar: data.avatar,
                        about: data.about,
                    },
                );
                let schema = UserSchema::of_user(&row);
                proof {
                    assert(self.rows().last() == row@);
                    assert(self.rows().drop_last() =~= old(self).rows());
                }
                Ok(schema)
            },
        }
    }

    /// Lookup by id, projected to the public shape.
    pub fn find_one_user(&self, id: u64) -> (r: Result<UserSchema, AppError>)
        ensures
            match r {
                Ok(schema) => exists|i: int|
                    0 <= i < self.rows().len() && (#[trigger] self.rows()[i]).id == id && schema@
                        == public_of(self.rows()[i]),
                Err(e) => !has_id(self.rows(), id) && e == (AppError::EntityNotFound {
                    entity: EntityKind::User,
                    id,
                }),
            },
    {
        match self.repository.find_one(id) {
            None => Err(AppError::EntityNotFound { entity: EntityKind::User, id }),
            Some(user) => {
                let schema = UserSchema::of_user(&user);
                proof {
                    let i = choose|i: int|
                        0 <= i < self.rows().len() && #[trigger] self.rows()[i] == user@;
                    assert(self.rows()[i].id == id && schema@ == public_of(self.rows()[i]));
                }
                Ok(schema)
            },
        }
    }

    /// Login. Empty credentials fail with `MissingCredentials`; an unknown
    /// username and a wrong password fail with the identical
    /// `WrongCredentials`; on success a fresh token for the given username
    /// is issued at instant `now`.
    pub fn login_by_username(&self, payload: AuthPayload, codec: &TokenCodec, now: usize) -> (r:
        Result<String, AuthError>)
        requires
            self.wf(),
            now + TOKEN_TTL_SECS <= usize::MAX,
        ensures
            match r {
                Ok(token) => {
                    &&& payload.username@.len() > 0 && payload.password@.len() > 0
                    &&& login_match(self.rows(), payload.username@, payload.password@)
                    &&& token@ == token_of(
                        payload.username@,
                        (now + TOKEN_TTL_SECS) as usize,
                        codec.secret_bytes(),
                    )
                    &&& decode_of(token@, codec.secret_bytes()) == (DecodeOutcome::Claims {
                        sub: payload.username@,
                        exp: (now + TOKEN_TTL_SECS) as usize,
                    })
                },
                Err(e) => if payload.username@.len() == 0 || payload.password@.len() == 0 {
                    e == AuthError::MissingCredentials
                } else if !login_match(self.rows(), payload.username@, payload.password@) {
                    e == AuthError::WrongCredentials
                } else {
                    e == AuthError::TokenCreation
                },
            },
    {
        if payload.username.as_str().is_empty() || payload.password.as_str().is_empty() {
            return Err(AuthError::MissingCredentials);
        }
        match self.repository.find_one_by_username(&payload.username) {
            None => {
                proof {
                    assert(!login_match(self.rows(), payload.username@, payload.password@));
                }
                Err(AuthError::WrongCredentials)
            },
            Some(user) => {
                let ghost k = choose|i: int|
                    0 <= i < self.rows().len() && #[trigger] self.rows()[i] == user@;
                if !verify_password(&payload.password, &user.password) {
                    proof {
                        if login_match(self.rows(), payload.username@, payload.password@) {
                            let j = choose|i: int|
                                0 <= i < self.rows().len() && same_username(
                                    (#[trigger] self.rows()[i]).username,
                                    payload.username@,
                                ) && digest_matches(payload.password@, self.rows()[i].password);
                            assert(j == k);
                        }
                    }
                    return Err(AuthError::WrongCredentials);
                }
                proof {
                    assert(login_match(self.rows(), payload.username@, payload.password@));
                }
                codec.issue(&payload.username, now)
            },
        }
    }

    /// Every account, projected to the public shape, in stored order.
    pub fn find_all_users(&self) -> (r: Vec<UserSchema>)
        ensures
            r@.len() == self.rows().len(),
            forall|i: int|
                0 <= i < r@.len() ==> (#[trigger] r@[i])@ == public_of(self.rows()[i]),
    {
        let users = self.repository.find_all();
        let n = users.len();
        let mut out: Vec<UserSchema> = Vec::new();
        let mut i: usize = 0;
        while i < n
            invariant
                n == users@.len(),
                n == self.rows().len(),
                forall|j: int| 0 <= j < n ==> (#[trigger] users@[j])@ == self.rows()[j],
                0 <= i <= n,
                out@.len() == i,
                forall|j: int| 0 <= j < i ==> (#[trigger] out@[j])@ == public_of(self.rows()[j]),
            decreases n - i,
        {
            out.push(UserSchema::of_user(&users[i]));
            i = i + 1;
        }
        out
    }

    /// Deletion by id. Fails with `EntityNotFound` when no account carries
    /// the id; otherwise removes exactly that account.
    pub fn delete_user(&mut self, id: u64) -> (r: Result<(), AppError>)
        requires
            old(self).wf(),
        ensures
            final(self).wf(),
            final(self).repository.id_seed() == old(self).repository.id_seed(),
            match r {
                Ok(()) => exists|k: int|
                    {
                        &&& 0 <= k < old(self).rows().len()
                        &&& (#[trigger] old(self).rows()[k]).id == id
                        &&& final(self).rows() =~= old(self).rows().remove(k)
                    },
                Err(e) => {
                    &&& final(self).rows() =~= old(self).rows()
                    &&& !has_id(old(self).rows(), id)
                    &&& e == (AppError::EntityNotFound { entity: EntityKind::User, id })
                },
            },
    {
        match self.repository.find_one(id) {
            None => Err(AppError::EntityNotFound { entity: EntityKind::User, id }),
            Some(user) => {
                proof {
                    let i = choose|i: int|
                        0 <= i < self.rows().len() && #[trigger] self.rows()[i] == user@;
                    assert(has_id(self.rows(), id));
                }
                self.repository.delete(id);
                Ok(())
            },
        }
    }

    /// Partial update. Fails with `EntityNotFound` when the id is unknown
    /// and with `UsernameTaken` when a requested rename collides
    /// case-insensitively with a different account. A present password is
    /// rehashed before it is stored; an empty one counts as not provided.
    /// Success is owed whenever the id exists, no rename collides and no
    /// nonempty password asks for a fresh hash.
    pub fn update_user(&mut self, id: u64, data: UpdateUserSchema) -> (r: Result<(), AppError>)
        requires
            old(self).wf(),
        ensures
            final(self).wf(),
            final(self).repository.id_seed() == old(self).repository.id_seed(),
            ({
                &&& has_id(old(self).rows(), id)
                &&& !rename_collides(old(self).rows(), id, data@.username)
                &&& (match data@.password {
                    Some(p) => p.len() == 0,
                    None => true,
                })
            }) ==> r is Ok,
            match r {
                Ok(()) => exists|k: int|
                    #![auto]
                    {
                        &&& 0 <= k < old(self).rows().len()
                        &&& old(self).rows()[k].id == id
                        &&& final(self).rows().len() == old(self).rows().len()
                        &&& (forall|j: int|
                            0 <= j < old(self).rows().len() && j != k
                                ==> final(self).rows()[j] == old(self).rows()[j])
                        &&& ({
                            let u0 = old(self).rows()[k];
                            let u1 = final(self).rows()[k];
                            &&& u1.id == id
                            &&& u1.username == (match data@.username {
                                Some(n) => n,
                                None => u0.username,
                            })
                            &&& (match data@.password {
                                Some(p) => if p.len() > 0 {
                                    digest_matches(p, u1.password)
                                } else {
                                    u1.password == u0.password
                                },
                                None => u1.password == u0.password,
                            })
                            &&& u1.avatar == (match data@.avatar {
                                Some(a) => Some(a),
                                None => u0.avatar,
                            })
                            &&& u1.about == (match data@.about {
                                Some(a) => a,
                                None => u0.about,
                            })
                        })
                    },
                Err(e) => {
                    &&& final(self).rows() =~= old(self).rows()
                    &&& if !has_id(old(self).rows(), id) {
                        e == (AppError::EntityNotFound { entity: EntityKind::User, id })
                    } else if rename_collides(old(self).rows(), id, data@.username) {
                        e == AppError::Auth(AuthError::UsernameTaken)
                    } else {
                        e == AppError::Infrastructure
                    }
                },
            },
    {
        let target = match self.repository.find_one(id) {
            None => {
                return Err(AppError::EntityNotFound { entity: EntityKind::User, id });
            },
            Some(user) => user,
        };
        let ghost k = choose|i: int|
            0 <= i < self.rows().len() && #[trigger] self.rows()[i] == target@;
        if let Some(requested) = &data.username {
            match self.repository.find_one_by_username(requested) {
                Some(other) => {
                    if other.id != id {
                        proof {
                            let j = choose|i: int|
                                0 <= i < self.rows().len() && #[trigger] self.rows()[i] == other@;
                            assert(self.rows()[j].id != id && same_username(
                                self.rows()[j].username,
                                requested@,
                            ));
                        }
                        return Err(AppError::Auth(AuthError::UsernameTaken));
                    }
                    proof {
                        let j = choose|i: int|
                            0 <= i < self.rows().len() && #[trigger] self.rows()[i] == other@;
                        assert forall|i: int|
                            0 <= i < self.rows().len() && (#[trigger] self.rows()[i]).id != id
                                implies !same_username(
                            self.rows()[i].username,
                            requested@,
                        ) by {
                            if same_username(self.rows()[i].username, requested@) {
                                assert(i != j);
                            }
                        }
                    }
                },
                None => {},
            }
        }
        let digest: Option<String> = match &data.password {
            Some(p) => {
                if p.as_str().is_empty() {
                    None
                } else {
                    match hash_password(p) {
                        Some(d) => Some(d),
                        None => {
                            return Err(AppError::Infrastructure);
                        },
                    }
                }
            },
            None => None,
        };
        let dto = UpdateUserDTO {
            username: data.username,
            password: digest,
            avatar: data.avatar,
            about: data.about,
        };
        self.repository.update(id, dto);
        Ok(())
    }
}

} // verus!
