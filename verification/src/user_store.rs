//! User Store: the account records, keyed by id, with usernames unique
//! case-insensitively.
//!
//! The store owns the only mutable account state in the core. Its
//! invariant — distinct ids below the id seed, pairwise distinct folded
//! usernames — is established by the constructor and preserved by every
//! operation; the account service relies on it for its own contracts.

use vstd::prelude::*;

use crate::fold::{fold_username, lower_of, same_username};
use crate::models::{User, UserModel};

verus! {

/// Row to insert: the password field carries a digest, never a plaintext.
#[derive(Debug)]
pub struct CreateUserDTO {
    pub username: String,
    pub password: String,
    pub avatar: Option<String>,
    pub about: String,
}

/// Mathematical image of `CreateUserDTO`.
pub struct CreateUserDTOModel {
    pub username: Seq<char>,
    pub password: Seq<char>,
    pub avatar: Option<Seq<char>>,
    pub about: Seq<char>,
}

impl View for CreateUserDTO {
    type V = CreateUserDTOModel;

    open spec fn view(&self) -> CreateUserDTOModel {
        CreateUserDTOModel {
            username: self.username@,
            password: self.password@,
            avatar: match self.avatar {
                Some(a) => Some(a@),
                None => None,
            },
            about: self.about@,
        }
    }
}

/// Patch to apply: present fields replace the stored ones, absent fields
/// keep them. The password field carries a digest, never a plaintext.
#[derive(Debug)]
pub struct UpdateUserDTO {
    pub username: Option<String>,
    pub password: Option<String>,
    pub avatar: Option<String>,
    pub about: Option<String>,
}

/// Mathematical image of `UpdateUserDTO`.
pub struct UpdateUserDTOModel {
    pub username: Option<Seq<char>>,
    pub password: Option<Seq<char>>,
    pub avatar: Option<Seq<char>>,
    pub about: Option<Seq<char>>,
}

impl View for UpdateUserDTO {
    type V = UpdateUserDTOModel;

    open spec fn view(&self) -> UpdateUserDTOModel {
        UpdateUserDTOModel {
            username: match self.username {
                Some(u) => Some(u@),
                None => None,
            },
            password: match self.password {
                Some(p) => Some(p@),
                None => None,
            },
            avatar: match self.avatar {
                Some(a) => Some(a@),
                None => None,
            },
            about: match self.about {
                Some(a) => Some(a@),
                None => None,
            },
        }
    }
}

/// A stored row with a patch applied: present fields replaced, absent
/// fields retained; the id never changes.
pub open spec fn apply_patch(u: UserModel, d: UpdateUserDTOModel) -> UserModel {
    UserModel {
        id: u.id,
        username: match d.username {
            Some(n) => n,
            None => u.username,
        },
        password: match d.password {
            Some(p) => p,
            None => u.password,
        },
        avatar: match d.avatar {
            Some(a) => Some(a),
            None => u.avatar,
        },
        about: match d.about {
            Some(a) => a,
            None => u.about,
        },
    }
}

/// Whether some row of `rows` carries the id.
pub open spec fn has_id(rows: Seq<UserModel>, id: u64) -> bool {
    exists|i: int| 0 <= i < rows.len() && #[trigger] rows[i].id == id
}

/// Whether some row's username folds to the same name.
pub open spec fn has_username(rows: Seq<UserModel>, username: Seq<char>) -> bool {
    exists|i: int| 0 <= i < rows.len() && same_username(#[trigger] rows[i].username, username)
}

/// In-memory account store.
pub struct UserRepository {
    users: Vec<User>,
    next_id: u64,
}

impl UserRepository {
    /// The stored rows, in insertion order.
    pub closed spec fn rows(self) -> Seq<UserModel> {
        self.users@.map_values(|u: User| u@)
    }

    /// The id the next created row will get.
    pub closed spec fn id_seed(self) -> u64 {
        self.next_id
    }

    /// Store invariant: ids are pairwise distinct and below the id seed,
    /// and usernames are pairwise distinct after case folding.
    pub open spec fn wf(self) -> bool {
        &&& forall|i: int, j: int|
            0 <= i < j < self.rows().len() ==> (#[trigger] self.rows()[i]).id != (
            #[trigger] self.rows()[j]).id
        &&& forall|i: int, j: int|
            0 <= i < j < self.rows().len() ==> lower_of((#[trigger] self.rows()[i]).username)
                != lower_of((#[trigger] self.rows()[j]).username)
        &&& forall|i: int|
            0 <= i < self.rows().len() ==> (#[trigger] self.rows()[i]).id < self.id_seed()
    }

    /// Whether the id space is exhausted: no further row can be created.
    pub fn at_capacity(&self) -> (r: bool)
        ensures
            r == (self.id_seed() == u64::MAX),
    {
        self.next_id == u64::MAX
    }

    /// An empty store.
    pub fn new() -> (r: UserRepository)
        ensures
            r.wf(),
            r.rows() =~= Seq::<UserModel>::empty(),
            r.id_seed() == 0,
    {
        UserRepository { users: Vec::new(), next_id: 0 }
    }

    /// Inserts a new row under a fresh id and returns it. The caller is
    /// responsible for username uniqueness; the account service checks it
    /// before every call.
    pub fn create(&mut self, data: CreateUserDTO) -> (r: User)
        requires
            old(self).wf(),
            old(self).id_seed() < u64::MAX,
            !has_username(old(self).rows(), data.username@),
        ensures
            final(self).wf(),
            final(self).rows() =~= old(self).rows().push(r@),
            final(self).id_seed() == old(self).id_seed() + 1,
            r@.id == old(self).id_seed(),
            r@.username == data.username@,
            r@.password == data.password@,
            r@.avatar == data@.avatar,
            r@.about == data.about@,
    {
        let id = self.next_id;
        let row = User {
            id,
            username: data.username,
            password: data.password,
            avatar: data.avatar,
            about: data.about,
        };
        let copy = row.duplicate();
        self.users.push(row);
        self.next_id = self.next_id + 1;
        proof {
            assert(self.rows() =~= old(self).rows().push(copy@));
        }
        copy
    }

    /// Looks a row up by id.
    pub fn find_one(&self, id: u64) -> (r: Option<User>)
        ensures
            r matches Some(u) ==> u@.id == id && exists|i: int|
                0 <= i < self.rows().len() && #[trigger] self.rows()[i] == u@,
            r is None ==> !has_id(self.rows(), id),
    {
        let n = self.users.len();
        let mut i: usize = 0;
        while i < n
            invariant
                n == self.users.len(),
                0 <= i <= n,
                forall|j: int| 0 <= j < i ==> (#[trigger] self.rows()[j]).id != id,
            decreases n - i,
        {
            if self.users[i].id == id {
                let found = self.users[i].duplicate();
                assert(self.rows()[i as int] == found@);
                return Some(found);
            }
            i = i + 1;
        }
        None
    }

    /// Looks a row up by username, case-insensitively.
    pub fn find_one_by_username(&self, username: &String) -> (r: Option<User>)
        ensures
            r matches Some(u) ==> same_username(u@.username, username@) && exists|i: int|
                0 <= i < self.rows().len() && #[trigger] self.rows()[i] == u@,
            r is None ==> !has_username(self.rows(), username@),
    {
        let folded = fold_username(username);
        let n = self.users.len();
        let mut i: usize = 0;
        while i < n
            invariant
                n == self.users.len(),
                0 <= i <= n,
                folded@ == lower_of(username@),
                forall|j: int|
                    0 <= j < i ==> !same_username((#[trigger] self.rows()[j]).username, username@),
            decreases n - i,
        {
            let candidate = fold_username(&self.users[i].username);
            if candidate.eq(&folded) {
                let found = self.users[i].duplicate();
                assert(self.rows()[i as int] == found@);
                return Some(found);
            }
            i = i + 1;
        }
        None
    }

    /// Copies out every row, in insertion order.
    pub fn find_all(&self) -> (r: Vec<User>)
        ensures
            r@.len() == self.rows().len(),
            forall|i: int| 0 <= i < r@.len() ==> (#[trigger] r@[i])@ == self.rows()[i],
    {
        let n = self.users.len();
        let mut out: Vec<User> = Vec::new();
        let mut i: usize = 0;
        while i < n
            invariant
                n == self.users.len(),
                0 <= i <= n,
                out@.len() == i,
                forall|j: int| 0 <= j < i ==> (#[trigger] out@[j])@ == self.rows()[j],
            decreases n - i,
        {
            out.push(self.users[i].duplicate());
            i = i + 1;
        }
        out
    }

    /// Removes the row with the id; absent ids leave the store unchanged.
    #[verifier::loop_isolation(false)]
    pub fn delete(&mut self, id: u64)
        requires
            old(self).wf(),
        ensures
            final(self).wf(),
            final(self).id_seed() == old(self).id_seed(),
            has_id(old(self).rows(), id) ==> exists|k: int|
                0 <= k < old(self).rows().len() && (#[trigger] old(self).rows()[k]).id == id
                    && final(self).rows() =~= old(self).rows().remove(k),
            !has_id(old(self).rows(), id) ==> final(self).rows() =~= old(self).rows(),
    {
        let n = self.users.len();
        let mut i: usize = 0;
        while i < n
            invariant
                n == self.users.len(),
                0 <= i <= n,
                self.users == old(self).users,
                self.next_id == old(self).next_id,
                forall|j: int| 0 <= j < i ==> (#[trigger] self.rows()[j]).id != id,
            decreases n - i,
        {
            if self.users[i].id == id {
                let ghost pre = self.rows();
                self.users.remove(i);
                proof {
                    pre.remove_ensures(i as int);
                    assert(self.rows() =~= pre.remove(i as int));
                    assert forall|a: int, b: int| 0 <= a < b < self.rows().len() implies {
                        &&& (#[trigger] self.rows()[a]).id != (#[trigger] self.rows()[b]).id
                        &&& lower_of(self.rows()[a].username) != lower_of(self.rows()[b].username)
                    } by {
                        let a0: int = if a < i { a } else { a + 1 };
                        let b0: int = if b < i { b } else { b + 1 };
                        assert(self.rows()[a] == old(self).rows()[a0]);
                        assert(self.rows()[b] == old(self).rows()[b0]);
                        assert(old(self).rows()[a0].id != old(self).rows()[b0].id);
                        assert(lower_of(old(self).rows()[a0].username) != lower_of(
                            old(self).rows()[b0].username,
                        ));
                    }
                    assert forall|a: int| 0 <= a < self.rows().len() implies (
                    #[trigger] self.rows()[a]).id < self.id_seed() by {
                        let a0: int = if a < i { a } else { a + 1 };
                        assert(self.rows()[a] == old(self).rows()[a0]);
                        assert(old(self).rows()[a0].id < old(self).id_seed());
                    }
                    assert(0 <= i < old(self).rows().len() && old(self).rows()[i as int].id == id
                        && self.rows() =~= old(self).rows().remove(i as int));
                }
                return ;
            }
            i = i + 1;
        }
    }

    /// Applies a patch to the row with the id. Present fields replace the
    /// stored ones; the caller guarantees that a renamed row collides with
    /// no other.
    #[verifier::loop_isolation(false)]
    pub fn update(&mut self, id: u64, data: UpdateUserDTO)
        requires
            old(self).wf(),
            has_id(old(self).rows(), id),
            data.username matches Some(n) ==> forall|i: int|
                0 <= i < old(self).rows().len() && (#[trigger] old(self).rows()[i]).id != id
                    ==> !same_username(old(self).rows()[i].username, n@),
        ensures
            final(self).wf(),
            final(self).id_seed() == old(self).id_seed(),
            exists|k: int|
                0 <= k < old(self).rows().len() && (#[trigger] old(self).rows()[k]).id == id
                    && final(self).rows() =~= old(self).rows().update(
                    k,
                    apply_patch(old(self).rows()[k], data@),
                ),
    {
        let n = self.users.len();
        let mut i: usize = 0;
        while i < n
            invariant
                n == self.users.len(),
                0 <= i <= n,
                self.users == old(self).users,
                self.next_id == old(self).next_id,
                forall|j: int| 0 <= j < i ==> (#[trigger] self.rows()[j]).id != id,
            decreases n - i,
        {
            if self.users[i].id == id {
                let row = self.users.remove(i);
                let ghost row_model = row@;
                let patched = User {
                    id: row.id,
                    username: match data.username {
                        Some(u) => u,
                        None => row.username,
                    },
                    password: match data.password {
                        Some(p) => p,
                        None => row.password,
                    },
                    avatar: match data.avatar {
                        Some(a) => Some(a),
                        None => row.avatar,
                    },
                    about: match data.about {
                        Some(a) => a,
                        None => row.about,
                    },
                };
                proof {
                    assert(old(self).rows()[i as int] == row_model);
                    assert(patched@ == apply_patch(old(self).rows()[i as int], data@));
                }
                self.users.insert(i, patched);
                proof {
                    let pre = old(self).rows();
                    let pi = apply_patch(pre[i as int], data@);
                    assert(self.rows() =~= pre.update(i as int, pi));
                    assert forall|a: int, b: int| 0 <= a < b < self.rows().len() implies {
                        &&& (#[trigger] self.rows()[a]).id != (#[trigger] self.rows()[b]).id
                        &&& lower_of(self.rows()[a].username) != lower_of(self.rows()[b].username)
                    } by {
                        assert(old(self).rows()[a].id != old(self).rows()[b].id);
                        assert(lower_of(old(self).rows()[a].username) != lower_of(
                            old(self).rows()[b].username,
                        ));
                        if a == i || b == i {
                            let other: int = if a == i {
                                b
                            } else {
                                a
                            };
                            assert(old(self).rows()[other].id != id);
                            match data@.username {
                                Some(nm) => {
                                    assert(!same_username(old(self).rows()[other].username, nm));
                                },
                                None => {},
                            }
                        }
                    }
                    assert forall|a: int| 0 <= a < self.rows().len() implies (
                    #[trigger] self.rows()[a]).id < self.id_seed() by {
                        assert(old(self).rows()[a].id < old(self).id_seed());
                    }
                }
                return ;
            }
            i = i + 1;
        }
        proof {
            assert(!has_id(old(self).rows(), id));
            assert(false);
        }
    }
}

} // verus!
