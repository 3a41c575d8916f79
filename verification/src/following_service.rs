//! Relationship Service: follow, unfollow and follow-count queries.
//!
//! The service enforces the two edge rules — no self-follow, at most one
//! edge per ordered pair — and its behaviour is pinned down by the spec
//! transitions `spec_follow` and `spec_unfollow`, over which the laws at
//! the end of this module are proved.

use vstd::prelude::*;

use crate::errors::AppError;
use crate::following_store::{
    contains_pair, count_from, count_to, CreateFollowingDTO, FollowingRepository,
};
use crate::models::Following;
use crate::schemas::UserSchema;

verus! {

/// What following `b` as `a` does to the stored pairs: rejected as a
/// self-follow, rejected as a duplicate, or appended.
pub open spec fn spec_follow(pairs: Seq<(u64, u64)>, a: u64, b: u64) -> (Result<(), AppError>, Seq<
    (u64, u64),
>) {
    if a == b {
        (Err(AppError::SelfFollow), pairs)
    } else if contains_pair(pairs, (a, b)) {
        (Err(AppError::AlreadyFollowing), pairs)
    } else {
        (Ok(()), pairs.push((a, b)))
    }
}

/// What unfollowing `b` as `a` does to the stored pairs: rejected when no
/// edge exists, otherwise the edge's one occurrence is removed.
pub open spec fn spec_unfollow(pairs: Seq<(u64, u64)>, a: u64, b: u64) -> (Result<(), AppError>, Seq<
    (u64, u64),
>) {
    if contains_pair(pairs, (a, b)) {
        (Ok(()), pairs.remove_value((a, b)))
    } else {
        (Err(AppError::NotFollowing), pairs)
    }
}

/// Relationship service over the follow-edge store.
pub struct FollowingService {
    pub repository: FollowingRepository,
}

impl FollowingService {
    /// The stored `(source, target)` pairs.
    pub open spec fn pairs(self) -> Seq<(u64, u64)> {
        self.repository.pairs()
    }

    /// The service is as well formed as its store.
    pub open spec fn wf(self) -> bool {
        self.repository.wf()
    }

    /// A service over an empty store.
    pub fn new() -> (r: FollowingService)
        ensures
            r.wf(),
            r.pairs() =~= Seq::<(u64, u64)>::empty(),
            r.repository.id_seed() == 0,
    {
        FollowingService { repository: FollowingRepository::new() }
    }

    /// Follow: fails with `SelfFollow` on `from == to` and with
    /// `AlreadyFollowing` on a duplicate pair; otherwise records the edge.
    /// Id-space headroom is needed only where an edge is actually created:
    /// the rejecting paths hold of every store.
    pub fn follow(&mut self, from: UserSchema, to: UserSchema) -> (r: Result<(), AppError>)
        requires
            old(self).wf(),
            from.id != to.id && !contains_pair(old(self).pairs(), (from.id, to.id)) ==> old(
                self,
            ).repository.id_seed() < u64::MAX,
        ensures
            final(self).wf(),
            r == spec_follow(old(self).pairs(), from.id, to.id).0,
            final(self).pairs() =~= spec_follow(old(self).pairs(), from.id, to.id).1,
            r is Ok ==> final(self).repository.id_seed() == old(self).repository.id_seed() + 1,
            r is Err ==> final(self).repository.id_seed() == old(self).repository.id_seed(),
            r is Err ==> final(self).repository.rows() =~= old(self).repository.rows(),
    {
        if from.id == to.id {
            return Err(AppError::SelfFollow);
        }
        match self.repository.find_one_by_from_and_to_ids(from.id, to.id) {
            Some(edge) => {
                proof {
                    let i = choose|i: int|
                        0 <= i < self.repository.rows().len() && #[trigger] self.repository.rows()[i]
                            == edge;
                    assert(self.pairs()[i] == (from.id, to.id));
                }
                Err(AppError::AlreadyFollowing)
            },
            None => {
                self.repository.create(CreateFollowingDTO { from_id: from.id, to_id: to.id });
                Ok(())
            },
        }
    }

    /// Unfollow: fails with `NotFollowing` when no edge exists for the
    /// ordered pair; otherwise deletes exactly that edge.
    pub fn unfollow(&mut self, from: UserSchema, to: UserSchema) -> (r: Result<(), AppError>)
        requires
            old(self).wf(),
        ensures
            final(self).wf(),
            r == spec_unfollow(old(self).pairs(), from.id, to.id).0,
            final(self).pairs() =~= spec_unfollow(old(self).pairs(), from.id, to.id).1,
            final(self).repository.id_seed() == old(self).repository.id_seed(),
            r is Err ==> final(self).repository.rows() =~= old(self).repository.rows(),
    {
        match self.repository.find_one_by_from_and_to_ids(from.id, to.id) {
            None => Err(AppError::NotFollowing),
            Some(edge) => {
                let ghost pre = self.pairs();
                let ghost i = choose|i: int|
                    0 <= i < self.repository.rows().len() && #[trigger] self.repository.rows()[i]
                        == edge;
                proof {
                    assert(pre[i] == (from.id, to.id));
                }
                self.repository.delete(edge.id);
                proof {
                    let k = choose|k: int|
                        {
                            &&& 0 <= k < old(self).repository.rows().len()
                            &&& (#[trigger] old(self).repository.rows()[k]).id == edge.id
                            &&& self.repository.rows() =~= old(self).repository.rows().remove(k)
                            &&& self.repository.pairs() =~= old(self).repository.pairs().remove(k)
                        };
                    assert(k == i);
                    pre.index_of_first_ensures((from.id, to.id));
                    let f = pre.index_of_first((from.id, to.id)).unwrap();
                    assert(pre[f] == (from.id, to.id));
                    if f != i {
                        assert(old(self).repository.rows()[f].from_id == old(
                            self,
                        ).repository.rows()[i].from_id && old(self).repository.rows()[f].to_id
                            == old(self).repository.rows()[i].to_id);
                    }
                    assert(f == i);
                    assert(pre.remove_value((from.id, to.id)) == pre.remove(i));
                }
                Ok(())
            },
        }
    }

    /// How many accounts `user` follows: the number of edges with `user`
    /// as source. A pure read; zero results are a plain zero, not an
    /// error.
    pub fn get_followings_count(&self, user: UserSchema) -> (r: Result<u64, AppError>)
        ensures
            r matches Ok(c) ==> c as nat == count_from(self.pairs(), user.id),
            r is Ok,
    {
        let found = self.repository.find_all_by_from_id(user.id);
        Ok(found.len() as u64)
    }

    /// How many accounts follow `user`: the number of edges with `user`
    /// as target. A pure read; zero results are a plain zero, not an
    /// error.
    pub fn get_followers_count(&self, user: UserSchema) -> (r: Result<u64, AppError>)
        ensures
            r matches Ok(c) ==> c as nat == count_to(self.pairs(), user.id),
            r is Ok,
    {
        let found = self.repository.find_all_by_to_id(user.id);
        Ok(found.len() as u64)
    }

    /// The edge for an ordered pair, if it exists.
    pub fn get_following_by_from_and_to_ids(&self, from: UserSchema, to: UserSchema) -> (r: Option<
        Following,
    >)
        ensures
            r matches Some(e) ==> e.from_id == from.id && e.to_id == to.id && contains_pair(
                self.pairs(),
                (from.id, to.id),
            ),
            r is None ==> !contains_pair(self.pairs(), (from.id, to.id)),
    {
        let r = self.repository.find_one_by_from_and_to_ids(from.id, to.id);
        proof {
            match r {
                Some(e) => {
                    let i = choose|i: int|
                        0 <= i < self.repository.rows().len() && #[trigger] self.repository.rows()[i]
                            == e;
                    assert(self.pairs()[i] == (from.id, to.id));
                },
                None => {},
            }
        }
        r
    }

    /// Whether `from_id` currently follows `to_id`.
    pub fn is_following(&self, from_id: u64, to_id: u64) -> (r: bool)
        ensures
            r == contains_pair(self.pairs(), (from_id, to_id)),
    {
        let found = self.repository.find_one_by_from_and_to_ids(from_id, to_id);
        proof {
            match found {
                Some(e) => {
                    let i = choose|i: int|
                        0 <= i < self.repository.rows().len() && #[trigger] self.repository.rows()[i]
                            == e;
                    assert(self.pairs()[i] == (from_id, to_id));
                },
                None => {},
            }
        }
        found.is_some()
    }
}

/// Following oneself always fails with `SelfFollow` and changes nothing,
/// whatever the stored pairs.
pub proof fn lemma_self_follow(pairs: Seq<(u64, u64)>, a: u64)
    ensures
        spec_follow(pairs, a, a).0 == Err::<(), AppError>(AppError::SelfFollow),
        spec_follow(pairs, a, a).1 == pairs,
{
}

/// Following twice: for an account that follows nobody, the first
/// `follow(a, b)` succeeds, the second fails with `AlreadyFollowing` and
/// changes nothing, and the following count of `a` is one after both
/// calls.
pub proof fn lemma_follow_twice(pairs: Seq<(u64, u64)>, a: u64, b: u64)
    requires
        a != b,
        !contains_pair(pairs, (a, b)),
        count_from(pairs, a) == 0,
    ensures
        ({
            let first = spec_follow(pairs, a, b);
            let second = spec_follow(first.1, a, b);
            &&& first.0 == Ok::<(), AppError>(())
            &&& count_from(first.1, a) == 1
            &&& second.0 == Err::<(), AppError>(AppError::AlreadyFollowing)
            &&& second.1 == first.1
            &&& count_from(second.1, a) == 1
        }),
{
    let grown = pairs.push((a, b));
    assert(grown[pairs.len() as int] == (a, b));
    assert(grown.drop_last() =~= pairs);
}

/// Unfollowing without a prior follow fails with `NotFollowing`; after a
/// successful follow, unfollow succeeds, no edge for the pair remains,
/// and the stored pairs are exactly what they were before the follow.
pub proof fn lemma_follow_then_unfollow(pairs: Seq<(u64, u64)>, a: u64, b: u64)
    requires
        a != b,
        !contains_pair(pairs, (a, b)),
    ensures
        spec_unfollow(pairs, a, b).0 == Err::<(), AppError>(AppError::NotFollowing),
        spec_unfollow(pairs, a, b).1 == pairs,
        ({
            let followed = spec_follow(pairs, a, b);
            let unfollowed = spec_unfollow(followed.1, a, b);
            &&& followed.0 == Ok::<(), AppError>(())
            &&& unfollowed.0 == Ok::<(), AppError>(())
            &&& !contains_pair(unfollowed.1, (a, b))
            &&& unfollowed.1 =~= pairs
        }),
{
    let grown = pairs.push((a, b));
    assert(grown[pairs.len() as int] == (a, b));
    grown.index_of_first_ensures((a, b));
    let f = grown.index_of_first((a, b)).unwrap();
    if f < pairs.len() {
        assert(pairs[f] == (a, b));
    }
    assert(f == pairs.len());
    assert(grown.remove(pairs.len() as int) =~= pairs);
}

} // verus!
