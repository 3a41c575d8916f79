//! Post Store: the post records, keyed by id.
//!
//! Posts carry an immutable author id; the ownership guard compares it to
//! the resolved identity before any mutation. Editing a post always marks
//! it as edited.

use vstd::prelude::*;

use crate::models::{Post, PostModel};

verus! {

/// Row to insert.
#[derive(Debug)]
pub struct CreatePostDTO {
    pub text: String,
    pub author_id: u64,
}

/// Patch to apply: a present text replaces the stored one; either way the
/// post is marked as edited.
#[derive(Debug)]
pub struct UpdatePostDTO {
    pub text: Option<String>,
}

/// Query: all posts by one author.
#[derive(Clone, Copy, Debug, PartialEq, Eq, Structural)]
pub struct PostFindAllParams {
    pub author_id: u64,
}

/// Whether some row of `rows` carries the id.
pub open spec fn has_post_id(rows: Seq<PostModel>, id: u64) -> bool {
    exists|i: int| 0 <= i < rows.len() && #[trigger] rows[i].id == id
}

/// The posts whose author is `a`, in stored order.
pub open spec fn posts_by(rows: Seq<PostModel>, a: u64) -> Seq<PostModel>
    decreases rows.len(),
{
    if rows.len() == 0 {
        Seq::empty()
    } else {
        let rest = posts_by(rows.drop_last(), a);
        if rows.last().author_id == a {
            rest.push(rows.last())
        } else {
            rest
        }
    }
}

/// A stored post with a patch applied: the text replaced where present,
/// and the edited mark set.
pub open spec fn apply_post_patch(p: PostModel, text: Option<Seq<char>>) -> PostModel {
    PostModel {
        id: p.id,
        text: match text {
            Some(t) => t,
            None => p.text,
        },
        author_id: p.author_id,
        created_at: p.created_at,
        edited: true,
    }
}

/// In-memory post store.
pub struct PostRepository {
    posts: Vec<Post>,
    next_id: u64,
}

impl PostRepository {
    /// The stored rows, in insertion order.
    pub closed spec fn rows(self) -> Seq<PostModel> {
        self.posts@.map_values(|p: Post| p@)
    }

    /// The id the next created row will get.
    pub closed spec fn id_seed(self) -> u64 {
        self.next_id
    }

    /// Store invariant: ids are pairwise distinct and below the id seed.
    pub open spec fn wf(self) -> bool {
        &&& forall|i: int, j: int|
            0 <= i < j < self.rows().len() ==> (#[trigger] self.rows()[i]).id != (
            #[trigger] self.rows()[j]).id
        &&& forall|i: int|
            0 <= i < self.rows().len() ==> (#[trigger] self.rows()[i]).id < self.id_seed()
    }

    /// Whether the id space is exhausted: no further row can be created.
    pub fn at_capacity(&self) -> (r: bool)
        ensures
            r == (self.id_seed() == u64::MAX),
    {
        self.next_id == u64::MAX
    }

    /// An empty store.
    pub fn new() -> (r: PostRepository)
        ensures
            r.wf(),
            r.rows() =~= Seq::<PostModel>::empty(),
            r.id_seed() == 0,
    {
        PostRepository { posts: Vec::new(), next_id: 0 }
    }

    /// Inserts a new row under a fresh id, created at `now` and not yet
    /// edited, and returns it.
    pub fn create(&mut self, data: CreatePostDTO, now: u64) -> (r: Post)
        requires
            old(self).wf(),
            old(self).id_seed() < u64::MAX,
        ensures
            final(self).wf(),
            final(self).rows() =~= old(self).rows().push(r@),
            final(self).id_seed() == old(self).id_seed() + 1,
            r@ == (PostModel {
                id: old(self).id_seed(),
                text: data.text@,
                author_id: data.author_id,
                created_at: now,
                edited: false,
            }),
    {
        let row = Post {
            id: self.next_id,
            text: data.text,
            author_id: data.author_id,
            created_at: now,
            edited: false,
        };
        let copy = row.duplicate();
        self.posts.push(row);
        self.next_id = self.next_id + 1;
        proof {
            assert(self.rows() =~= old(self).rows().push(copy@));
        }
        copy
    }

    /// Looks a row up by id.
    pub fn find_one(&self, id: u64) -> (r: Option<Post>)
        ensures
            r matches Some(p) ==> p@.id == id && exists|i: int|
                0 <= i < self.rows().len() && #[trigger] self.rows()[i] == p@,
            r is None ==> !has_post_id(self.rows(), id),
    {
        let n = self.posts.len();
        let mut i: usize = 0;
        while i < n
            invariant
                n == self.posts.len(),
                0 <= i <= n,
                forall|j: int| 0 <= j < i ==> (#[trigger] self.rows()[j]).id != id,
            decreases n - i,
        {
            if self.posts[i].id == id {
                let found = self.posts[i].duplicate();
                assert(self.rows()[i as int] == found@);
                return Some(found);
            }
            i = i + 1;
        }
        None
    }

    /// Copies out the posts by one author, in stored order.
    pub fn find_all(&self, params: PostFindAllParams) -> (r: Vec<Post>)
        ensures
            r@.map_values(|p: Post| p@) =~= posts_by(self.rows(), params.author_id),
    {
        let n = self.posts.len();
        let mut out: Vec<Post> = Vec::new();
        let mut i: usize = 0;
        while i < n
            invariant
                n == self.posts.len(),
                0 <= i <= n,
                out@.map_values(|p: Post| p@) =~= posts_by(
                    self.rows().take(i as int),
                    params.author_id,
                ),
            decreases n - i,
        {
            proof {
                assert(self.rows().take(i + 1).drop_last() =~= self.rows().take(i as int));
                assert(self.rows().take(i + 1).last() == self.rows()[i as int]);
            }
            if self.posts[i].author_id == params.author_id {
                let ghost before = out@;
                out.push(self.posts[i].duplicate());
                proof {
                    assert(out@.map_values(|p: Post| p@) =~= before.map_values(|p: Post| p@).push(
                        self.rows()[i as int],
                    ));
                }
            }
            i = i + 1;
        }
        proof {
            assert(self.rows().take(n as int) =~= self.rows());
        }
        out
    }

    /// Removes the row with the id; absent ids leave the store unchanged.
    #[verifier::loop_isolation(false)]
    pub fn delete(&mut self, id: u64)
        requires
            old(self).wf(),
        ensures
            final(self).wf(),
            final(self).id_seed() == old(self).id_seed(),
            has_post_id(old(self).rows(), id) ==> exists|k: int|
                0 <= k < old(self).rows().len() && (#[trigger] old(self).rows()[k]).id == id
                    && final(self).rows() =~= old(self).rows().remove(k),
            !has_post_id(old(self).rows(), id) ==> final(self).rows() =~= old(self).rows(),
    {
        let n = self.posts.len();
        let mut i: usize = 0;
        while i < n
            invariant
                n == self.posts.len(),
                0 <= i <= n,
                self.posts == old(self).posts,
                self.next_id == old(self).next_id,
                forall|j: int| 0 <= j < i ==> (#[trigger] self.rows()[j]).id != id,
            decreases n - i,
        {
            if self.posts[i].id == id {
                let ghost pre = self.rows();
                self.posts.remove(i);
                proof {
                    pre.remove_ensures(i as int);
                    assert(self.rows() =~= pre.remove(i as int));
                    assert forall|a: int, b: int| 0 <= a < b < self.rows().len() implies (
                    #[trigger] self.rows()[a]).id != (#[trigger] self.rows()[b]).id by {
                        let a0: int = if a < i { a } else { a + 1 };
                        let b0: int = if b < i { b } else { b + 1 };
                        assert(self.rows()[a] == old(self).rows()[a0]);
                        assert(self.rows()[b] == old(self).rows()[b0]);
                    }
                    assert forall|a: int| 0 <= a < self.rows().len() implies (
                    #[trigger] self.rows()[a]).id < self.id_seed() by {
                        let a0: int = if a < i { a } else { a + 1 };
                        assert(self.rows()[a] == old(self).rows()[a0]);
                    }
                    assert(0 <= i < old(self).rows().len() && old(self).rows()[i as int].id == id
                        && self.rows() =~= old(self).rows().remove(i as int));
                }
                return ;
            }
            i = i + 1;
        }
    }

    /// Applies a patch to the row with the id: the text replaced where
    /// present, the edited mark set either way.
    #[verifier::loop_isolation(false)]
    pub fn update(&mut self, id: u64, data: UpdatePostDTO)
        requires
            old(self).wf(),
            has_post_id(old(self).rows(), id),
        ensures
            final(self).wf(),
            final(self).id_seed() == old(self).id_seed(),
            exists|k: int|
                0 <= k < old(self).rows().len() && (#[trigger] old(self).rows()[k]).id == id
                    && final(self).rows() =~= old(self).rows().update(
                    k,
                    apply_post_patch(
                        old(self).rows()[k],
                        match data.text {
                            Some(t) => Some(t@),
                            None => None,
                        },
                    ),
                ),
    {
        let ghost text_model: Option<Seq<char>> = match &data.text {
            Some(t) => Some(t@),
            None => None,
        };
        let n = self.posts.len();
        let mut i: usize = 0;
        while i < n
            invariant
                n == self.posts.len(),
                0 <= i <= n,
                self.posts == old(self).posts,
                self.next_id == old(self).next_id,
                forall|j: int| 0 <= j < i ==> (#[trigger] self.rows()[j]).id != id,
            decreases n - i,
        {
            if self.posts[i].id == id {
                let row = self.posts.remove(i);
                let ghost row_model = row@;
                let patched = Post {
                    id: row.id,
                    text: match data.text {
                        Some(t) => t,
                        None => row.text,
                    },
                    author_id: row.author_id,
                    created_at: row.created_at,
                    edited: true,
                };
                proof {
                    assert(old(self).rows()[i as int] == row_model);
                }
                self.posts.insert(i, patched);
                proof {
                    let pre = old(self).rows();
                    let pi = apply_post_patch(pre[i as int], text_model);
                    assert(self.rows() =~= pre.update(i as int, pi));
                    assert forall|a: int, b: int| 0 <= a < b < self.rows().len() implies (
                    #[trigger] self.rows()[a]).id != (#[trigger] self.rows()[b]).id by {
                        assert(old(self).rows()[a].id != old(self).rows()[b].id);
                    }
                    assert forall|a: int| 0 <= a < self.rows().len() implies (
                    #[trigger] self.rows()[a]).id < self.id_seed() by {
                        assert(old(self).rows()[a].id < old(self).id_seed());
                    }
                }
                return ;
            }
            i = i + 1;
        }
        proof {
            assert(!has_post_id(old(self).rows(), id));
            assert(false);
        }
    }
}

} // verus!
