//! Post Service: creation, lookup, edit and deletion of posts.
//!
//! Creation bounds the text length; edits and deletions run the ownership
//! rule first — only the author of a post may change or remove it — and
//! deny everyone else with `CantDoThis`.

use vstd::prelude::*;

use crate::errors::{AppError, EntityKind};
use crate::post_store::{
    apply_post_patch, has_post_id, posts_by, CreatePostDTO, PostFindAllParams, PostRepository,
    UpdatePostDTO,
};
use crate::schemas::{post_public_of, CreatePostSchema, PostSchema, UpdatePostSchema};

verus! {

/// The longest post text accepted, in characters.
pub const MAX_POST_CHARS: usize = 256;

/// Post service over the post store.
pub struct PostService {
    pub repository: PostRepository,
}

impl PostService {
    /// The stored post rows.
    pub open spec fn rows(self) -> Seq<crate::models::PostModel> {
        self.repository.rows()
    }

    /// The service is as well formed as its store.
    pub open spec fn wf(self) -> bool {
        self.repository.wf()
    }

    /// A service over an empty store.
    pub fn new() -> (r: PostService)
        ensures
            r.wf(),
            r.rows() =~= Seq::<crate::models::PostModel>::empty(),
            r.repository.id_seed() == 0,
    {
        PostService { repository: PostRepository::new() }
    }

    /// Creates a post for the author at instant `now`. Fails with
    /// `TextTooLong` when the text is empty or longer than
    /// `MAX_POST_CHARS` characters.
    pub fn create_post(&mut self, data: CreatePostSchema, author_id: u64, now: u64) -> (r: Result<
        PostSchema,
        AppError,
    >)
        requires
            old(self).wf(),
            old(self).repository.id_seed() < u64::MAX,
        ensures
            final(self).wf(),
            r is Ok ==> final(self).repository.id_seed() == old(self).repository.id_seed() + 1,
            r is Err ==> final(self).repository.id_seed() == old(self).repository.id_seed(),
            match r {
                Ok(schema) => {
                    &&& 1 <= data.text@.len() <= MAX_POST_CHARS
                    &&& final(self).rows().len() == old(self).rows().len() + 1
                    &&& final(self).rows().drop_last() =~= old(self).rows()
                    &&& ({
                        let row = final(self).rows().last();
                        &&& row.id == old(self).repository.id_seed()
                        &&& row.text == data.text@
                        &&& row.author_id == author_id
                        &&& row.created_at == now
                        &&& row.edited == false
                        &&& schema@ == post_public_of(row)
                    })
                },
                Err(e) => {
                    &&& final(self).rows() =~= old(self).rows()
                    &&& !(1 <= data.text@.len() <= MAX_POST_CHARS)
                    &&& e == AppError::TextTooLong
                },
            },
    {
        let chars = data.text.as_str().unicode_len();
        if chars < 1 || chars > MAX_POST_CHARS {
            return Err(AppError::TextTooLong);
        }
        let row = self.repository.create(CreatePostDTO { text: data.text, author_id }, now);
        let schema = PostSchema::of_post(&row);
        proof {
            assert(self.rows().last() == row@);
            assert(self.rows().drop_last() =~= old(self).rows());
        }
        Ok(schema)
    }

    /// Lookup by id, projected to the public shape.
    pub fn find_one_post(&self, id: u64) -> (r: Result<PostSchema, AppError>)
        ensures
            match r {
                Ok(schema) => exists|i: int|
                    0 <= i < self.rows().len() && (#[trigger] self.rows()[i]).id == id && schema@
                        == post_public_of(self.rows()[i]),
                Err(e) => !has_post_id(self.rows(), id) && e == (AppError::EntityNotFound {
                    entity: EntityKind::Post,
                    id,
                }),
            },
    {
        match self.repository.find_one(id) {
            None => Err(AppError::EntityNotFound { entity: EntityKind::Post, id }),
            Some(post) => {
                let schema = PostSchema::of_post(&post);
                proof {
                    let i = choose|i: int|
                        0 <= i < self.rows().len() && #[trigger] self.rows()[i] == post@;
                    assert(self.rows()[i].id == id && schema@ == post_public_of(self.rows()[i]));
                }
                Ok(schema)
            },
        }
    }

    /// Every post by one author, projected to the public shape, newest
    /// first: the stored order reversed, which is descending creation time
    /// whenever the instants handed to `create_post` do not decrease.
    pub fn find_all_posts(&self, author_id: u64) -> (r: Vec<PostSchema>)
        ensures
            r@.len() == posts_by(self.rows(), author_id).len(),
            forall|i: int|
                0 <= i < r@.len() ==> (#[trigger] r@[i])@ == post_public_of(
                    posts_by(self.rows(), author_id)[r@.len() - 1 - i],
                ),
    {
        let posts = self.repository.find_all(PostFindAllParams { author_id });
        let ghost selected = posts_by(self.rows(), author_id);
        let n = posts.len();
        let mut out: Vec<PostSchema> = Vec::new();
        let mut i: usize = 0;
        while i < n
            invariant
                n == posts@.len(),
                posts@.map_values(|p: crate::models::Post| p@) =~= selected,
                0 <= i <= n,
                out@.len() == i,
                forall|j: int|
                    0 <= j < i ==> (#[trigger] out@[j])@ == post_public_of(selected[n - 1 - j]),
            decreases n - i,
        {
            out.push(PostSchema::of_post(&posts[n - 1 - i]));
            proof {
                assert(posts@.map_values(|p: crate::models::Post| p@)[n - 1 - i] == selected[n - 1
                    - i]);
            }
            i = i + 1;
        }
        out
    }

    /// Deletion. Fails with `EntityNotFound` when the id is unknown and
    /// with `CantDoThis` when `user_id` is not the author; otherwise
    /// removes exactly that post.
    pub fn delete_post(&mut self, id: u64, user_id: u64) -> (r: Result<(), AppError>)
        requires
            old(self).wf(),
        ensures
            final(self).wf(),
            final(self).repository.id_seed() == old(self).repository.id_seed(),
            match r {
                Ok(()) => exists|k: int|
                    {
                        &&& 0 <= k < old(self).rows().len()
                        &&& (#[trigger] old(self).rows()[k]).id == id
                        &&& old(self).rows()[k].author_id == user_id
                        &&& final(self).rows() =~= old(self).rows().remove(k)
                    },
                Err(e) => {
                    &&& final(self).rows() =~= old(self).rows()
                    &&& if !has_post_id(old(self).rows(), id) {
                        e == (AppError::EntityNotFound { entity: EntityKind::Post, id })
                    } else {
                        (exists|k: int|
                            0 <= k < old(self).rows().len() && (#[trigger] old(self).rows()[k]).id
                                == id && old(self).rows()[k].author_id != user_id) && e
                            == AppError::CantDoThis
                    }
                },
            },
    {
        let post = match self.repository.find_one(id) {
            None => {
                return Err(AppError::EntityNotFound { entity: EntityKind::Post, id });
            },
            Some(post) => post,
        };
        let ghost k = choose|i: int|
            0 <= i < self.rows().len() && #[trigger] self.rows()[i] == post@;
        if post.author_id != user_id {
            return Err(AppError::CantDoThis);
        }
        proof {
            assert(has_post_id(self.rows(), id));
        }
        self.repository.delete(id);
        proof {
            let k2 = choose|k2: int|
                {
                    &&& 0 <= k2 < old(self).rows().len()
                    &&& (#[trigger] old(self).rows()[k2]).id == id
                    &&& self.rows() =~= old(self).rows().remove(k2)
                };
            assert(k2 == k);
        }
        Ok(())
    }

    /// Edit. Fails with `EntityNotFound` when the id is unknown and with
    /// `CantDoThis` when `author_id` is not the author; otherwise replaces
    /// the text where present and marks the post as edited.
    pub fn update_post(&mut self, id: u64, data: UpdatePostSchema, author_id: u64) -> (r: Result<
        (),
        AppError,
    >)
        requires
            old(self).wf(),
        ensures
            final(self).wf(),
            final(self).repository.id_seed() == old(self).repository.id_seed(),
            match r {
                Ok(()) => exists|k: int|
                    {
                        &&& 0 <= k < old(self).rows().len()
                        &&& (#[trigger] old(self).rows()[k]).id == id
                        &&& old(self).rows()[k].author_id == author_id
                        &&& final(self).rows() =~= old(self).rows().update(
                            k,
                            apply_post_patch(
                                old(self).rows()[k],
                                match data.text {
                                    Some(t) => Some(t@),
                                    None => None,
                                },
                            ),
                        )
                    },
                Err(e) => {
                    &&& final(self).rows() =~= old(self).rows()
                    &&& if !has_post_id(old(self).rows(), id) {
                        e == (AppError::EntityNotFound { entity: EntityKind::Post, id })
                    } else {
                        (exists|k: int|
                            0 <= k < old(self).rows().len() && (#[trigger] old(self).rows()[k]).id
                                == id && old(self).rows()[k].author_id != author_id) && e
                            == AppError::CantDoThis
                    }
                },
            },
    {
        let post = match self.repository.find_one(id) {
            None => {
                return Err(AppError::EntityNotFound { entity: EntityKind::Post, id });
            },
            Some(post) => post,
        };
        let ghost k = choose|i: int|
            0 <= i < self.rows().len() && #[trigger] self.rows()[i] == post@;
        if post.author_id != author_id {
            return Err(AppError::CantDoThis);
        }
        let ghost text_model: Option<Seq<char>> = match &data.text {
            Some(t) => Some(t@),
            None => None,
        };
        proof {
            assert(has_post_id(self.rows(), id));
        }
        self.repository.update(id, UpdatePostDTO { text: data.text });
        proof {
            let k2 = choose|k2: int|
                {
                    &&& 0 <= k2 < old(self).rows().len()
                    &&& (#[trigger] old(self).rows()[k2]).id == id
                    &&& self.rows() =~= old(self).rows().update(
                        k2,
                        apply_post_patch(old(self).rows()[k2], text_model),
                    )
                };
            assert(k2 == k);
        }
        Ok(())
    }
}

} // verus!
