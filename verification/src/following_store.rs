//! Relationship Store: directed follow edges, at most one per ordered
//! pair of accounts, never from an account to itself.
//!
//! The store's view is the sequence of `(source, target)` pairs in
//! insertion order; counts of outgoing and incoming edges are defined
//! over it and every operation states exactly how it changes.

use vstd::prelude::*;

use crate::models::Following;

verus! {

/// Edge to insert.
#[derive(Clone, Copy, Debug, PartialEq, Eq, Structural)]
pub struct CreateFollowingDTO {
    pub from_id: u64,
    pub to_id: u64,
}

/// Whether the ordered pair occurs among the pairs.
pub open spec fn contains_pair(pairs: Seq<(u64, u64)>, p: (u64, u64)) -> bool {
    exists|i: int| 0 <= i < pairs.len() && #[trigger] pairs[i] == p
}

/// How many pairs have `a` as their source.
pub open spec fn count_from(pairs: Seq<(u64, u64)>, a: u64) -> nat
    decreases pairs.len(),
{
    if pairs.len() == 0 {
        0
    } else {
        count_from(pairs.drop_last(), a) + if pairs.last().0 == a {
            1nat
        } else {
            0nat
        }
    }
}

/// How many pairs have `a` as their target.
pub open spec fn count_to(pairs: Seq<(u64, u64)>, a: u64) -> nat
    decreases pairs.len(),
{
    if pairs.len() == 0 {
        0
    } else {
        count_to(pairs.drop_last(), a) + if pairs.last().1 == a {
            1nat
        } else {
            0nat
        }
    }
}

/// The edges whose source is `a`, in stored order.
pub open spec fn edges_from(rows: Seq<Following>, a: u64) -> Seq<Following>
    decreases rows.len(),
{
    if rows.len() == 0 {
        Seq::empty()
    } else {
        let rest = edges_from(rows.drop_last(), a);
        if rows.last().from_id == a {
            rest.push(rows.last())
        } else {
            rest
        }
    }
}

/// The edges whose target is `a`, in stored order.
pub open spec fn edges_to(rows: Seq<Following>, a: u64) -> Seq<Following>
    decreases rows.len(),
{
    if rows.len() == 0 {
        Seq::empty()
    } else {
        let rest = edges_to(rows.drop_last(), a);
        if rows.last().to_id == a {
            rest.push(rows.last())
        } else {
            rest
        }
    }
}

/// In-memory follow-edge store.
pub struct FollowingRepository {
    edges: Vec<Following>,
    next_id: u64,
}

impl FollowingRepository {
    /// The stored edges, in insertion order.
    pub closed spec fn rows(self) -> Seq<Following> {
        self.edges@
    }

    /// The stored `(source, target)` pairs, in insertion order.
    pub open spec fn pairs(self) -> Seq<(u64, u64)> {
        self.rows().map_values(|e: Following| (e.from_id, e.to_id))
    }

    /// The id the next created edge will get.
    pub closed spec fn id_seed(self) -> u64 {
        self.next_id
    }

    /// Store invariant: edge ids are pairwise distinct and below the id
    /// seed, no edge is a self-loop, and no ordered pair occurs twice.
    pub open spec fn wf(self) -> bool {
        &&& forall|i: int, j: int|
            0 <= i < j < self.rows().len() ==> (#[trigger] self.rows()[i]).id != (
            #[trigger] self.rows()[j]).id
        &&& forall|i: int, j: int|
            0 <= i < j < self.rows().len() ==> !((#[trigger] self.rows()[i]).from_id == (
            #[trigger] self.rows()[j]).from_id && self.rows()[i].to_id == self.rows()[j].to_id)
        &&& forall|i: int|
            0 <= i < self.rows().len() ==> (#[trigger] self.rows()[i]).id < self.id_seed()
        &&& forall|i: int|
            0 <= i < self.rows().len() ==> (#[trigger] self.rows()[i]).from_id
                != self.rows()[i].to_id
    }

    /// Whether the id space is exhausted: no further edge can be created.
    pub fn at_capacity(&self) -> (r: bool)
        ensures
            r == (self.id_seed() == u64::MAX),
    {
        self.next_id == u64::MAX
    }

    /// An empty store.
    pub fn new() -> (r: FollowingRepository)
        ensures
            r.wf(),
            r.rows() =~= Seq::<Following>::empty(),
            r.id_seed() == 0,
    {
        FollowingRepository { edges: Vec::new(), next_id: 0 }
    }

    /// Inserts a new edge under a fresh id and returns it. The caller is
    /// responsible for the no-self-loop and no-duplicate rules; the
    /// relationship service checks them before every call.
    pub fn create(&mut self, data: CreateFollowingDTO) -> (r: Following)
        requires
            old(self).wf(),
            old(self).id_seed() < u64::MAX,
            data.from_id != data.to_id,
            !contains_pair(old(self).pairs(), (data.from_id, data.to_id)),
        ensures
            final(self).wf(),
            final(self).rows() =~= old(self).rows().push(r),
            final(self).pairs() =~= old(self).pairs().push((data.from_id, data.to_id)),
            final(self).id_seed() == old(self).id_seed() + 1,
            r.id == old(self).id_seed(),
            r.from_id == data.from_id,
            r.to_id == data.to_id,
    {
        let row = Following { id: self.next_id, from_id: data.from_id, to_id: data.to_id };
        self.edges.push(row);
        self.next_id = self.next_id + 1;
        proof {
            assert(self.pairs() =~= old(self).pairs().push((data.from_id, data.to_id)));
            assert forall|i: int, j: int| 0 <= i < j < self.rows().len() implies !((
            #[trigger] self.rows()[i]).from_id == (#[trigger] self.rows()[j]).from_id
                && self.rows()[i].to_id == self.rows()[j].to_id) by {
                if j == self.rows().len() - 1 {
                    assert(old(self).pairs()[i] != (data.from_id, data.to_id));
                }
            }
        }
        row
    }

    /// Looks the edge for an ordered pair up.
    pub fn find_one_by_from_and_to_ids(&self, from_id: u64, to_id: u64) -> (r: Option<Following>)
        ensures
            r matches Some(e) ==> e.from_id == from_id && e.to_id == to_id && exists|i: int|
                0 <= i < self.rows().len() && #[trigger] self.rows()[i] == e,
            r is None ==> !contains_pair(self.pairs(), (from_id, to_id)),
    {
        let n = self.edges.len();
        let mut i: usize = 0;
        while i < n
            invariant
                n == self.edges.len(),
                0 <= i <= n,
                forall|j: int| 0 <= j < i ==> #[trigger] self.pairs()[j] != (from_id, to_id),
            decreases n - i,
        {
            if self.edges[i].from_id == from_id && self.edges[i].to_id == to_id {
                let found = self.edges[i];
                assert(self.rows()[i as int] == found);
                return Some(found);
            }
            assert(self.pairs()[i as int] != (from_id, to_id));
            i = i + 1;
        }
        None
    }

    /// Copies out the edges whose source is `from_id`, in stored order.
    pub fn find_all_by_from_id(&self, from_id: u64) -> (r: Vec<Following>)
        ensures
            r@ =~= edges_from(self.rows(), from_id),
            r@.len() == count_from(self.pairs(), from_id),
    {
        let n = self.edges.len();
        let mut out: Vec<Following> = Vec::new();
        let mut i: usize = 0;
        while i < n
            invariant
                n == self.edges.len(),
                0 <= i <= n,
                out@ =~= edges_from(self.rows().take(i as int), from_id),
                out@.len() == count_from(self.pairs().take(i as int), from_id),
            decreases n - i,
        {
            proof {
                assert(self.rows().take(i + 1).drop_last() =~= self.rows().take(i as int));
                assert(self.pairs().take(i + 1).drop_last() =~= self.pairs().take(i as int));
                assert(self.rows().take(i + 1).last() == self.rows()[i as int]);
                assert(self.pairs().take(i + 1).last() == self.pairs()[i as int]);
            }
            if self.edges[i].from_id == from_id {
                out.push(self.edges[i]);
            }
            i = i + 1;
        }
        proof {
            assert(self.rows().take(n as int) =~= self.rows());
            assert(self.pairs().take(n as int) =~= self.pairs());
        }
        out
    }

    /// Copies out the edges whose target is `to_id`, in stored order.
    pub fn find_all_by_to_id(&self, to_id: u64) -> (r: Vec<Following>)
        ensures
            r@ =~= edges_to(self.rows(), to_id),
            r@.len() == count_to(self.pairs(), to_id),
    {
        let n = self.edges.len();
        let mut out: Vec<Following> = Vec::new();
        let mut i: usize = 0;
        while i < n
            invariant
                n == self.edges.len(),
                0 <= i <= n,
                out@ =~= edges_to(self.rows().take(i as int), to_id),
                out@.len() == count_to(self.pairs().take(i as int), to_id),
            decreases n - i,
        {
            proof {
                assert(self.rows().take(i + 1).drop_last() =~= self.rows().take(i as int));
                assert(self.pairs().take(i + 1).drop_last() =~= self.pairs().take(i as int));
                assert(self.rows().take(i + 1).last() == self.rows()[i as int]);
                assert(self.pairs().take(i + 1).last() == self.pairs()[i as int]);
            }
            if self.edges[i].to_id == to_id {
                out.push(self.edges[i]);
            }
            i = i + 1;
        }
        proof {
            assert(self.rows().take(n as int) =~= self.rows());
            assert(self.pairs().take(n as int) =~= self.pairs());
        }
        out
    }

    /// Removes the edge with the id; absent ids leave the store unchanged.
    #[verifier::loop_isolation(false)]
    pub fn delete(&mut self, id: u64)
        requires
            old(self).wf(),
        ensures
            final(self).wf(),
            final(self).id_seed() == old(self).id_seed(),
            (exists|k: int|
                0 <= k < old(self).rows().len() && (#[trigger] old(self).rows()[k]).id == id)
                ==> exists|k: int|
                {
                    &&& 0 <= k < old(self).rows().len()
                    &&& (#[trigger] old(self).rows()[k]).id == id
                    &&& final(self).rows() =~= old(self).rows().remove(k)
                    &&& final(self).pairs() =~= old(self).pairs().remove(k)
                },
            (forall|k: int|
                0 <= k < old(self).rows().len() ==> (#[trigger] old(self).rows()[k]).id != id)
                ==> final(self).rows() =~= old(self).rows(),
    {
        let n = self.edges.len();
        let mut i: usize = 0;
        while i < n
            invariant
                n == self.edges.len(),
                0 <= i <= n,
                self.edges == old(self).edges,
                self.next_id == old(self).next_id,
                forall|j: int| 0 <= j < i ==> (#[trigger] self.rows()[j]).id != id,
            decreases n - i,
        {
            if self.edges[i].id == id {
                let ghost pre = self.rows();
                self.edges.remove(i);
                proof {
                    pre.remove_ensures(i as int);
                    assert(self.rows() =~= pre.remove(i as int));
                    assert(self.pairs() =~= old(self).pairs().remove(i as int));
                    assert forall|a: int, b: int| 0 <= a < b < self.rows().len() implies {
                        &&& (#[trigger] self.rows()[a]).id != (#[trigger] self.rows()[b]).id
                        &&& !(self.rows()[a].from_id == self.rows()[b].from_id
                            && self.rows()[a].to_id == self.rows()[b].to_id)
                    } by {
                        let a0: int = if a < i { a } else { a + 1 };
                        let b0: int = if b < i { b } else { b + 1 };
                        assert(self.rows()[a] == old(self).rows()[a0]);
                        assert(self.rows()[b] == old(self).rows()[b0]);
                    }
                    assert forall|a: int| 0 <= a < self.rows().len() implies {
                        &&& (#[trigger] self.rows()[a]).id < self.id_seed()
                        &&& self.rows()[a].from_id != self.rows()[a].to_id
                    } by {
                        let a0: int = if a < i { a } else { a + 1 };
                        assert(self.rows()[a] == old(self).rows()[a0]);
                    }
                    assert(0 <= i < old(self).rows().len() && old(self).rows()[i as int].id == id
                        && self.rows() =~= old(self).rows().remove(i as int) && self.pairs()
                        =~= old(self).pairs().remove(i as int));
                }
                return ;
            }
            i = i + 1;
        }
    }
}

} // verus!
