//! The in-memory repository: payloads kept in ascending order of identifier,
//! with an allocator that issues one more than the largest identifier present.
//!
//! Every mutation takes the store by exclusive reference, so allocating an
//! identifier and inserting under it are one step: whoever shares a store
//! between workers holds it behind a lock and keeps the lock for the call.

use vstd::prelude::*;
use crate::entity::Payload;
use crate::gateway::Repo;
use crate::gateway::RepoError;
use crate::gateway::Stored;

verus! {

/// Whether the identifiers of `items` are positive and strictly ascending,
/// and every payload obeys its entity's rules.
pub open spec fn ascending<P: Payload>(items: Seq<Stored<P>>) -> bool {
    &&& forall|i: int| 0 <= i < items.len() ==> (#[trigger] items[i]).id > 0
    &&& forall|i: int, j: int|
        0 <= i < j < items.len() ==> (#[trigger] items[i]).id < (#[trigger] items[j]).id
    &&& forall|i: int| 0 <= i < items.len() ==> P::valid_view((#[trigger] items[i]).payload@)
}

/// Whether some item of `items` is stored under `id`.
pub open spec fn holds<P>(items: Seq<Stored<P>>, id: u64) -> bool {
    exists|i: int| 0 <= i < items.len() && (#[trigger] items[i]).id == id
}

/// A position of `id` in `items`, where there is one.
pub open spec fn position<P>(items: Seq<Stored<P>>, id: u64) -> int {
    choose|i: int| 0 <= i < items.len() && (#[trigger] items[i]).id == id
}

/// The map from identifier to payload that `items` represents.
pub open spec fn contents_of<P: Payload>(items: Seq<Stored<P>>) -> Map<u64, P::V> {
    Map::new(|id: u64| holds(items, id), |id: u64| items[position(items, id)].payload@)
}

/// The largest identifier in `items`, or zero where there is none.
pub open spec fn largest_id<P>(items: Seq<Stored<P>>) -> u64 {
    if items.len() == 0 {
        0
    } else {
        items.last().id
    }
}

/// The identifier that follows the largest one in `items`, if it fits.
pub open spec fn successor_id<P>(items: Seq<Stored<P>>) -> Option<u64> {
    if largest_id(items) < u64::MAX {
        Some((largest_id(items) + 1) as u64)
    } else {
        None
    }
}

/// In an ascending sequence each identifier has one position.
pub proof fn lemma_position<P: Payload>(items: Seq<Stored<P>>, i: int)
    requires
        ascending(items),
        0 <= i < items.len(),
    ensures
        holds(items, items[i].id),
        position(items, items[i].id) == i,
        contents_of(items).contains_key(items[i].id),
        contents_of(items)[items[i].id] == items[i].payload@,
{
    let j = position(items, items[i].id);
    assert(0 <= j < items.len() && items[j].id == items[i].id);
    if j < i {
        assert(items[j].id < items[i].id);
    } else if i < j {
        assert(items[i].id < items[j].id);
    }
}

/// No identifier in an ascending sequence exceeds the last one.
pub proof fn lemma_largest<P: Payload>(items: Seq<Stored<P>>, i: int)
    requires
        ascending(items),
        0 <= i < items.len(),
    ensures
        0 < items[i].id <= largest_id(items),
{
    if i < items.len() - 1 {
        assert(items[i].id < items[items.len() - 1].id);
    }
}

/// A repository that lives in memory for as long as the process does.
pub struct InMemory<P> {
    items: Vec<Stored<P>>,
}

impl<P: Payload> Default for InMemory<P> {
    /// An empty store.
    fn default() -> (r: Self)
        ensures
            r.wf(),
            r.entries().len() == 0,
    {
        InMemory::new()
    }
}

impl<P: Payload> InMemory<P> {
    /// What the store holds, in ascending order of identifier.
    pub closed spec fn entries(&self) -> Seq<Stored<P>> {
        self.items@
    }

    /// The largest identifier present, or zero in an empty store.
    pub open spec fn max_id(&self) -> u64 {
        largest_id(self.entries())
    }

    /// An empty store.
    pub fn new() -> (r: Self)
        ensures
            r.wf(),
            r.contents() == Map::<u64, P::V>::empty(),
            r.entries().len() == 0,
            r.next_id() == Some(1u64),
    {
        let r = InMemory { items: Vec::new() };
        proof {
            assert(r.contents() =~= Map::<u64, P::V>::empty());
        }
        r
    }

    /// The number of entries.
    pub fn len(&self) -> (n: usize)
        ensures
            n == self.entries().len(),
    {
        self.items.len()
    }

    /// The identifier that the next `save` will issue: one more than the
    /// largest identifier present, and 1 in an empty store. Fails with
    /// `NewId` where that number no longer fits.
    pub fn new_id(&self) -> (r: Result<u64, RepoError>)
        requires
            self.wf(),
        ensures
            match r {
                Ok(id) => self.next_id() == Some(id) && id == self.max_id() + 1
                    && !self.contents().contains_key(id),
                Err(e) => e == RepoError::NewId && self.next_id().is_none()
                    && self.max_id() == u64::MAX,
            },
    {
        let n: usize = self.items.len();
        let largest: u64 = if n == 0 {
            0
        } else {
            self.items[n - 1].id
        };
        if largest == u64::MAX {
            Err(RepoError::NewId)
        } else {
            let id: u64 = largest + 1;
            proof {
                if holds(self.items@, id) {
                    let j = position(self.items@, id);
                    lemma_largest(self.items@, j);
                }
            }
            Ok(id)
        }
    }

    /// The position of `id` among the entries, if it is stored.
    fn find(&self, id: u64) -> (r: Option<usize>)
        requires
            self.wf(),
        ensures
            match r {
                Some(i) => i < self.entries().len() && self.entries()[i as int].id == id
                    && self.contents().contains_key(id),
                None => !self.contents().contains_key(id),
            },
    {
        let mut i: usize = 0;
        while i < self.items.len()
            invariant
                i <= self.items.len(),
                self.wf(),
                forall|k: int| 0 <= k < i ==> (#[trigger] self.items@[k]).id != id,
            decreases self.items.len() - i,
        {
            if self.items[i].id == id {
                proof {
                    lemma_position(self.items@, i as int);
                }
                return Some(i);
            }
            i += 1;
        }
        None
    }
}

impl<P: Payload> Repo<P> for InMemory<P> {
    open spec fn wf(&self) -> bool {
        ascending(self.entries())
    }

    open spec fn contents(&self) -> Map<u64, P::V> {
        contents_of(self.entries())
    }

    open spec fn dependable(&self) -> bool {
        true
    }

    open spec fn out_of_service(&self) -> bool {
        false
    }

    open spec fn next_id(&self) -> Option<u64> {
        successor_id(self.entries())
    }

    open spec fn listing_order(&self) -> Seq<u64> {
        Seq::new(self.entries().len(), |i: int| self.entries()[i].id)
    }

    fn save(&mut self, payload: P) -> (r: Result<u64, RepoError>) {
        let id: u64 = match self.new_id() {
            Ok(id) => id,
            Err(e) => {
                return Err(e);
            },
        };
        let ghost before = self.items@;
        let ghost shown = payload@;
        self.items.push(Stored { id, payload });
        proof {
            let after = self.items@;
            assert(after.len() == before.len() + 1);
            assert(after[before.len() as int].id == id);
            assert(after[before.len() as int].payload@ == shown);
            assert forall|i: int| 0 <= i < before.len() implies after[i] == before[i] by {}
            assert forall|i: int, j: int| 0 <= i < j < after.len() implies (#[trigger] after[i]).id
                < (#[trigger] after[j]).id by {
                if j == before.len() {
                    lemma_largest(before, i);
                }
            }
            assert(ascending(after));
            assert forall|k: u64| #[trigger]
                contents_of(after).contains_key(k) <==> contents_of(before).insert(
                    id,
                    shown,
                ).contains_key(k) by {
                if holds(before, k) {
                    let i = position(before, k);
                    assert(after[i].id == k);
                }
                if holds(after, k) && k != id {
                    let i = position(after, k);
                    assert(before[i].id == k);
                }
            }
            assert forall|k: u64| #[trigger] contents_of(after).contains_key(k) implies contents_of(
                after,
            )[k] == contents_of(before).insert(id, shown)[k] by {
                let i = position(after, k);
                lemma_position(after, i);
                if k != id {
                    assert(before[i].id == k);
                    lemma_position(before, i);
                } else {
                    lemma_position(after, before.len() as int);
                }
            }
            assert(contents_of(after) =~= contents_of(before).insert(id, shown));
        }
        Ok(id)
    }

    fn get(&self, id: u64) -> (r: Result<P, RepoError>) {
        match self.find(id) {
            Some(i) => {
                proof {
                    lemma_position(self.items@, i as int);
                }
                Ok(self.items[i].payload.duplicate())
            },
            None => Err(RepoError::NotFound),
        }
    }

    fn update(&mut self, id: u64, payload: P) -> (r: Result<(), RepoError>) {
        match self.find(id) {
            Some(i) => {
                let ghost before = self.items@;
                let ghost shown = payload@;
                self.items.set(i, Stored { id, payload });
                proof {
                    let after = self.items@;
                    assert(after.len() == before.len());
                    assert forall|k: int| 0 <= k < after.len() implies (#[trigger] after[k]).id
                        == before[k].id by {}
                    assert(ascending(after)) by {
                        assert forall|a: int, b: int| 0 <= a < b < after.len() implies (
                        #[trigger] after[a]).id < (#[trigger] after[b]).id by {
                            assert(before[a].id < before[b].id);
                        }
                        assert forall|k: int| 0 <= k < after.len() implies P::valid_view(
                            (#[trigger] after[k]).payload@,
                        ) by {
                            if k != i {
                                assert(after[k] == before[k]);
                            }
                        }
                        assert forall|k: int| 0 <= k < after.len() implies (#[trigger] after[k]).id
                            > 0 by {
                            assert(before[k].id > 0);
                        }
                    }
                    assert forall|k: u64| #[trigger]
                        contents_of(after).contains_key(k) <==> contents_of(before).insert(
                            id,
                            shown,
                        ).contains_key(k) by {
                        if holds(before, k) {
                            let p = position(before, k);
                            assert(after[p].id == k);
                        }
                        if holds(after, k) {
                            let p = position(after, k);
                            assert(before[p].id == k);
                        }
                    }
                    assert forall|k: u64| #[trigger]
                        contents_of(after).contains_key(k) implies contents_of(after)[k]
                        == contents_of(before).insert(id, shown)[k] by {
                        let p = position(after, k);
                        lemma_position(after, p);
                        assert(before[p].id == k);
                        lemma_position(before, p);
                        if k != id {
                            assert(p != i);
                            assert(after[p] == before[p]);
                        } else {
                            lemma_position(before, i as int);
                        }
                    }
                    assert(contents_of(after) =~= contents_of(before).insert(id, shown));
                }
                Ok(())
            },
            None => Err(RepoError::NotFound),
        }
    }

    fn delete(&mut self, id: u64) -> (r: Result<(), RepoError>) {
        match self.find(id) {
            Some(i) => {
                let ghost before = self.items@;
                let _gone = self.items.remove(i);
                proof {
                    let after = self.items@;
                    assert(after == before.remove(i as int));
                    assert forall|k: int| 0 <= k < after.len() implies #[trigger] after[k] == (if k
                        < i {
                        before[k]
                    } else {
                        before[k + 1]
                    }) by {}
                    assert(ascending(after)) by {
                        assert forall|a: int, b: int| 0 <= a < b < after.len() implies (
                        #[trigger] after[a]).id < (#[trigger] after[b]).id by {
                            let a0 = if a < i { a } else { a + 1 };
                            let b0 = if b < i { b } else { b + 1 };
                            assert(before[a0].id < before[b0].id);
                        }
                    }
                    assert forall|k: u64| #[trigger]
                        contents_of(after).contains_key(k) <==> contents_of(before).remove(
                            id,
                        ).contains_key(k) by {
                        if holds(before, k) && k != id {
                            let p = position(before, k);
                            let q = if p < i { p } else { p - 1 };
                            assert(after[q].id == k);
                        }
                        if holds(after, k) {
                            let p = position(after, k);
                            let q = if p < i { p } else { p + 1 };
                            assert(before[q].id == k);
                            lemma_position(before, q);
                            lemma_position(before, i as int);
                        }
                    }
                    assert forall|k: u64| #[trigger]
                        contents_of(after).contains_key(k) implies contents_of(after)[k]
                        == contents_of(before).remove(id)[k] by {
                        let p = position(after, k);
                        lemma_position(after, p);
                        let q = if p < i { p } else { p + 1 };
                        assert(before[q].id == k);
                        lemma_position(before, q);
                    }
                    assert(contents_of(after) =~= contents_of(before).remove(id));
                }
                Ok(())
            },
            None => Err(RepoError::NotFound),
        }
    }

    fn list_all(&self) -> (r: Result<Vec<Stored<P>>, RepoError>) {
        let mut out: Vec<Stored<P>> = Vec::new();
        let mut i: usize = 0;
        while i < self.items.len()
            invariant
                i <= self.items.len(),
                self.wf(),
                out@.len() == i,
                forall|k: int|
                    0 <= k < i ==> (#[trigger] out@[k]).id == self.items@[k].id && out@[k].payload@
                        == self.items@[k].payload@,
            decreases self.items.len() - i,
        {
            let copy = Stored { id: self.items[i].id, payload: self.items[i].payload.duplicate() };
            out.push(copy);
            i += 1;
        }
        proof {
            let items = self.items@;
            assert forall|k: int| 0 <= k < out@.len() implies self.contents().contains_key(
                (#[trigger] out@[k]).id,
            ) && self.contents()[out@[k].id] == out@[k].payload@ && P::valid_view(
                out@[k].payload@,
            ) by {
                lemma_position(items, k);
            }
            assert forall|a: int, b: int| 0 <= a < b < out@.len() implies (#[trigger] out@[a]).id
                != (#[trigger] out@[b]).id by {
                assert(items[a].id < items[b].id);
            }
            assert forall|id: u64| #[trigger] self.contents().contains_key(id) implies exists|
                k: int,
            |
                0 <= k < out@.len() && (#[trigger] out@[k]).id == id by {
                let p = position(items, id);
                assert(out@[p].id == id);
            }
        }
        Ok(out)
    }
}

/// A repository whose storage is out of service: it holds nothing and every
/// operation reports `Backend`.
pub struct Unavailable;

impl<P: Payload> Repo<P> for Unavailable {
    open spec fn wf(&self) -> bool {
        true
    }

    open spec fn contents(&self) -> Map<u64, P::V> {
        Map::empty()
    }

    open spec fn dependable(&self) -> bool {
        false
    }

    open spec fn out_of_service(&self) -> bool {
        true
    }

    open spec fn next_id(&self) -> Option<u64> {
        None
    }

    open spec fn listing_order(&self) -> Seq<u64> {
        Seq::empty()
    }

    fn save(&mut self, payload: P) -> (r: Result<u64, RepoError>) {
        Err(RepoError::Backend)
    }

    fn get(&self, id: u64) -> (r: Result<P, RepoError>) {
        Err(RepoError::Backend)
    }

    fn update(&mut self, id: u64, payload: P) -> (r: Result<(), RepoError>) {
        Err(RepoError::Backend)
    }

    fn delete(&mut self, id: u64) -> (r: Result<(), RepoError>) {
        Err(RepoError::Backend)
    }

    fn list_all(&self) -> (r: Result<Vec<Stored<P>>, RepoError>) {
        Err(RepoError::Backend)
    }
}

} // verus!
