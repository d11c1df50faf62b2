//! The repository gateway: the persistence contract that the use cases
//! depend on, whatever the storage behind it.

use vstd::prelude::*;
use crate::entity::Payload;

verus! {

/// Why a repository operation failed.
#[derive(Clone, Copy, Debug, PartialEq, Eq, Structural)]
pub enum RepoError {
    /// Nothing is stored under the identifier.
    NotFound,
    /// No fresh identifier could be allocated.
    NewId,
    /// The storage itself failed.
    Backend,
}

/// A payload together with the identifier it is stored under.
#[derive(Debug)]
pub struct Stored<P> {
    pub id: u64,
    pub payload: P,
}

/// Whether `items` lists exactly what `contents` holds, each identifier once.
pub open spec fn lists<P: Payload>(items: Seq<Stored<P>>, contents: Map<u64, P::V>) -> bool {
    &&& forall|i: int|
        0 <= i < items.len() ==> contents.contains_key(#[trigger] items[i].id)
            && contents[items[i].id] == items[i].payload@
            && P::valid_view(items[i].payload@)
    &&& forall|i: int, j: int|
        0 <= i < j < items.len() ==> (#[trigger] items[i]).id != (#[trigger] items[j]).id
    &&& forall|id: u64| #[trigger]
        contents.contains_key(id) ==> exists|i: int|
            0 <= i < items.len() && (#[trigger] items[i]).id == id
}

/// Whether the identifiers of `items` are those of `order`, one by one.
pub open spec fn in_order<P>(items: Seq<Stored<P>>, order: Seq<u64>) -> bool {
    &&& items.len() == order.len()
    &&& forall|i: int| 0 <= i < items.len() ==> (#[trigger] items[i]).id == order[i]
}

/// A store of payloads of one entity kind, keyed by identifier.
///
/// A store that is `dependable` never reports `Backend`: there every outcome
/// is decided by the contents alone. A store that is `out_of_service` reports
/// nothing else.
pub trait Repo<P: Payload>: Sized {
    /// The store's invariant.
    spec fn wf(&self) -> bool;

    /// What is stored, by identifier.
    spec fn contents(&self) -> Map<u64, P::V>;

    /// Whether the storage never fails.
    spec fn dependable(&self) -> bool;

    /// Whether the storage is out of service: then every call fails with
    /// `Backend` and changes nothing.
    spec fn out_of_service(&self) -> bool;

    /// The identifier that the next `save` issues, if one is left.
    spec fn next_id(&self) -> Option<u64>;

    /// The identifiers in the order in which `list_all` walks the store.
    spec fn listing_order(&self) -> Seq<u64>;

    /// Stores a new payload under a fresh identifier, in one step, and
    /// returns the identifier.
    fn save(&mut self, payload: P) -> (r: Result<u64, RepoError>)
        requires
            old(self).wf(),
            P::valid_view(payload@),
        ensures
            final(self).wf(),
            final(self).dependable() == old(self).dependable(),
            final(self).out_of_service() == old(self).out_of_service(),
            old(self).out_of_service() ==> r matches Err(RepoError::Backend),
            match r {
                Ok(id) => {
                    &&& id > 0
                    &&& old(self).next_id() == Some(id)
                    &&& !old(self).contents().contains_key(id)
                    &&& final(self).contents() == old(self).contents().insert(id, payload@)
                },
                Err(e) => {
                    &&& final(self).contents() == old(self).contents()
                    &&& e != RepoError::NotFound
                    &&& e == RepoError::NewId ==> old(self).next_id().is_none()
                    &&& old(self).dependable() ==> e == RepoError::NewId
                },
            },
    ;

    /// An independent copy of what is stored under `id`.
    fn get(&self, id: u64) -> (r: Result<P, RepoError>)
        requires
            self.wf(),
        ensures
            self.out_of_service() ==> r matches Err(RepoError::Backend),
            match r {
                Ok(p) => {
                    &&& self.contents().contains_key(id)
                    &&& p@ == self.contents()[id]
                    &&& P::valid_view(p@)
                },
                Err(e) => {
                    &&& e != RepoError::NewId
                    &&& e == RepoError::NotFound ==> !self.contents().contains_key(id)
                    &&& self.dependable() ==> e == RepoError::NotFound
                },
            },
    ;

    /// Replaces what is stored under `id`.
    fn update(&mut self, id: u64, payload: P) -> (r: Result<(), RepoError>)
        requires
            old(self).wf(),
            P::valid_view(payload@),
        ensures
            final(self).wf(),
            final(self).dependable() == old(self).dependable(),
            final(self).out_of_service() == old(self).out_of_service(),
            old(self).out_of_service() ==> r matches Err(RepoError::Backend),
            match r {
                Ok(_) => {
                    &&& old(self).contents().contains_key(id)
                    &&& final(self).contents() == old(self).contents().insert(id, payload@)
                },
                Err(e) => {
                    &&& final(self).contents() == old(self).contents()
                    &&& e != RepoError::NewId
                    &&& e == RepoError::NotFound ==> !old(self).contents().contains_key(id)
                    &&& old(self).dependable() ==> e == RepoError::NotFound
                },
            },
    ;

    /// Removes what is stored under `id`.
    fn delete(&mut self, id: u64) -> (r: Result<(), RepoError>)
        requires
            old(self).wf(),
        ensures
            final(self).wf(),
            final(self).dependable() == old(self).dependable(),
            final(self).out_of_service() == old(self).out_of_service(),
            old(self).out_of_service() ==> r matches Err(RepoError::Backend),
            match r {
                Ok(_) => {
                    &&& old(self).contents().contains_key(id)
                    &&& final(self).contents() == old(self).contents().remove(id)
                },
                Err(e) => {
                    &&& final(self).contents() == old(self).contents()
                    &&& e != RepoError::NewId
                    &&& e == RepoError::NotFound ==> !old(self).contents().contains_key(id)
                    &&& old(self).dependable() ==> e == RepoError::NotFound
                },
            },
    ;

    /// Independent copies of everything stored, in the store's own order.
    fn list_all(&self) -> (r: Result<Vec<Stored<P>>, RepoError>)
        requires
            self.wf(),
        ensures
            self.out_of_service() ==> r matches Err(RepoError::Backend),
            match r {
                Ok(items) => lists(items@, self.contents()) && in_order(
                    items@,
                    self.listing_order(),
                ),
                Err(e) => e == RepoError::Backend && !self.dependable(),
            },
    ;
}

} // verus!
