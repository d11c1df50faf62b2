//! The use cases on areas of life. They mirror those on thoughts, without
//! the check of associations: an area of life refers to nothing else.

use vstd::prelude::*;
use crate::entity::area_of_life_of;
use crate::entity::title_check;
use crate::entity::valid_title;
use crate::entity::validate_title;
use crate::entity::AreaOfLife;
use crate::entity::AreaOfLifeData;
use crate::entity::Invalidity;
use crate::gateway::Repo;
use crate::gateway::RepoError;
use crate::gateway::Stored;
use crate::id::parse_id;
use crate::id::parsed_id;
use crate::id::AreaOfLifeId;

verus! {

// ---- create ----
/// Why an area of life was not created.
#[derive(Clone, Copy, Debug, PartialEq, Eq, Structural)]
pub enum CreateError {
    /// The name breaks a rule.
    Invalidity(Invalidity),
    /// The storage failed.
    Repo,
    /// No identifier was left to allocate.
    NewId,
}

/// What the use case reports for what the repository answered to `save`.
pub open spec fn create_outcome(saved: Result<u64, RepoError>) -> Result<
    AreaOfLifeId,
    CreateError,
> {
    match saved {
        Ok(value) => Ok(AreaOfLifeId { value }),
        Err(RepoError::NewId) => Err(CreateError::NewId),
        Err(_) => Err(CreateError::Repo),
    }
}

/// Turns the repository's answer to `save` into the use case's own outcome.
pub fn conclude_create(saved: Result<u64, RepoError>) -> (r: Result<AreaOfLifeId, CreateError>)
    ensures
        r == create_outcome(saved),
{
    match saved {
        Ok(value) => Ok(AreaOfLifeId { value }),
        Err(RepoError::NewId) => Err(CreateError::NewId),
        Err(_) => Err(CreateError::Repo),
    }
}

/// What `create` promises of its result `r` and of the repository `after` it,
/// given the repository `before` it and the name.
pub open spec fn create_post<R: Repo<AreaOfLifeData>>(
    before: R,
    after: R,
    name: Seq<char>,
    r: Result<AreaOfLifeId, CreateError>,
) -> bool {
    &&& (match r {
        Ok(id) => {
            &&& id.wf()
            &&& valid_title(name)
            &&& before.next_id() == Some(id.value)
            &&& !before.contents().contains_key(id.value)
            &&& after.contents() == before.contents().insert(id.value, name)
        },
        Err(e) => {
            &&& after.contents() == before.contents()
            &&& match e {
                CreateError::Invalidity(rule) => title_check(name) == Err::<(), Invalidity>(
                    rule,
                ),
                CreateError::Repo => valid_title(name) && !before.dependable(),
                CreateError::NewId => valid_title(name) && before.next_id().is_none(),
            }
        },
    })
    &&& (valid_title(name) && before.dependable() && before.next_id().is_some()
        ==> r.is_ok())
    &&& (valid_title(name) && before.out_of_service() ==> r matches Err(CreateError::Repo))
}

/// Creates an area of life with the given name and returns its fresh
/// identifier. On a failure nothing is stored.
pub fn create<R: Repo<AreaOfLifeData>>(repo: &mut R, name: String) -> (r: Result<
    AreaOfLifeId,
    CreateError,
>)
    requires
        old(repo).wf(),
    ensures
        final(repo).wf(),
        final(repo).dependable() == old(repo).dependable(),
        final(repo).out_of_service() == old(repo).out_of_service(),
        create_post(*old(repo), *final(repo), name@, r),
{
    if let Err(rule) = validate_title(name.as_str()) {
        return Err(CreateError::Invalidity(rule));
    }
    let saved = repo.save(AreaOfLifeData { name });
    conclude_create(saved)
}

// ---- update ----
/// What a caller hands in to have an area of life renamed.
#[derive(Debug)]
pub struct UpdateRequest {
    pub id: String,
    pub name: String,
}

/// Why an area of life was not changed.
#[derive(Clone, Copy, Debug, PartialEq, Eq, Structural)]
pub enum UpdateError {
    /// The identifier is malformed.
    Id,
    /// No area of life is stored under this identifier.
    NotFound(AreaOfLifeId),
    /// The name breaks a rule.
    Invalidity(Invalidity),
    /// The storage failed.
    Repo,
}

/// What renaming reports, where the storage does not fail.
pub open spec fn update_result(contents: Map<u64, Seq<char>>, raw: Seq<char>, name: Seq<char>)
    -> Result<(), UpdateError> {
    match parsed_id(raw) {
        None => Err(UpdateError::Id),
        Some(value) => match title_check(name) {
            Err(rule) => Err(UpdateError::Invalidity(rule)),
            Ok(_) => if contents.contains_key(value) {
                Ok(())
            } else {
                Err(UpdateError::NotFound(AreaOfLifeId { value }))
            },
        },
    }
}

/// Turns the repository's answer to `update` into the use case's own outcome.
pub fn conclude_update(id: AreaOfLifeId, changed: Result<(), RepoError>) -> (r: Result<
    (),
    UpdateError,
>)
    ensures
        r == (match changed {
            Ok(_) => Ok::<(), UpdateError>(()),
            Err(RepoError::NotFound) => Err(UpdateError::NotFound(id)),
            Err(_) => Err(UpdateError::Repo),
        }),
{
    match changed {
        Ok(_) => Ok(()),
        Err(RepoError::NotFound) => Err(UpdateError::NotFound(id)),
        Err(_) => Err(UpdateError::Repo),
    }
}

/// What `update` promises of its result `r` and of the repository `after` it,
/// given the repository `before` it and the request.
pub open spec fn update_post<R: Repo<AreaOfLifeData>>(
    before: R,
    after: R,
    raw: Seq<char>,
    name: Seq<char>,
    r: Result<(), UpdateError>,
) -> bool {
    &&& (match r {
        Err(UpdateError::Repo) => parsed_id(raw).is_some() && valid_title(name)
            && !before.dependable(),
        _ => r == update_result(before.contents(), raw, name),
    })
    &&& (match r {
        Ok(_) => after.contents() == before.contents().insert(
            parsed_id(raw).unwrap(),
            name,
        ),
        Err(_) => after.contents() == before.contents(),
    })
    &&& (parsed_id(raw).is_some() && valid_title(name) && before.out_of_service() ==> r matches Err(UpdateError::Repo))
}

/// Renames the area of life that the request identifies. On a failure the
/// stored area of life is left as it was.
pub fn update<R: Repo<AreaOfLifeData>>(repo: &mut R, req: UpdateRequest) -> (r: Result<
    (),
    UpdateError,
>)
    requires
        old(repo).wf(),
    ensures
        final(repo).wf(),
        final(repo).dependable() == old(repo).dependable(),
        final(repo).out_of_service() == old(repo).out_of_service(),
        update_post(*old(repo), *final(repo), req.id@, req.name@, r),
{
    let id: AreaOfLifeId = match AreaOfLifeId::parse(req.id.as_str()) {
        Some(id) => id,
        None => {
            return Err(UpdateError::Id);
        },
    };
    if let Err(rule) = validate_title(req.name.as_str()) {
        return Err(UpdateError::Invalidity(rule));
    }
    let changed = repo.update(id.value, AreaOfLifeData { name: req.name });
    conclude_update(id, changed)
}

// ---- read all ----
/// Why the areas of life could not be read.
#[derive(Clone, Copy, Debug, PartialEq, Eq, Structural)]
pub enum ReadAllError {
    /// The storage failed.
    Repo,
}

/// Whether `all` lists exactly what `contents` holds, each area of life once.
pub open spec fn lists_areas(all: Seq<AreaOfLife>, contents: Map<u64, Seq<char>>) -> bool {
    &&& forall|i: int|
        0 <= i < all.len() ==> contents.contains_key((#[trigger] all[i]).id.value) && all[i]@
            == area_of_life_of(all[i].id.value, contents[all[i].id.value])
    &&& forall|i: int, j: int|
        0 <= i < j < all.len() ==> (#[trigger] all[i]).id != (#[trigger] all[j]).id
    &&& forall|id: u64| #[trigger]
        contents.contains_key(id) ==> exists|i: int|
            0 <= i < all.len() && (#[trigger] all[i]).id.value == id
}

/// What `read_all` promises of its result `r`, given the repository.
pub open spec fn read_all_post<R: Repo<AreaOfLifeData>>(
    repo: R,
    r: Result<Vec<AreaOfLife>, ReadAllError>,
) -> bool {
    &&& (match r {
        Ok(all) => {
            &&& lists_areas(all@, repo.contents())
            &&& all@.len() == repo.listing_order().len()
            &&& forall|i: int|
                0 <= i < all@.len() ==> (#[trigger] all@[i]).id.value == repo.listing_order()[i]
        },
        Err(_) => !repo.dependable(),
    })
    &&& (repo.out_of_service() ==> r.is_err())
}

/// Reads every area of life, in the repository's own order.
pub fn read_all<R: Repo<AreaOfLifeData>>(repo: &R) -> (r: Result<Vec<AreaOfLife>, ReadAllError>)
    requires
        repo.wf(),
    ensures
        read_all_post(*repo, r),
{
    match repo.list_all() {
        Ok(items) => {
            let mut out: Vec<AreaOfLife> = Vec::new();
            let mut i: usize = 0;
            while i < items.len()
                invariant
                    i <= items.len(),
                    out@.len() == i,
                    forall|k: int|
                        0 <= k < i ==> (#[trigger] out@[k])@ == area_of_life_of(
                            items@[k].id,
                            items@[k].payload@,
                        ),
                decreases items.len() - i,
            {
                let item: &Stored<AreaOfLifeData> = &items[i];
                out.push(
                    AreaOfLife { id: AreaOfLifeId { value: item.id }, name: item.payload.name.clone() },
                );
                i += 1;
            }
            proof {
                let listed = items@;
                assert forall|k: int| 0 <= k < out@.len() implies repo.contents().contains_key(
                    (#[trigger] out@[k]).id.value,
                ) && out@[k]@ == area_of_life_of(
                    out@[k].id.value,
                    repo.contents()[out@[k].id.value],
                ) by {
                    assert(out@[k]@.id == listed[k].id);
                }
                assert forall|a: int, b: int| 0 <= a < b < out@.len() implies (#[trigger] out@[a]).id
                    != (#[trigger] out@[b]).id by {
                    assert(out@[a]@.id == listed[a].id);
                    assert(out@[b]@.id == listed[b].id);
                }
                assert forall|id: u64| #[trigger] repo.contents().contains_key(id) implies exists|
                    k: int,
                |
                    0 <= k < out@.len() && (#[trigger] out@[k]).id.value == id by {
                    let p = choose|p: int| 0 <= p < listed.len() && (#[trigger] listed[p]).id == id;
                    assert(out@[p]@.id == listed[p].id);
                }
            }
            Ok(out)
        },
        Err(_) => Err(ReadAllError::Repo),
    }
}

// ---- delete ----
/// Why an area of life was not deleted.
#[derive(Clone, Copy, Debug, PartialEq, Eq, Structural)]
pub enum DeleteError {
    /// The identifier is malformed.
    Id,
    /// No area of life is stored under the identifier.
    NotFound,
    /// The storage failed.
    Repo,
}

/// What deleting `raw` from `contents` reports, where the storage does not fail.
pub open spec fn delete_result(contents: Map<u64, Seq<char>>, raw: Seq<char>) -> Result<
    (),
    DeleteError,
> {
    match parsed_id(raw) {
        None => Err(DeleteError::Id),
        Some(id) => if contents.contains_key(id) {
            Ok(())
        } else {
            Err(DeleteError::NotFound)
        },
    }
}

/// Turns the repository's answer to `delete` into the use case's own outcome.
pub fn conclude_delete(gone: Result<(), RepoError>) -> (r: Result<(), DeleteError>)
    ensures
        r == (match gone {
            Ok(_) => Ok::<(), DeleteError>(()),
            Err(RepoError::NotFound) => Err(DeleteError::NotFound),
            Err(_) => Err(DeleteError::Repo),
        }),
{
    match gone {
        Ok(_) => Ok(()),
        Err(RepoError::NotFound) => Err(DeleteError::NotFound),
        Err(_) => Err(DeleteError::Repo),
    }
}

/// What `delete` promises of its result `r` and of the repository `after` it,
/// given the repository `before` it and the text.
pub open spec fn delete_post<R: Repo<AreaOfLifeData>>(
    before: R,
    after: R,
    raw: Seq<char>,
    r: Result<(), DeleteError>,
) -> bool {
    &&& (match r {
        Err(DeleteError::Repo) => parsed_id(raw).is_some() && !before.dependable(),
        _ => r == delete_result(before.contents(), raw),
    })
    &&& (match r {
        Ok(_) => after.contents() == before.contents().remove(
            parsed_id(raw).unwrap(),
        ),
        Err(_) => after.contents() == before.contents(),
    })
    &&& (parsed_id(raw).is_some() && before.out_of_service() ==> r matches Err(DeleteError::Repo))
}

/// Deletes the area of life that the text `raw` identifies. Thoughts that
/// are tagged with it are not looked at.
pub fn delete<R: Repo<AreaOfLifeData>>(repo: &mut R, raw: &str) -> (r: Result<(), DeleteError>)
    requires
        old(repo).wf(),
    ensures
        final(repo).wf(),
        final(repo).dependable() == old(repo).dependable(),
        final(repo).out_of_service() == old(repo).out_of_service(),
        delete_post(*old(repo), *final(repo), raw@, r),
{
    let id: u64 = match parse_id(raw) {
        Some(id) => id,
        None => {
            return Err(DeleteError::Id);
        },
    };
    let gone = repo.delete(id);
    conclude_delete(gone)
}

} // verus!
