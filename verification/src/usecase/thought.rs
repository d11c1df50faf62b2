//! The use cases on thoughts.

use vstd::prelude::*;
use crate::entity::is_id_set;
use crate::entity::thought_of;
use crate::entity::title_check;
use crate::entity::valid_title;
use crate::entity::validate_title;
use crate::entity::AreaOfLifeData;
use crate::entity::Invalidity;
use crate::entity::Payload;
use crate::entity::Thought;
use crate::entity::ThoughtData;
use crate::entity::ThoughtDataView;
use crate::entity::ThoughtView;
use crate::gateway::lists;
use crate::gateway::Repo;
use crate::gateway::RepoError;
use crate::gateway::Stored;
use crate::id::parse_id;
use crate::id::parsed_id;
use crate::id::AreaOfLifeId;
use crate::id::ThoughtId;

verus! {

// ---- associations ----
/// Whether one of `texts` denotes the identifier `id`.
pub open spec fn named(texts: Seq<String>, id: AreaOfLifeId) -> bool {
    exists|i: int| 0 <= i < texts.len() && parsed_id(#[trigger] texts[i]@) == Some(id.value)
}

/// Whether every one of `texts` denotes an identifier.
pub open spec fn all_parse(texts: Seq<String>) -> bool {
    forall|i: int| 0 <= i < texts.len() ==> parsed_id(#[trigger] texts[i]@).is_some()
}

/// Whether `ids` is exactly the set of identifiers that `texts` denote.
pub open spec fn denotes(texts: Seq<String>, ids: Seq<AreaOfLifeId>) -> bool {
    &&& is_id_set(ids)
    &&& forall|a: AreaOfLifeId|
        #![trigger ids.contains(a)]
        #![trigger named(texts, a)]
        ids.contains(a) <==> named(texts, a)
}

/// Whether `missing` is exactly the set of those of `ids` under which
/// `areas` holds nothing.
pub open spec fn unresolved<V>(
    ids: Seq<AreaOfLifeId>,
    areas: Map<u64, V>,
    missing: Seq<AreaOfLifeId>,
) -> bool {
    &&& is_id_set(missing)
    &&& forall|a: AreaOfLifeId| #[trigger]
        missing.contains(a) <==> ids.contains(a) && !areas.contains_key(a.value)
}

/// Whether `missing` is exactly the set of the identifiers that `texts`
/// denote and under which `areas` holds nothing: every such identifier is in
/// it, once, and nothing else is.
pub open spec fn all_missing<V>(
    texts: Seq<String>,
    areas: Map<u64, V>,
    missing: Seq<AreaOfLifeId>,
) -> bool {
    &&& is_id_set(missing)
    &&& forall|a: AreaOfLifeId| #[trigger]
        missing.contains(a) <==> named(texts, a) && !areas.contains_key(a.value)
}

/// Whether `areas` holds something under every identifier that `texts` denote.
pub open spec fn none_missing<V>(texts: Seq<String>, areas: Map<u64, V>) -> bool {
    forall|a: AreaOfLifeId| #[trigger] named(texts, a) ==> areas.contains_key(a.value)
}

/// Whether `areas` holds something under every one of `ids`.
pub open spec fn all_resolve<V>(ids: Seq<AreaOfLifeId>, areas: Map<u64, V>) -> bool {
    forall|i: int| 0 <= i < ids.len() ==> areas.contains_key((#[trigger] ids[i]).value)
}

/// Whether `id` occurs in `ids`.
pub fn contains_id(ids: &Vec<AreaOfLifeId>, id: AreaOfLifeId) -> (r: bool)
    ensures
        r == ids@.contains(id),
{
    let mut i: usize = 0;
    while i < ids.len()
        invariant
            i <= ids.len(),
            forall|k: int| 0 <= k < i ==> ids@[k] != id,
        decreases ids.len() - i,
    {
        if ids[i].value == id.value {
            assert(ids@[i as int] == id);
            return true;
        }
        i += 1;
    }
    false
}

/// Reads the identifiers of the areas of life that a request names. Gives
/// nothing if any text denotes no identifier; otherwise the set of the
/// identifiers that the texts denote, each of them once.
pub fn parse_area_ids(texts: &Vec<String>) -> (r: Option<Vec<AreaOfLifeId>>)
    ensures
        r.is_some() <==> all_parse(texts@),
        r matches Some(ids) ==> denotes(texts@, ids@),
{
    let mut out: Vec<AreaOfLifeId> = Vec::new();
    let mut i: usize = 0;
    while i < texts.len()
        invariant
            i <= texts.len(),
            all_parse(texts@.take(i as int)),
            denotes(texts@.take(i as int), out@),
        decreases texts.len() - i,
    {
        let ghost seen = texts@.take(i as int);
        let ghost more = texts@.take(i + 1);
        let ghost kept = out@;
        match AreaOfLifeId::parse(texts[i].as_str()) {
            None => {
                assert(parsed_id(texts@[i as int]@).is_none());
                return None;
            },
            Some(id) => {
                if !contains_id(&out, id) {
                    out.push(id);
                    assert(out@ == kept.push(id));
                    assert(out@.no_duplicates());
                }
                proof {
                    assert(more[i as int] == texts@[i as int]);
                    assert forall|k: int| 0 <= k < i implies more[k] == seen[k] by {}
                    assert(named(more, id));
                    assert(out@.contains(id)) by {
                        if kept.contains(id) {
                            let p = choose|p: int| 0 <= p < kept.len() && kept[p] == id;
                            assert(out@[p] == id);
                        } else {
                            assert(out@[kept.len() as int] == id);
                        }
                    }
                    assert forall|a: AreaOfLifeId|
                        #![trigger out@.contains(a)]
                        #![trigger named(more, a)]
                        out@.contains(a) <==> named(more, a) by {
                        if out@.contains(a) && a != id {
                            let p = choose|p: int| 0 <= p < out@.len() && out@[p] == a;
                            assert(kept[p] == a);
                            assert(kept.contains(a));
                            assert(named(seen, a));
                            let q = choose|q: int|
                                0 <= q < seen.len() && parsed_id(#[trigger] seen[q]@) == Some(
                                    a.value,
                                );
                            assert(parsed_id(more[q]@) == Some(a.value));
                        }
                        if named(more, a) && a != id {
                            let q = choose|q: int|
                                0 <= q < more.len() && parsed_id(#[trigger] more[q]@) == Some(
                                    a.value,
                                );
                            assert(q < i);
                            assert(parsed_id(seen[q]@) == Some(a.value));
                            assert(named(seen, a));
                            assert(kept.contains(a));
                            let p = choose|p: int| 0 <= p < kept.len() && kept[p] == a;
                            assert(out@[p] == a);
                        }
                    }
                    assert forall|k: int| 0 <= k < out@.len() implies (#[trigger] out@[k]).wf() by {
                        if k < kept.len() {
                            assert(out@[k] == kept[k]);
                        }
                    }
                }
            },
        }
        i += 1;
    }
    proof {
        assert(texts@.take(texts.len() as int) =~= texts@);
    }
    Some(out)
}

/// Looks every one of `ids` up in the repository of areas of life and
/// collects all of those that it does not hold.
pub fn missing_areas<A: Repo<AreaOfLifeData>>(areas: &A, ids: &Vec<AreaOfLifeId>) -> (r: Result<
    Vec<AreaOfLifeId>,
    RepoError,
>)
    requires
        areas.wf(),
        is_id_set(ids@),
    ensures
        match r {
            Ok(missing) => unresolved(ids@, areas.contents(), missing@),
            Err(e) => e == RepoError::Backend && !areas.dependable(),
        },
{
    let mut missing: Vec<AreaOfLifeId> = Vec::new();
    let mut i: usize = 0;
    while i < ids.len()
        invariant
            i <= ids.len(),
            areas.wf(),
            is_id_set(ids@),
            unresolved(ids@.take(i as int), areas.contents(), missing@),
        decreases ids.len() - i,
    {
        let id: AreaOfLifeId = ids[i];
        let ghost seen = ids@.take(i as int);
        let ghost more = ids@.take(i + 1);
        let ghost kept = missing@;
        assert(more =~= seen.push(id));
        assert(!seen.contains(id)) by {
            if seen.contains(id) {
                let p = choose|p: int| 0 <= p < seen.len() && seen[p] == id;
                assert(ids@[p] == ids@[i as int]);
            }
        }
        match areas.get(id.value) {
            Ok(_) => {},
            Err(RepoError::NotFound) => {
                assert(!kept.contains(id));
                missing.push(id);
                assert(missing@ == kept.push(id));
                assert(missing@.no_duplicates());
            },
            Err(_) => {
                return Err(RepoError::Backend);
            },
        }
        proof {
            let found = areas.contents().contains_key(id.value);
            assert forall|k: int| 0 <= k < missing@.len() implies (#[trigger] missing@[k]).wf() by {
                if k < kept.len() {
                    assert(missing@[k] == kept[k]);
                } else {
                    assert(ids@[i as int].wf());
                }
            }
            assert forall|a: AreaOfLifeId| #[trigger]
                missing@.contains(a) <==> more.contains(a) && !areas.contents().contains_key(
                    a.value,
                ) by {
                if missing@.contains(a) {
                    let p = choose|p: int| 0 <= p < missing@.len() && missing@[p] == a;
                    if p < kept.len() {
                        assert(kept[p] == a);
                        assert(kept.contains(a));
                        assert(seen.contains(a));
                        let q = choose|q: int| 0 <= q < seen.len() && seen[q] == a;
                        assert(more[q] == a);
                    } else {
                        assert(a == id);
                        assert(more[i as int] == id);
                    }
                }
                if more.contains(a) && !areas.contents().contains_key(a.value) {
                    let q = choose|q: int| 0 <= q < more.len() && more[q] == a;
                    if q < i {
                        assert(seen[q] == a);
                        assert(seen.contains(a));
                        assert(kept.contains(a));
                        let p = choose|p: int| 0 <= p < kept.len() && kept[p] == a;
                        assert(missing@[p] == a);
                    } else {
                        assert(a == id);
                        assert(missing@[kept.len() as int] == id);
                    }
                }
            }
        }
        i += 1;
    }
    proof {
        assert(ids@.take(ids.len() as int) =~= ids@);
    }
    Ok(missing)
}

// ---- create ----
/// What a caller hands in to have a thought created.
#[derive(Debug)]
pub struct CreateRequest {
    pub title: String,
    pub area_of_life_ids: Vec<String>,
}

/// Why a thought was not created.
#[derive(Debug)]
pub enum CreateError {
    /// An area-of-life identifier is malformed.
    AreaOfLifeId,
    /// The title breaks a rule.
    Invalidity(Invalidity),
    /// These areas of life, all of them, do not exist.
    AreasOfLifeNotFound(Vec<AreaOfLifeId>),
    /// The storage failed.
    Repo,
    /// No identifier was left to allocate.
    NewId,
}

/// Whether `after` is `before` with one new thought under the fresh
/// identifier `id`, carrying `title` and the areas of life that `texts` denote.
pub open spec fn created(
    before: Map<u64, ThoughtDataView>,
    after: Map<u64, ThoughtDataView>,
    id: u64,
    title: Seq<char>,
    texts: Seq<String>,
) -> bool {
    &&& id > 0
    &&& !before.contains_key(id)
    &&& after.contains_key(id)
    &&& after == before.insert(id, after[id])
    &&& after[id].title == title
    &&& denotes(texts, after[id].areas)
}

/// What the use case reports for what the repository answered to `save`.
pub open spec fn create_outcome(saved: Result<u64, RepoError>) -> Result<ThoughtId, CreateError> {
    match saved {
        Ok(value) => Ok(ThoughtId { value }),
        Err(RepoError::NewId) => Err(CreateError::NewId),
        Err(_) => Err(CreateError::Repo),
    }
}

/// Turns the repository's answer to `save` into the use case's own outcome.
pub fn conclude_create(saved: Result<u64, RepoError>) -> (r: Result<ThoughtId, CreateError>)
    ensures
        r == create_outcome(saved),
{
    match saved {
        Ok(value) => Ok(ThoughtId { value }),
        Err(RepoError::NewId) => Err(CreateError::NewId),
        Err(_) => Err(CreateError::Repo),
    }
}

/// What `create` promises of its result `r` and of the repository `after` it,
/// given the repository `before` it, the areas of life and the request.
pub open spec fn create_post<R: Repo<ThoughtData>, A: Repo<AreaOfLifeData>>(
    before: R,
    after: R,
    areas: A,
    title: Seq<char>,
    texts: Seq<String>,
    r: Result<ThoughtId, CreateError>,
) -> bool {
    &&& (match r {
        Ok(id) => {
            &&& before.next_id() == Some(id.value)
            &&& created(
                before.contents(),
                after.contents(),
                id.value,
                title,
                texts,
            )
            &&& all_parse(texts)
            &&& valid_title(title)
            &&& all_resolve(after.contents()[id.value].areas, areas.contents())
        },
        Err(e) => {
            &&& after.contents() == before.contents()
            &&& match e {
                CreateError::Invalidity(rule) => title_check(title) == Err::<
                    (),
                    Invalidity,
                >(rule),
                CreateError::AreaOfLifeId => valid_title(title) && !all_parse(
                    texts,
                ),
                CreateError::AreasOfLifeNotFound(missing) => {
                    &&& valid_title(title)
                    &&& all_parse(texts)
                    &&& missing@.len() > 0
                    &&& all_missing(texts, areas.contents(), missing@)
                },
                CreateError::Repo => {
                    &&& valid_title(title)
                    &&& all_parse(texts)
                    &&& !areas.dependable() || !before.dependable()
                },
                CreateError::NewId => {
                    &&& valid_title(title)
                    &&& all_parse(texts)
                    &&& before.next_id().is_none()
                },
            }
        },
    })
    &&& (({
        &&& valid_title(title)
        &&& all_parse(texts)
        &&& none_missing(texts, areas.contents())
        &&& areas.dependable()
        &&& before.dependable()
        &&& before.next_id().is_some()
    }) ==> r.is_ok())
    &&& (({
        &&& valid_title(title)
        &&& all_parse(texts)
        &&& none_missing(texts, areas.contents())
        &&& areas.dependable()
        &&& before.out_of_service()
    }) ==> r matches Err(CreateError::Repo))
}

/// Creates a thought: checks the title, reads the area-of-life identifiers,
/// makes sure that each of them exists, and stores the thought under a fresh
/// identifier, which it returns.
///
/// On a failure nothing is stored. With dependable repositories the outcome
/// is decided by the request and the contents alone.
pub fn create<R: Repo<ThoughtData>, A: Repo<AreaOfLifeData>>(
    repo: &mut R,
    areas: &A,
    req: CreateRequest,
) -> (r: Result<ThoughtId, CreateError>)
    requires
        old(repo).wf(),
        areas.wf(),
    ensures
        final(repo).wf(),
        final(repo).dependable() == old(repo).dependable(),
        final(repo).out_of_service() == old(repo).out_of_service(),
        create_post(*old(repo), *final(repo), *areas, req.title@, req.area_of_life_ids@, r),
{
    if let Err(rule) = validate_title(req.title.as_str()) {
        return Err(CreateError::Invalidity(rule));
    }
    let ids: Vec<AreaOfLifeId> = match parse_area_ids(&req.area_of_life_ids) {
        Some(ids) => ids,
        None => {
            return Err(CreateError::AreaOfLifeId);
        },
    };
    let missing: Vec<AreaOfLifeId> = match missing_areas(areas, &ids) {
        Ok(missing) => missing,
        Err(_) => {
            return Err(CreateError::Repo);
        },
    };
    if missing.len() > 0 {
        proof {
            assert(missing@.contains(missing@[0]));
            assert(named(req.area_of_life_ids@, missing@[0]));
        }
        return Err(CreateError::AreasOfLifeNotFound(missing));
    }
    proof {
        assert forall|i: int| 0 <= i < ids@.len() implies areas.contents().contains_key(
            (#[trigger] ids@[i]).value,
        ) by {
            if !areas.contents().contains_key(ids@[i].value) {
                assert(ids@.contains(ids@[i]));
                assert(missing@.contains(ids@[i]));
            }
        }
    }
    let data = ThoughtData { title: req.title, area_of_life_ids: ids };
    let saved = repo.save(data);
    conclude_create(saved)
}

// ---- find by id ----
/// Why a thought was not found.
#[derive(Clone, Copy, Debug, PartialEq, Eq, Structural)]
pub enum FindByIdError {
    /// The identifier is malformed.
    Id,
    /// No thought is stored under the identifier.
    NotFound,
    /// The storage failed.
    Repo,
}

/// What looking `raw` up in `contents` gives, where the storage does not fail.
pub open spec fn find_result(contents: Map<u64, ThoughtDataView>, raw: Seq<char>) -> Result<
    ThoughtView,
    FindByIdError,
> {
    match parsed_id(raw) {
        None => Err(FindByIdError::Id),
        Some(id) => if contents.contains_key(id) {
            Ok(thought_of(id, contents[id]))
        } else {
            Err(FindByIdError::NotFound)
        },
    }
}

/// The mathematical value of what `find_by_id` returned.
pub open spec fn found_view(r: Result<Thought, FindByIdError>) -> Result<
    ThoughtView,
    FindByIdError,
> {
    match r {
        Ok(t) => Ok(t@),
        Err(e) => Err(e),
    }
}

/// Turns the repository's answer to `get` into the use case's own outcome.
pub fn conclude_find(id: ThoughtId, got: Result<ThoughtData, RepoError>) -> (r: Result<
    Thought,
    FindByIdError,
>)
    ensures
        match got {
            Ok(data) => r.is_ok() && r.unwrap()@ == thought_of(id.value, data@),
            Err(RepoError::NotFound) => r == Err::<Thought, FindByIdError>(FindByIdError::NotFound),
            Err(_) => r == Err::<Thought, FindByIdError>(FindByIdError::Repo),
        },
{
    match got {
        Ok(data) => Ok(Thought::from_parts(id, data)),
        Err(RepoError::NotFound) => Err(FindByIdError::NotFound),
        Err(_) => Err(FindByIdError::Repo),
    }
}

/// What `find_by_id` promises of its result `r`, given the repository and the text.
pub open spec fn find_post<R: Repo<ThoughtData>>(
    repo: R,
    raw: Seq<char>,
    r: Result<Thought, FindByIdError>,
) -> bool {
    &&& (match r {
        Err(FindByIdError::Repo) => parsed_id(raw).is_some() && !repo.dependable(),
        _ => found_view(r) == find_result(repo.contents(), raw),
    })
    &&& (parsed_id(raw).is_none() ==> r == Err::<Thought, FindByIdError>(FindByIdError::Id))
    &&& (r matches Ok(t) ==> t.wf())
    &&& (repo.out_of_service() && parsed_id(raw).is_some() ==> r matches Err(FindByIdError::Repo))
}

/// Finds the thought that the text `raw` identifies. A malformed identifier
/// is refused before the repository is asked.
pub fn find_by_id<R: Repo<ThoughtData>>(repo: &R, raw: &str) -> (r: Result<Thought, FindByIdError>)
    requires
        repo.wf(),
    ensures
        find_post(*repo, raw@, r),
{
    let id: ThoughtId = match ThoughtId::parse(raw) {
        Some(id) => id,
        None => {
            return Err(FindByIdError::Id);
        },
    };
    let got = repo.get(id.value);
    conclude_find(id, got)
}

// ---- read all ----
/// Why the thoughts could not be read.
#[derive(Clone, Copy, Debug, PartialEq, Eq, Structural)]
pub enum ReadAllError {
    /// The storage failed.
    Repo,
}

/// Whether `thoughts` lists exactly what `contents` holds, each thought once.
pub open spec fn lists_thoughts(thoughts: Seq<Thought>, contents: Map<u64, ThoughtDataView>) -> bool {
    &&& forall|i: int|
        0 <= i < thoughts.len() ==> contents.contains_key((#[trigger] thoughts[i]).id.value)
            && thoughts[i]@ == thought_of(thoughts[i].id.value, contents[thoughts[i].id.value])
    &&& forall|i: int, j: int|
        0 <= i < j < thoughts.len() ==> (#[trigger] thoughts[i]).id != (#[trigger] thoughts[j]).id
    &&& forall|id: u64| #[trigger]
        contents.contains_key(id) ==> exists|i: int|
            0 <= i < thoughts.len() && (#[trigger] thoughts[i]).id.value == id
}

/// Joins each stored payload with its identifier, keeping the order.
pub fn into_thoughts(items: &Vec<Stored<ThoughtData>>) -> (r: Vec<Thought>)
    ensures
        r@.len() == items@.len(),
        forall|i: int|
            0 <= i < r@.len() ==> (#[trigger] r@[i])@ == thought_of(
                items@[i].id,
                items@[i].payload@,
            ),
{
    let mut out: Vec<Thought> = Vec::new();
    let mut i: usize = 0;
    while i < items.len()
        invariant
            i <= items.len(),
            out@.len() == i,
            forall|k: int|
                0 <= k < i ==> (#[trigger] out@[k])@ == thought_of(
                    items@[k].id,
                    items@[k].payload@,
                ),
        decreases items.len() - i,
    {
        let item: &Stored<ThoughtData> = &items[i];
        out.push(Thought::from_parts(ThoughtId { value: item.id }, item.payload.duplicate()));
        i += 1;
    }
    out
}

/// What `read_all` promises of its result `r`, given the repository.
pub open spec fn read_all_post<R: Repo<ThoughtData>>(
    repo: R,
    r: Result<Vec<Thought>, ReadAllError>,
) -> bool {
    &&& (match r {
        Ok(thoughts) => {
            &&& lists_thoughts(thoughts@, repo.contents())
            &&& thoughts@.len() == repo.listing_order().len()
            &&& forall|i: int|
                0 <= i < thoughts@.len() ==> (#[trigger] thoughts@[i]).id.value
                    == repo.listing_order()[i]
        },
        Err(_) => !repo.dependable(),
    })
    &&& (repo.out_of_service() ==> r.is_err())
}

/// Reads every thought, in the repository's own order.
pub fn read_all<R: Repo<ThoughtData>>(repo: &R) -> (r: Result<Vec<Thought>, ReadAllError>)
    requires
        repo.wf(),
    ensures
        read_all_post(*repo, r),
{
    match repo.list_all() {
        Ok(items) => {
            let ghost listed = items@;
            let thoughts = into_thoughts(&items);
            proof {
                assert forall|i: int| 0 <= i < thoughts@.len() implies repo.contents().contains_key(
                    (#[trigger] thoughts@[i]).id.value,
                ) && thoughts@[i]@ == thought_of(
                    thoughts@[i].id.value,
                    repo.contents()[thoughts@[i].id.value],
                ) by {
                    assert(thoughts@[i]@.id == listed[i].id);
                }
                assert forall|i: int, j: int| 0 <= i < j < thoughts@.len() implies (
                #[trigger] thoughts@[i]).id != (#[trigger] thoughts@[j]).id by {
                    assert(thoughts@[i]@.id == listed[i].id);
                    assert(thoughts@[j]@.id == listed[j].id);
                }
                assert forall|id: u64| #[trigger] repo.contents().contains_key(id) implies exists|
                    i: int,
                |
                    0 <= i < thoughts@.len() && (#[trigger] thoughts@[i]).id.value == id by {
                    let p = choose|p: int| 0 <= p < listed.len() && (#[trigger] listed[p]).id == id;
                    assert(thoughts@[p]@.id == listed[p].id);
                }
            }
            Ok(thoughts)
        },
        Err(_) => Err(ReadAllError::Repo),
    }
}

// ---- delete ----
/// Why a thought was not deleted.
#[derive(Clone, Copy, Debug, PartialEq, Eq, Structural)]
pub enum DeleteError {
    /// The identifier is malformed.
    Id,
    /// No thought is stored under the identifier.
    NotFound,
    /// The storage failed.
    Repo,
}

/// What deleting `raw` from `contents` reports, where the storage does not fail.
pub open spec fn delete_result<V>(contents: Map<u64, V>, raw: Seq<char>) -> Result<
    (),
    DeleteError,
> {
    match parsed_id(raw) {
        None => Err(DeleteError::Id),
        Some(id) => if contents.contains_key(id) {
            Ok(())
        } else {
            Err(DeleteError::NotFound)
        },
    }
}

/// What `contents` holds after `raw` was deleted from it.
pub open spec fn after_delete<V>(contents: Map<u64, V>, raw: Seq<char>) -> Map<u64, V> {
    match parsed_id(raw) {
        None => contents,
        Some(id) => contents.remove(id),
    }
}

/// Turns the repository's answer to `delete` into the use case's own outcome.
pub fn conclude_delete(gone: Result<(), RepoError>) -> (r: Result<(), DeleteError>)
    ensures
        r == (match gone {
            Ok(_) => Ok::<(), DeleteError>(()),
            Err(RepoError::NotFound) => Err(DeleteError::NotFound),
            Err(_) => Err(DeleteError::Repo),
        }),
{
    match gone {
        Ok(_) => Ok(()),
        Err(RepoError::NotFound) => Err(DeleteError::NotFound),
        Err(_) => Err(DeleteError::Repo),
    }
}

/// What `delete` promises of its result `r` and of the repository `after` it,
/// given the repository `before` it and the text.
pub open spec fn delete_post<R: Repo<ThoughtData>>(
    before: R,
    after: R,
    raw: Seq<char>,
    r: Result<(), DeleteError>,
) -> bool {
    &&& (match r {
        Err(DeleteError::Repo) => parsed_id(raw).is_some() && !before.dependable()
            && after.contents() == before.contents(),
        _ => r == delete_result(before.contents(), raw),
    })
    &&& (r.is_ok() ==> after.contents() == after_delete(before.contents(), raw))
    &&& (r.is_err() ==> after.contents() == before.contents())
    &&& (before.out_of_service() && parsed_id(raw).is_some() ==> r matches Err(DeleteError::Repo))
}

/// Deletes the thought that the text `raw` identifies. A malformed
/// identifier is refused before the repository is asked.
pub fn delete<R: Repo<ThoughtData>>(repo: &mut R, raw: &str) -> (r: Result<(), DeleteError>)
    requires
        old(repo).wf(),
    ensures
        final(repo).wf(),
        final(repo).dependable() == old(repo).dependable(),
        final(repo).out_of_service() == old(repo).out_of_service(),
        delete_post(*old(repo), *final(repo), raw@, r),
{
    let id: u64 = match parse_id(raw) {
        Some(id) => id,
        None => {
            return Err(DeleteError::Id);
        },
    };
    let gone = repo.delete(id);
    conclude_delete(gone)
}

// ---- update ----
/// What a caller hands in to have a thought changed.
#[derive(Debug)]
pub struct UpdateRequest {
    pub id: String,
    pub title: String,
    pub area_of_life_ids: Vec<String>,
}

/// Why a thought was not changed.
#[derive(Debug)]
pub enum UpdateError {
    /// The thought's identifier is malformed.
    Id,
    /// No thought is stored under this identifier.
    NotFound(ThoughtId),
    /// An area-of-life identifier is malformed.
    AreaOfLifeId,
    /// The title breaks a rule.
    Invalidity(Invalidity),
    /// These areas of life, all of them, do not exist.
    AreasOfLifeNotFound(Vec<AreaOfLifeId>),
    /// The storage failed.
    Repo,
}

/// Whether `after` is `before` with the thought under `id` replaced by one
/// that carries `title` and the areas of life that `texts` denote.
pub open spec fn updated(
    before: Map<u64, ThoughtDataView>,
    after: Map<u64, ThoughtDataView>,
    id: u64,
    title: Seq<char>,
    texts: Seq<String>,
) -> bool {
    &&& before.contains_key(id)
    &&& after.contains_key(id)
    &&& after == before.insert(id, after[id])
    &&& after[id].title == title
    &&& denotes(texts, after[id].areas)
}

/// Turns the repository's answer to `update` into the use case's own outcome.
pub fn conclude_update(id: ThoughtId, changed: Result<(), RepoError>) -> (r: Result<
    (),
    UpdateError,
>)
    ensures
        match changed {
            Ok(_) => r.is_ok(),
            Err(RepoError::NotFound) => r matches Err(UpdateError::NotFound(which)) && which == id,
            Err(_) => r matches Err(UpdateError::Repo),
        },
{
    match changed {
        Ok(_) => Ok(()),
        Err(RepoError::NotFound) => Err(UpdateError::NotFound(id)),
        Err(_) => Err(UpdateError::Repo),
    }
}

/// What `update` promises of its result `r` and of the repository `after` it,
/// given the repository `before` it, the areas of life and the request.
pub open spec fn update_post<R: Repo<ThoughtData>, A: Repo<AreaOfLifeData>>(
    before: R,
    after: R,
    areas: A,
    raw: Seq<char>,
    title: Seq<char>,
    texts: Seq<String>,
    r: Result<(), UpdateError>,
) -> bool {
    &&& (match r {
        Ok(_) => {
            &&& parsed_id(raw) matches Some(id)
            &&& updated(
                before.contents(),
                after.contents(),
                id,
                title,
                texts,
            )
            &&& valid_title(title)
            &&& all_parse(texts)
            &&& all_resolve(after.contents()[id].areas, areas.contents())
        },
        Err(e) => {
            &&& after.contents() == before.contents()
            &&& match e {
                UpdateError::Id => parsed_id(raw).is_none(),
                UpdateError::Invalidity(rule) => title_check(title) == Err::<
                    (),
                    Invalidity,
                >(rule),
                UpdateError::AreaOfLifeId => valid_title(title) && !all_parse(
                    texts,
                ),
                UpdateError::AreasOfLifeNotFound(missing) => {
                    &&& valid_title(title)
                    &&& all_parse(texts)
                    &&& missing@.len() > 0
                    &&& all_missing(texts, areas.contents(), missing@)
                },
                UpdateError::NotFound(id) => {
                    &&& parsed_id(raw) == Some(id.value)
                    &&& valid_title(title)
                    &&& all_parse(texts)
                    &&& !before.contents().contains_key(id.value)
                },
                UpdateError::Repo => {
                    &&& valid_title(title)
                    &&& all_parse(texts)
                    &&& !areas.dependable() || !before.dependable()
                },
            }
        },
    })
    &&& (parsed_id(raw).is_none() <==> r matches Err(UpdateError::Id))
    &&& (({
        &&& parsed_id(raw) matches Some(id)
        &&& before.contents().contains_key(id)
        &&& valid_title(title)
        &&& all_parse(texts)
        &&& none_missing(texts, areas.contents())
        &&& areas.dependable()
        &&& before.dependable()
    }) ==> r.is_ok())
    &&& (({
        &&& parsed_id(raw).is_some()
        &&& valid_title(title)
        &&& all_parse(texts)
        &&& none_missing(texts, areas.contents())
        &&& areas.dependable()
        &&& before.out_of_service()
    }) ==> r matches Err(UpdateError::Repo))
}

/// Changes the title and the associations of the thought that the request
/// identifies; the identifier itself never changes.
///
/// On a failure the stored thought is left as it was. With dependable
/// repositories the outcome is decided by the request and the contents alone.
pub fn update<R: Repo<ThoughtData>, A: Repo<AreaOfLifeData>>(
    repo: &mut R,
    areas: &A,
    req: UpdateRequest,
) -> (r: Result<(), UpdateError>)
    requires
        old(repo).wf(),
        areas.wf(),
    ensures
        final(repo).wf(),
        final(repo).dependable() == old(repo).dependable(),
        final(repo).out_of_service() == old(repo).out_of_service(),
        update_post(*old(repo), *final(repo), *areas, req.id@, req.title@, req.area_of_life_ids@, r),
{
    let id: ThoughtId = match ThoughtId::parse(req.id.as_str()) {
        Some(id) => id,
        None => {
            return Err(UpdateError::Id);
        },
    };
    if let Err(rule) = validate_title(req.title.as_str()) {
        return Err(UpdateError::Invalidity(rule));
    }
    let ids: Vec<AreaOfLifeId> = match parse_area_ids(&req.area_of_life_ids) {
        Some(ids) => ids,
        None => {
            return Err(UpdateError::AreaOfLifeId);
        },
    };
    let missing: Vec<AreaOfLifeId> = match missing_areas(areas, &ids) {
        Ok(missing) => missing,
        Err(_) => {
            return Err(UpdateError::Repo);
        },
    };
    if missing.len() > 0 {
        proof {
            assert(missing@.contains(missing@[0]));
            assert(named(req.area_of_life_ids@, missing@[0]));
        }
        return Err(UpdateError::AreasOfLifeNotFound(missing));
    }
    proof {
        assert forall|i: int| 0 <= i < ids@.len() implies areas.contents().contains_key(
            (#[trigger] ids@[i]).value,
        ) by {
            if !areas.contents().contains_key(ids@[i].value) {
                assert(ids@.contains(ids@[i]));
                assert(missing@.contains(ids@[i]));
            }
        }
    }
    let data = ThoughtData { title: req.title, area_of_life_ids: ids };
    let changed = repo.update(id.value, data);
    conclude_update(id, changed)
}

} // verus!
