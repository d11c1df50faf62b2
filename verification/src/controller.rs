//! The controller: one entry point per verb and entity kind. Each hands the
//! raw input to its use case and the outcome to the presenter; it judges
//! nothing itself.

use vstd::prelude::*;
use crate::entity::AreaOfLife;
use crate::entity::AreaOfLifeData;
use crate::entity::Thought;
use crate::entity::ThoughtData;
use crate::gateway::Repo;
use crate::id::AreaOfLifeId;
use crate::id::ThoughtId;
use crate::presenter::shown_area_of_life_created;
use crate::presenter::shown_area_of_life_deleted;
use crate::presenter::shown_area_of_life_updated;
use crate::presenter::shown_areas_of_life_read;
use crate::presenter::shown_thought_created;
use crate::presenter::shown_thought_deleted;
use crate::presenter::shown_thought_found;
use crate::presenter::shown_thought_updated;
use crate::presenter::shown_thoughts_read;
use crate::presenter::Presenter;
use crate::usecase::area_of_life as area_case;
use crate::usecase::thought as thought_case;
use crate::view::area_of_life as area_view;
use crate::view::find_by_id;
use crate::view::thought as thought_view;
use crate::view::Failure;
use crate::view::Response;

verus! {

/// Creates a thought and presents the outcome.
pub fn create_thought<R: Repo<ThoughtData>, A: Repo<AreaOfLifeData>>(
    repo: &mut R,
    areas: &A,
    presenter: &Presenter,
    req: thought_case::CreateRequest,
) -> (vm: Result<Response<u64>, Failure<thought_view::CreateError>>)
    requires
        old(repo).wf(),
        areas.wf(),
    ensures
        final(repo).wf(),
        final(repo).dependable() == old(repo).dependable(),
        final(repo).out_of_service() == old(repo).out_of_service(),
        exists|res: Result<ThoughtId, thought_case::CreateError>|
            #![trigger shown_thought_created(res, vm)]
            thought_case::create_post(
                *old(repo),
                *final(repo),
                *areas,
                req.title@,
                req.area_of_life_ids@,
                res,
            ) && shown_thought_created(res, vm),
{
    let res = thought_case::create(repo, areas, req);
    let ghost kept = res;
    let vm = presenter.present_thought_created(res);
    assert(shown_thought_created(kept, vm));
    vm
}

/// Updates a thought and presents the outcome.
pub fn update_thought<R: Repo<ThoughtData>, A: Repo<AreaOfLifeData>>(
    repo: &mut R,
    areas: &A,
    presenter: &Presenter,
    req: thought_case::UpdateRequest,
) -> (vm: Result<Response<()>, Failure<thought_view::UpdateError>>)
    requires
        old(repo).wf(),
        areas.wf(),
    ensures
        final(repo).wf(),
        final(repo).dependable() == old(repo).dependable(),
        final(repo).out_of_service() == old(repo).out_of_service(),
        exists|res: Result<(), thought_case::UpdateError>|
            #![trigger shown_thought_updated(res, vm)]
            thought_case::update_post(
                *old(repo),
                *final(repo),
                *areas,
                req.id@,
                req.title@,
                req.area_of_life_ids@,
                res,
            ) && shown_thought_updated(res, vm),
{
    let res = thought_case::update(repo, areas, req);
    let ghost kept = res;
    let vm = presenter.present_thought_updated(res);
    assert(shown_thought_updated(kept, vm));
    vm
}

/// Finds a thought and presents the outcome.
pub fn find_thought<R: Repo<ThoughtData>>(repo: &R, presenter: &Presenter, raw: &str) -> (vm:
    Result<Response<thought_view::Thought>, Failure<find_by_id::Error>>)
    requires
        repo.wf(),
    ensures
        exists|res: Result<Thought, thought_case::FindByIdError>|
            #![trigger shown_thought_found(res, vm)]
            thought_case::find_post(*repo, raw@, res) && shown_thought_found(res, vm),
{
    let res = thought_case::find_by_id(repo, raw);
    let ghost kept = res;
    let vm = presenter.present_thought_found(res);
    assert(shown_thought_found(kept, vm));
    vm
}

/// Reads all thoughts and presents the outcome.
pub fn read_all_thoughts<R: Repo<ThoughtData>>(repo: &R, presenter: &Presenter) -> (vm: Result<
    Response<Vec<thought_view::Thought>>,
    Failure<thought_view::ReadAllError>,
>)
    requires
        repo.wf(),
    ensures
        exists|res: Result<Vec<Thought>, thought_case::ReadAllError>|
            #![trigger shown_thoughts_read(res, vm)]
            thought_case::read_all_post(*repo, res) && shown_thoughts_read(res, vm),
{
    let res = thought_case::read_all(repo);
    let ghost kept = res;
    let vm = presenter.present_thoughts_read(res);
    assert(shown_thoughts_read(kept, vm));
    vm
}

/// Deletes a thought and presents the outcome.
pub fn delete_thought<R: Repo<ThoughtData>>(repo: &mut R, presenter: &Presenter, raw: &str) -> (vm:
    Result<Response<()>, Failure<thought_view::DeleteError>>)
    requires
        old(repo).wf(),
    ensures
        final(repo).wf(),
        final(repo).dependable() == old(repo).dependable(),
        final(repo).out_of_service() == old(repo).out_of_service(),
        exists|res: Result<(), thought_case::DeleteError>|
            #![trigger shown_thought_deleted(res, vm)]
            thought_case::delete_post(*old(repo), *final(repo), raw@, res)
                && shown_thought_deleted(res, vm),
{
    let res = thought_case::delete(repo, raw);
    let vm = presenter.present_thought_deleted(res);
    assert(shown_thought_deleted(res, vm));
    vm
}

/// Creates an area of life and presents the outcome.
pub fn create_area_of_life<R: Repo<AreaOfLifeData>>(
    repo: &mut R,
    presenter: &Presenter,
    name: String,
) -> (vm: Result<Response<u64>, Failure<area_view::CreateError>>)
    requires
        old(repo).wf(),
    ensures
        final(repo).wf(),
        final(repo).dependable() == old(repo).dependable(),
        final(repo).out_of_service() == old(repo).out_of_service(),
        exists|res: Result<AreaOfLifeId, area_case::CreateError>|
            #![trigger shown_area_of_life_created(res, vm)]
            area_case::create_post(*old(repo), *final(repo), name@, res)
                && shown_area_of_life_created(res, vm),
{
    let res = area_case::create(repo, name);
    let vm = presenter.present_area_of_life_created(res);
    assert(shown_area_of_life_created(res, vm));
    vm
}

/// Updates an area of life and presents the outcome.
pub fn update_area_of_life<R: Repo<AreaOfLifeData>>(
    repo: &mut R,
    presenter: &Presenter,
    req: area_case::UpdateRequest,
) -> (vm: Result<Response<()>, Failure<area_view::UpdateError>>)
    requires
        old(repo).wf(),
    ensures
        final(repo).wf(),
        final(repo).dependable() == old(repo).dependable(),
        final(repo).out_of_service() == old(repo).out_of_service(),
        exists|res: Result<(), area_case::UpdateError>|
            #![trigger shown_area_of_life_updated(res, vm)]
            area_case::update_post(*old(repo), *final(repo), req.id@, req.name@, res)
                && shown_area_of_life_updated(res, vm),
{
    let res = area_case::update(repo, req);
    let vm = presenter.present_area_of_life_updated(res);
    assert(shown_area_of_life_updated(res, vm));
    vm
}

/// Reads all areas of life and presents the outcome.
pub fn read_all_areas_of_life<R: Repo<AreaOfLifeData>>(repo: &R, presenter: &Presenter) -> (vm:
    Result<Response<Vec<area_view::AreaOfLife>>, Failure<area_view::ReadAllError>>)
    requires
        repo.wf(),
    ensures
        exists|res: Result<Vec<AreaOfLife>, area_case::ReadAllError>|
            #![trigger shown_areas_of_life_read(res, vm)]
            area_case::read_all_post(*repo, res) && shown_areas_of_life_read(res, vm),
{
    let res = area_case::read_all(repo);
    let ghost kept = res;
    let vm = presenter.present_areas_of_life_read(res);
    assert(shown_areas_of_life_read(kept, vm));
    vm
}

/// Deletes an area of life and presents the outcome.
pub fn delete_area_of_life<R: Repo<AreaOfLifeData>>(
    repo: &mut R,
    presenter: &Presenter,
    raw: &str,
) -> (vm: Result<Response<()>, Failure<area_view::DeleteError>>)
    requires
        old(repo).wf(),
    ensures
        final(repo).wf(),
        final(repo).dependable() == old(repo).dependable(),
        final(repo).out_of_service() == old(repo).out_of_service(),
        exists|res: Result<(), area_case::DeleteError>|
            #![trigger shown_area_of_life_deleted(res, vm)]
            area_case::delete_post(*old(repo), *final(repo), raw@, res)
                && shown_area_of_life_deleted(res, vm),
{
    let res = area_case::delete(repo, raw);
    let vm = presenter.present_area_of_life_deleted(res);
    assert(shown_area_of_life_deleted(res, vm));
    vm
}

} // verus!
