//! The presenter: the one place where each verb's outcome becomes a status
//! code, a message and a structured detail.
//!
//! The policy is the same for every verb. A malformed identifier, a broken
//! rule and a reference to something that does not exist answer 400; an
//! entity that is not there answers 404; a failure of the storage or of the
//! allocator answers 500 and tells nothing.

use vstd::prelude::*;
use crate::entity;
use crate::id::AreaOfLifeId;
use crate::id::ThoughtId;
use crate::status::bad_request;
use crate::status::created;
use crate::status::not_found;
use crate::status::ok;
use crate::status::BAD_REQUEST;
use crate::status::CREATED;
use crate::status::NOT_FOUND;
use crate::status::OK;
use crate::usecase::area_of_life as area_case;
use crate::usecase::thought as thought_case;
use crate::view::area_of_life as area_view;
use crate::view::find_by_id;
use crate::view::numbers;
use crate::view::thought as thought_view;
use crate::view::title_detail;
use crate::view::title_message;
use crate::view::title_text;
use crate::view::to_numbers;
use crate::view::Failure;
use crate::view::Response;
use crate::view::TitleDetail;

verus! {

/// The message for a malformed thought identifier.
pub const THOUGHT_ID_TEXT: &'static str = "Unable to parse thought ID";

/// The message for a thought that is not there.
pub const THOUGHT_NOT_FOUND_TEXT: &'static str = "Could not find thought";

/// The message for a malformed area-of-life identifier.
pub const AREA_OF_LIFE_ID_TEXT: &'static str = "Unable to parse area of life ID";

/// The message for an area of life that is not there.
pub const AREA_OF_LIFE_NOT_FOUND_TEXT: &'static str = "Could not find area of life";

/// The message for a thought that names areas of life which do not exist.
pub const AREAS_OF_LIFE_NOT_FOUND_TEXT: &'static str = "Could not find all areas of life";

/// Whether `vm` is a success with the given status and no data.
pub open spec fn is_empty_success<D>(vm: Result<Response<()>, Failure<D>>, status: u16) -> bool {
    vm matches Ok(resp) && resp.status == status && resp.data.is_none()
}

/// Whether `vm` is a failure with the given status, message and detail.
pub open spec fn is_failure<T, D>(
    vm: Result<Response<T>, Failure<D>>,
    status: u16,
    text: Seq<char>,
    detail: D,
) -> bool {
    vm matches Err(f) && f.says(status, text) && f.details == Some(detail)
}

/// Whether `vm` is the answer to an internal failure.
pub open spec fn is_internal_failure<T, D>(vm: Result<Response<T>, Failure<D>>) -> bool {
    vm matches Err(f) && f.is_internal()
}

/// Whether `vm` is the failure that names every one of the `missing` areas
/// of life, wrapped into a detail by the verb.
pub open spec fn names_missing<T, D>(
    vm: Result<Response<T>, Failure<D>>,
    missing: Seq<AreaOfLifeId>,
    listed: spec_fn(D) -> Option<Seq<u64>>,
) -> bool {
    &&& vm matches Err(f)
    &&& f.says(BAD_REQUEST, AREAS_OF_LIFE_NOT_FOUND_TEXT@)
    &&& f.details matches Some(d)
    &&& listed(d) == Some(numbers(missing))
}

/// The identifiers that the detail of a failed creation lists, if it lists any.
pub open spec fn created_listing(d: thought_view::CreateError) -> Option<Seq<u64>> {
    match d {
        thought_view::CreateError::AreasOfLifeNotFound(v) => Some(v@),
        _ => None,
    }
}

/// The identifiers that the detail of a failed update lists, if it lists any.
pub open spec fn updated_listing(d: thought_view::UpdateError) -> Option<Seq<u64>> {
    match d {
        thought_view::UpdateError::AreasOfLifeNotFound(v) => Some(v@),
        _ => None,
    }
}

/// Whether `vm` is what the presenter answers to the outcome `res` of
/// creating a thought.
pub open spec fn shown_thought_created(
    res: Result<ThoughtId, thought_case::CreateError>,
    vm: Result<Response<u64>, Failure<thought_view::CreateError>>,
) -> bool {
    match res {
        Ok(id) => vm matches Ok(resp) && resp.status == CREATED && resp.data == Some(
            id.value,
        ),
        Err(thought_case::CreateError::AreaOfLifeId) => is_failure(
            vm,
            BAD_REQUEST,
            AREA_OF_LIFE_ID_TEXT@,
            thought_view::CreateError::AreaOfLifeId,
        ),
        Err(thought_case::CreateError::Invalidity(rule)) => is_failure(
            vm,
            BAD_REQUEST,
            title_text(rule),
            thought_view::CreateError::Title(title_detail(rule)),
        ),
        Err(thought_case::CreateError::AreasOfLifeNotFound(missing)) => names_missing(
            vm,
            missing@,
            |d: thought_view::CreateError| created_listing(d),
        ),
        Err(thought_case::CreateError::Repo) => is_internal_failure(vm),
        Err(thought_case::CreateError::NewId) => is_internal_failure(vm),
    }
}

/// Whether `vm` is what the presenter answers to the outcome `res` of
/// updating a thought.
pub open spec fn shown_thought_updated(
    res: Result<(), thought_case::UpdateError>,
    vm: Result<Response<()>, Failure<thought_view::UpdateError>>,
) -> bool {
    match res {
        Ok(_) => is_empty_success(vm, OK),
        Err(thought_case::UpdateError::Id) => is_failure(
            vm,
            BAD_REQUEST,
            THOUGHT_ID_TEXT@,
            thought_view::UpdateError::Id,
        ),
        Err(thought_case::UpdateError::NotFound(id)) => is_failure(
            vm,
            NOT_FOUND,
            THOUGHT_NOT_FOUND_TEXT@,
            thought_view::UpdateError::NotFound(id.value),
        ),
        Err(thought_case::UpdateError::AreaOfLifeId) => is_failure(
            vm,
            BAD_REQUEST,
            AREA_OF_LIFE_ID_TEXT@,
            thought_view::UpdateError::AreaOfLifeId,
        ),
        Err(thought_case::UpdateError::Invalidity(rule)) => is_failure(
            vm,
            BAD_REQUEST,
            title_text(rule),
            thought_view::UpdateError::Title(title_detail(rule)),
        ),
        Err(thought_case::UpdateError::AreasOfLifeNotFound(missing)) => names_missing(
            vm,
            missing@,
            |d: thought_view::UpdateError| updated_listing(d),
        ),
        Err(thought_case::UpdateError::Repo) => is_internal_failure(vm),
    }
}

/// Whether `vm` is what the presenter answers to the outcome `res` of
/// a search for a thought.
pub open spec fn shown_thought_found(
    res: Result<entity::Thought, thought_case::FindByIdError>,
    vm: Result<Response<thought_view::Thought>, Failure<find_by_id::Error>>,
) -> bool {
    match res {
        Ok(t) => {
            &&& vm matches Ok(resp)
            &&& resp.status == OK
            &&& resp.data matches Some(shown)
            &&& thought_view::shows(shown, t@)
        },
        Err(thought_case::FindByIdError::Id) => is_failure(
            vm,
            BAD_REQUEST,
            THOUGHT_ID_TEXT@,
            find_by_id::Error::Id,
        ),
        Err(thought_case::FindByIdError::NotFound) => is_failure(
            vm,
            NOT_FOUND,
            THOUGHT_NOT_FOUND_TEXT@,
            find_by_id::Error::NotFound,
        ),
        Err(thought_case::FindByIdError::Repo) => is_internal_failure(vm),
    }
}

/// Whether `vm` is what the presenter answers to the outcome `res` of
/// reading all thoughts.
pub open spec fn shown_thoughts_read(
    res: Result<Vec<entity::Thought>, thought_case::ReadAllError>,
    vm: Result<Response<Vec<thought_view::Thought>>, Failure<thought_view::ReadAllError>>,
) -> bool {
    match res {
        Ok(thoughts) => {
            &&& vm matches Ok(resp)
            &&& resp.status == OK
            &&& resp.data matches Some(shown)
            &&& shown@.len() == thoughts@.len()
            &&& forall|i: int|
                0 <= i < shown@.len() ==> thought_view::shows(
                    #[trigger] shown@[i],
                    thoughts@[i]@,
                )
        },
        Err(_) => is_internal_failure(vm),
    }
}

/// Whether `vm` is what the presenter answers to the outcome `res` of
/// deleting a thought.
pub open spec fn shown_thought_deleted(
    res: Result<(), thought_case::DeleteError>,
    vm: Result<Response<()>, Failure<thought_view::DeleteError>>,
) -> bool {
    match res {
        Ok(_) => is_empty_success(vm, OK),
        Err(thought_case::DeleteError::Id) => is_failure(
            vm,
            BAD_REQUEST,
            THOUGHT_ID_TEXT@,
            thought_view::DeleteError::Id,
        ),
        Err(thought_case::DeleteError::NotFound) => is_failure(
            vm,
            NOT_FOUND,
            THOUGHT_NOT_FOUND_TEXT@,
            thought_view::DeleteError::NotFound,
        ),
        Err(thought_case::DeleteError::Repo) => is_internal_failure(vm),
    }
}

/// Whether `vm` is what the presenter answers to the outcome `res` of
/// creating an area of life.
pub open spec fn shown_area_of_life_created(
    res: Result<AreaOfLifeId, area_case::CreateError>,
    vm: Result<Response<u64>, Failure<area_view::CreateError>>,
) -> bool {
    match res {
        Ok(id) => vm matches Ok(resp) && resp.status == CREATED && resp.data == Some(
            id.value,
        ),
        Err(area_case::CreateError::Invalidity(rule)) => is_failure(
            vm,
            BAD_REQUEST,
            title_text(rule),
            area_view::CreateError::Name(title_detail(rule)),
        ),
        Err(area_case::CreateError::Repo) => is_internal_failure(vm),
        Err(area_case::CreateError::NewId) => is_internal_failure(vm),
    }
}

/// Whether `vm` is what the presenter answers to the outcome `res` of
/// updating an area of life.
pub open spec fn shown_area_of_life_updated(
    res: Result<(), area_case::UpdateError>,
    vm: Result<Response<()>, Failure<area_view::UpdateError>>,
) -> bool {
    match res {
        Ok(_) => is_empty_success(vm, OK),
        Err(area_case::UpdateError::Id) => is_failure(
            vm,
            BAD_REQUEST,
            AREA_OF_LIFE_ID_TEXT@,
            area_view::UpdateError::Id,
        ),
        Err(area_case::UpdateError::NotFound(_)) => is_failure(
            vm,
            NOT_FOUND,
            AREA_OF_LIFE_NOT_FOUND_TEXT@,
            area_view::UpdateError::NotFound,
        ),
        Err(area_case::UpdateError::Invalidity(rule)) => is_failure(
            vm,
            BAD_REQUEST,
            title_text(rule),
            area_view::UpdateError::Name(title_detail(rule)),
        ),
        Err(area_case::UpdateError::Repo) => is_internal_failure(vm),
    }
}

/// Whether `vm` is what the presenter answers to the outcome `res` of
/// reading all areas of life.
pub open spec fn shown_areas_of_life_read(
    res: Result<Vec<entity::AreaOfLife>, area_case::ReadAllError>,
    vm: Result<Response<Vec<area_view::AreaOfLife>>, Failure<area_view::ReadAllError>>,
) -> bool {
    match res {
        Ok(all) => {
            &&& vm matches Ok(resp)
            &&& resp.status == OK
            &&& resp.data matches Some(shown)
            &&& shown@.len() == all@.len()
            &&& forall|i: int|
                0 <= i < shown@.len() ==> area_view::shows(#[trigger] shown@[i], all@[i]@)
        },
        Err(_) => is_internal_failure(vm),
    }
}

/// Whether `vm` is what the presenter answers to the outcome `res` of
/// deleting an area of life.
pub open spec fn shown_area_of_life_deleted(
    res: Result<(), area_case::DeleteError>,
    vm: Result<Response<()>, Failure<area_view::DeleteError>>,
) -> bool {
    match res {
        Ok(_) => is_empty_success(vm, OK),
        Err(area_case::DeleteError::Id) => is_failure(
            vm,
            BAD_REQUEST,
            AREA_OF_LIFE_ID_TEXT@,
            area_view::DeleteError::Id,
        ),
        Err(area_case::DeleteError::NotFound) => is_failure(
            vm,
            NOT_FOUND,
            AREA_OF_LIFE_NOT_FOUND_TEXT@,
            area_view::DeleteError::NotFound,
        ),
        Err(area_case::DeleteError::Repo) => is_internal_failure(vm),
    }
}

/// The presenter for the JSON API over HTTP.
#[derive(Clone, Copy, Debug)]
pub struct Presenter;

impl Default for Presenter {
    fn default() -> (r: Presenter)
        ensures
            r == Presenter,
    {
        Presenter
    }
}

impl Presenter {
    // ---- thoughts ----
    /// Presents the outcome of creating a thought: 201 with the new
    /// identifier, or the failure that the error calls for.
    pub fn present_thought_created(&self, res: Result<ThoughtId, thought_case::CreateError>) -> (vm:
        Result<Response<u64>, Failure<thought_view::CreateError>>)
        ensures
            shown_thought_created(res, vm),
    {
        match res {
            Ok(id) => Ok(Response { data: Some(id.to_u64()), status: created() }),
            Err(thought_case::CreateError::AreaOfLifeId) => Err(
                Failure::new(
                    bad_request(),
                    AREA_OF_LIFE_ID_TEXT,
                    thought_view::CreateError::AreaOfLifeId,
                ),
            ),
            Err(thought_case::CreateError::Invalidity(rule)) => Err(
                Failure::new(
                    bad_request(),
                    title_message(rule),
                    thought_view::CreateError::Title(TitleDetail::from_invalidity(rule)),
                ),
            ),
            Err(thought_case::CreateError::AreasOfLifeNotFound(missing)) => Err(
                Failure::new(
                    bad_request(),
                    AREAS_OF_LIFE_NOT_FOUND_TEXT,
                    thought_view::CreateError::AreasOfLifeNotFound(to_numbers(&missing)),
                ),
            ),
            Err(thought_case::CreateError::Repo) => Err(Failure::internal()),
            Err(thought_case::CreateError::NewId) => Err(Failure::internal()),
        }
    }

    /// Presents the outcome of updating a thought: 200 with no data, or the
    /// failure that the error calls for.
    pub fn present_thought_updated(&self, res: Result<(), thought_case::UpdateError>) -> (vm: Result<
        Response<()>,
        Failure<thought_view::UpdateError>,
    >)
        ensures
            shown_thought_updated(res, vm),
    {
        match res {
            Ok(_) => Ok(Response { data: None, status: ok() }),
            Err(thought_case::UpdateError::Id) => Err(
                Failure::new(bad_request(), THOUGHT_ID_TEXT, thought_view::UpdateError::Id),
            ),
            Err(thought_case::UpdateError::NotFound(id)) => Err(
                Failure::new(
                    not_found(),
                    THOUGHT_NOT_FOUND_TEXT,
                    thought_view::UpdateError::NotFound(id.to_u64()),
                ),
            ),
            Err(thought_case::UpdateError::AreaOfLifeId) => Err(
                Failure::new(
                    bad_request(),
                    AREA_OF_LIFE_ID_TEXT,
                    thought_view::UpdateError::AreaOfLifeId,
                ),
            ),
            Err(thought_case::UpdateError::Invalidity(rule)) => Err(
                Failure::new(
                    bad_request(),
                    title_message(rule),
                    thought_view::UpdateError::Title(TitleDetail::from_invalidity(rule)),
                ),
            ),
            Err(thought_case::UpdateError::AreasOfLifeNotFound(missing)) => Err(
                Failure::new(
                    bad_request(),
                    AREAS_OF_LIFE_NOT_FOUND_TEXT,
                    thought_view::UpdateError::AreasOfLifeNotFound(to_numbers(&missing)),
                ),
            ),
            Err(thought_case::UpdateError::Repo) => Err(Failure::internal()),
        }
    }

    /// Presents the outcome of a search for a thought: 200 with the thought
    /// in its wire shape, or the failure that the error calls for.
    pub fn present_thought_found(
        &self,
        res: Result<entity::Thought, thought_case::FindByIdError>,
    ) -> (vm: Result<Response<thought_view::Thought>, Failure<find_by_id::Error>>)
        ensures
            shown_thought_found(res, vm),
    {
        match res {
            Ok(t) => Ok(Response { data: Some(thought_view::Thought::from(t)), status: ok() }),
            Err(e) => match find_by_id::Error::try_from(e) {
                Ok(find_by_id::Error::Id) => Err(
                    Failure::new(bad_request(), THOUGHT_ID_TEXT, find_by_id::Error::Id),
                ),
                Ok(find_by_id::Error::NotFound) => Err(
                    Failure::new(not_found(), THOUGHT_NOT_FOUND_TEXT, find_by_id::Error::NotFound),
                ),
                Err(_) => Err(Failure::internal()),
            },
        }
    }

    /// Presents the outcome of reading all thoughts: 200 with each thought
    /// in its wire shape, in the same order, or the internal failure.
    pub fn present_thoughts_read(
        &self,
        res: Result<Vec<entity::Thought>, thought_case::ReadAllError>,
    ) -> (vm: Result<Response<Vec<thought_view::Thought>>, Failure<thought_view::ReadAllError>>)
        ensures
            shown_thoughts_read(res, vm),
    {
        match res {
            Ok(thoughts) => {
                let mut shown: Vec<thought_view::Thought> = Vec::new();
                let mut i: usize = 0;
                while i < thoughts.len()
                    invariant
                        i <= thoughts.len(),
                        shown@.len() == i,
                        forall|k: int|
                            0 <= k < i ==> thought_view::shows(
                                #[trigger] shown@[k],
                                thoughts@[k]@,
                            ),
                    decreases thoughts.len() - i,
                {
                    shown.push(thought_view::Thought::of(&thoughts[i]));
                    i += 1;
                }
                Ok(Response { data: Some(shown), status: ok() })
            },
            Err(_) => Err(Failure::internal()),
        }
    }

    /// Presents the outcome of deleting a thought: 200 with no data, or the
    /// failure that the error calls for.
    pub fn present_thought_deleted(&self, res: Result<(), thought_case::DeleteError>) -> (vm: Result<
        Response<()>,
        Failure<thought_view::DeleteError>,
    >)
        ensures
            shown_thought_deleted(res, vm),
    {
        match res {
            Ok(_) => Ok(Response { data: None, status: ok() }),
            Err(thought_case::DeleteError::Id) => Err(
                Failure::new(bad_request(), THOUGHT_ID_TEXT, thought_view::DeleteError::Id),
            ),
            Err(thought_case::DeleteError::NotFound) => Err(
                Failure::new(
                    not_found(),
                    THOUGHT_NOT_FOUND_TEXT,
                    thought_view::DeleteError::NotFound,
                ),
            ),
            Err(thought_case::DeleteError::Repo) => Err(Failure::internal()),
        }
    }

    // ---- areas of life ----
    /// Presents the outcome of creating an area of life: 201 with the new
    /// identifier, or the failure that the error calls for.
    pub fn present_area_of_life_created(
        &self,
        res: Result<AreaOfLifeId, area_case::CreateError>,
    ) -> (vm: Result<Response<u64>, Failure<area_view::CreateError>>)
        ensures
            shown_area_of_life_created(res, vm),
    {
        match res {
            Ok(id) => Ok(Response { data: Some(id.to_u64()), status: created() }),
            Err(area_case::CreateError::Invalidity(rule)) => Err(
                Failure::new(
                    bad_request(),
                    title_message(rule),
                    area_view::CreateError::Name(TitleDetail::from_invalidity(rule)),
                ),
            ),
            Err(area_case::CreateError::Repo) => Err(Failure::internal()),
            Err(area_case::CreateError::NewId) => Err(Failure::internal()),
        }
    }

    /// Presents the outcome of updating an area of life: 200 with no data,
    /// or the failure that the error calls for.
    pub fn present_area_of_life_updated(&self, res: Result<(), area_case::UpdateError>) -> (vm:
        Result<Response<()>, Failure<area_view::UpdateError>>)
        ensures
            shown_area_of_life_updated(res, vm),
    {
        match res {
            Ok(_) => Ok(Response { data: None, status: ok() }),
            Err(area_case::UpdateError::Id) => Err(
                Failure::new(bad_request(), AREA_OF_LIFE_ID_TEXT, area_view::UpdateError::Id),
            ),
            Err(area_case::UpdateError::NotFound(_)) => Err(
                Failure::new(
                    not_found(),
                    AREA_OF_LIFE_NOT_FOUND_TEXT,
                    area_view::UpdateError::NotFound,
                ),
            ),
            Err(area_case::UpdateError::Invalidity(rule)) => Err(
                Failure::new(
                    bad_request(),
                    title_message(rule),
                    area_view::UpdateError::Name(TitleDetail::from_invalidity(rule)),
                ),
            ),
            Err(area_case::UpdateError::Repo) => Err(Failure::internal()),
        }
    }

    /// Presents the outcome of reading all areas of life: 200 with each one
    /// in its wire shape, in the same order, or the internal failure.
    pub fn present_areas_of_life_read(
        &self,
        res: Result<Vec<entity::AreaOfLife>, area_case::ReadAllError>,
    ) -> (vm: Result<Response<Vec<area_view::AreaOfLife>>, Failure<area_view::ReadAllError>>)
        ensures
            shown_areas_of_life_read(res, vm),
    {
        match res {
            Ok(all) => {
                let mut shown: Vec<area_view::AreaOfLife> = Vec::new();
                let mut i: usize = 0;
                while i < all.len()
                    invariant
                        i <= all.len(),
                        shown@.len() == i,
                        forall|k: int|
                            0 <= k < i ==> area_view::shows(#[trigger] shown@[k], all@[k]@),
                    decreases all.len() - i,
                {
                    let a: &entity::AreaOfLife = &all[i];
                    shown.push(area_view::AreaOfLife { id: a.id.to_u64(), name: a.name.clone() });
                    i += 1;
                }
                Ok(Response { data: Some(shown), status: ok() })
            },
            Err(_) => Err(Failure::internal()),
        }
    }

    /// Presents the outcome of deleting an area of life: 200 with no data,
    /// or the failure that the error calls for.
    pub fn present_area_of_life_deleted(&self, res: Result<(), area_case::DeleteError>) -> (vm:
        Result<Response<()>, Failure<area_view::DeleteError>>)
        ensures
            shown_area_of_life_deleted(res, vm),
    {
        match res {
            Ok(_) => Ok(Response { data: None, status: ok() }),
            Err(area_case::DeleteError::Id) => Err(
                Failure::new(bad_request(), AREA_OF_LIFE_ID_TEXT, area_view::DeleteError::Id),
            ),
            Err(area_case::DeleteError::NotFound) => Err(
                Failure::new(
                    not_found(),
                    AREA_OF_LIFE_NOT_FOUND_TEXT,
                    area_view::DeleteError::NotFound,
                ),
            ),
            Err(area_case::DeleteError::Repo) => Err(Failure::internal()),
        }
    }
}

} // verus!
