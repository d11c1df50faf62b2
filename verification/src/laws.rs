//! What holds of the use cases taken together, stated over the same
//! functions that their contracts use. The storage is taken to be
//! dependable here: a failing storage answers every call with its failure.

use vstd::prelude::*;
use crate::entity::AreaOfLifeData;
use crate::entity::Invalidity;
use crate::entity::Thought;
use crate::entity::ThoughtData;
use crate::entity::ThoughtDataView;
use crate::entity::ThoughtView;
use crate::entity::valid_title;
use crate::gateway::Repo;
use crate::id::AreaOfLifeId;
use crate::id::decimal_value;
use crate::id::is_digit;
use crate::id::parsed_id;
use crate::id::ThoughtId;
use crate::usecase::area_of_life as area_case;
use crate::usecase::thought::after_delete;
use crate::usecase::thought::all_parse;
use crate::usecase::thought::create_post;
use crate::usecase::thought::created;
use crate::usecase::thought::CreateError;
use crate::usecase::thought::delete_post;
use crate::usecase::thought::delete_result;
use crate::usecase::thought::DeleteError;
use crate::usecase::thought::find_post;
use crate::usecase::thought::find_result;
use crate::usecase::thought::FindByIdError;
use crate::usecase::thought::lists_thoughts;
use crate::usecase::thought::named;
use crate::usecase::thought::none_missing;
use crate::usecase::thought::update_post;
use crate::usecase::thought::UpdateError;

verus! {

/// With dependable repositories and an identifier left to issue, creating
/// a thought with a valid title and no associations succeeds, and the
/// thought is then found under the returned identifier, with that title and
/// no associations.
pub proof fn law_create_then_find<R: Repo<ThoughtData>, A: Repo<AreaOfLifeData>>(
    before: R,
    after: R,
    areas: A,
    title: Seq<char>,
    r: Result<ThoughtId, CreateError>,
    raw: Seq<char>,
)
    requires
        create_post(before, after, areas, title, Seq::<String>::empty(), r),
        valid_title(title),
        before.dependable(),
        areas.dependable(),
        before.next_id().is_some(),
        r matches Ok(id) ==> parsed_id(raw) == Some(id.value),
    ensures
        r matches Ok(id) && find_result(after.contents(), raw) == Ok::<ThoughtView, FindByIdError>(
            ThoughtView { id: id.value, title: title, areas: Seq::empty() },
        ),
{
    assert(r.is_ok());
    let id = r.unwrap().value;
    let listed = after.contents()[id].areas;
    if listed.len() > 0 {
        assert(listed.contains(listed[0]));
    }
    assert(listed =~= Seq::empty());
}

/// Text that is empty, holds a character that is no decimal digit (a sign
/// among them), or denotes zero is no identifier: every verb that takes an
/// identifier answers with its malformed-identifier error, and what is
/// stored stays as it was.
pub proof fn law_malformed_identifier_is_refused(
    thoughts: Map<u64, ThoughtDataView>,
    areas: Map<u64, Seq<char>>,
    raw: Seq<char>,
    name: Seq<char>,
)
    requires
        raw.len() == 0 || (exists|i: int| 0 <= i < raw.len() && !is_digit(raw[i]))
            || decimal_value(raw) == 0,
    ensures
        parsed_id(raw).is_none(),
        find_result(thoughts, raw) == Err::<ThoughtView, FindByIdError>(
            FindByIdError::Id,
        ),
        delete_result(thoughts, raw) == Err::<(), DeleteError>(DeleteError::Id),
        after_delete(thoughts, raw) == thoughts,
        area_case::delete_result(areas, raw) == Err::<(), area_case::DeleteError>(
            area_case::DeleteError::Id,
        ),
        area_case::update_result(areas, raw, name) == Err::<(), area_case::UpdateError>(
            area_case::UpdateError::Id,
        ),
{
}

/// Under an identifier that the store does not hold, finding and deleting
/// a thought answer not-found, and so do deleting and renaming an area of
/// life.
pub proof fn law_unknown_identifier_is_not_found(
    thoughts: Map<u64, ThoughtDataView>,
    areas: Map<u64, Seq<char>>,
    raw: Seq<char>,
    name: Seq<char>,
)
    requires
        parsed_id(raw).is_some(),
        !thoughts.contains_key(parsed_id(raw).unwrap()),
        !areas.contains_key(parsed_id(raw).unwrap()),
        crate::entity::valid_title(name),
    ensures
        find_result(thoughts, raw) == Err::<ThoughtView, FindByIdError>(
            FindByIdError::NotFound,
        ),
        delete_result(thoughts, raw) == Err::<(), DeleteError>(DeleteError::NotFound),
        area_case::delete_result(areas, raw) == Err::<(), area_case::DeleteError>(
            area_case::DeleteError::NotFound,
        ),
        area_case::update_result(areas, raw, name) matches Err(area_case::UpdateError::NotFound(_)),
{
}

/// Two creations, one after the other on the same store, issue two distinct
/// identifiers, and the second leaves the thought of the first as it was.
pub proof fn law_creations_do_not_collide(
    start: Map<u64, ThoughtDataView>,
    middle: Map<u64, ThoughtDataView>,
    end: Map<u64, ThoughtDataView>,
    first: u64,
    second: u64,
    first_title: Seq<char>,
    second_title: Seq<char>,
    first_texts: Seq<String>,
    second_texts: Seq<String>,
)
    requires
        created(start, middle, first, first_title, first_texts),
        created(middle, end, second, second_title, second_texts),
    ensures
        first != second,
        end.contains_key(first),
        end.contains_key(second),
        end[first] == middle[first],
        end[first].title == first_title,
        end[second].title == second_title,
{
}

/// Once a thought is deleted it is found no more, and no listing of what
/// is left includes it.
pub proof fn law_deleted_is_gone(
    before: Map<u64, ThoughtDataView>,
    raw: Seq<char>,
    listing: Seq<Thought>,
)
    requires
        delete_result(before, raw).is_ok(),
        lists_thoughts(listing, after_delete(before, raw)),
    ensures
        find_result(after_delete(before, raw), raw) == Err::<
            ThoughtView,
            FindByIdError,
        >(FindByIdError::NotFound),
        forall|i: int|
            0 <= i < listing.len() ==> Some((#[trigger] listing[i]).id.value) != parsed_id(raw),
{
}

/// An update with an empty title, under a well-formed identifier, answers
/// with the broken rule and leaves what is stored as it was.
pub proof fn law_empty_title_changes_nothing<R: Repo<ThoughtData>, A: Repo<AreaOfLifeData>>(
    before: R,
    after: R,
    areas: A,
    raw: Seq<char>,
    texts: Seq<String>,
    r: Result<(), UpdateError>,
)
    requires
        update_post(before, after, areas, raw, Seq::<char>::empty(), texts, r),
        parsed_id(raw).is_some(),
    ensures
        r matches Err(UpdateError::Invalidity(Invalidity::Empty)),
        after.contents() == before.contents(),
{
}

/// An update under a well-formed identifier that the store does not hold
/// changes nothing, and with dependable repositories and a request that is
/// otherwise in order it answers not-found with that identifier.
pub proof fn law_update_of_unknown_is_not_found<R: Repo<ThoughtData>, A: Repo<AreaOfLifeData>>(
    before: R,
    after: R,
    areas: A,
    raw: Seq<char>,
    title: Seq<char>,
    texts: Seq<String>,
    r: Result<(), UpdateError>,
)
    requires
        update_post(before, after, areas, raw, title, texts, r),
        parsed_id(raw).is_some(),
        !before.contents().contains_key(parsed_id(raw).unwrap()),
        before.dependable(),
        areas.dependable(),
        valid_title(title),
        all_parse(texts),
        none_missing(texts, areas.contents()),
    ensures
        r matches Err(UpdateError::NotFound(id)) && Some(id.value) == parsed_id(raw),
        after.contents() == before.contents(),
{
    if let Err(UpdateError::AreasOfLifeNotFound(missing)) = r {
        assert(missing@.contains(missing@[0]));
    }
}

/// Where a creation names areas of life that do not exist, the error lists
/// every one of them: none that is named and missing is left out.
pub proof fn law_every_missing_area_is_reported<R: Repo<ThoughtData>, A: Repo<AreaOfLifeData>>(
    before: R,
    after: R,
    areas: A,
    title: Seq<char>,
    texts: Seq<String>,
    r: Result<ThoughtId, CreateError>,
    a: AreaOfLifeId,
)
    requires
        create_post(before, after, areas, title, texts, r),
        r matches Err(CreateError::AreasOfLifeNotFound(_)),
        named(texts, a),
        !areas.contents().contains_key(a.value),
    ensures
        r matches Err(CreateError::AreasOfLifeNotFound(missing)) && missing@.contains(a),
{
}

/// A malformed identifier is refused whatever state the storage is in, out
/// of service included: the answer does not depend on the repository, and
/// what is stored stays as it was.
pub proof fn law_malformed_identifier_never_reaches_storage<
    R: Repo<ThoughtData>,
    A: Repo<AreaOfLifeData>,
>(
    before: R,
    after: R,
    areas_before: A,
    areas_after: A,
    raw: Seq<char>,
    title: Seq<char>,
    texts: Seq<String>,
    found: Result<Thought, FindByIdError>,
    deleted: Result<(), DeleteError>,
    updated: Result<(), UpdateError>,
    area_deleted: Result<(), area_case::DeleteError>,
    area_updated: Result<(), area_case::UpdateError>,
)
    requires
        parsed_id(raw).is_none(),
        find_post(before, raw, found),
        delete_post(before, after, raw, deleted),
        update_post(before, after, areas_before, raw, title, texts, updated),
        area_case::delete_post(areas_before, areas_after, raw, area_deleted),
        area_case::update_post(areas_before, areas_after, raw, title, area_updated),
    ensures
        found matches Err(FindByIdError::Id),
        deleted matches Err(DeleteError::Id),
        updated matches Err(UpdateError::Id),
        area_deleted matches Err(area_case::DeleteError::Id),
        area_updated matches Err(area_case::UpdateError::Id),
        after.contents() == before.contents(),
        areas_after.contents() == areas_before.contents(),
{
}

} // verus!
