use thoughts::controller;
use thoughts::entity::{AreaOfLifeData, ThoughtData};
use thoughts::in_memory::{InMemory, Unavailable};
use thoughts::presenter::Presenter;
use thoughts::usecase::thought::{create, CreateRequest};
use thoughts::view::find_by_id::Error;

fn blank_db() -> InMemory<ThoughtData> {
    InMemory::new()
}

fn add_thought_to_db(db: &mut InMemory<ThoughtData>, title: &str) {
    let areas: InMemory<AreaOfLifeData> = InMemory::new();
    let req = CreateRequest { title: title.to_string(), area_of_life_ids: vec![] };
    create(db, &areas, req).unwrap();
}

#[test]
fn read() {
    let mut db = blank_db();
    add_thought_to_db(&mut db, "foo");
    add_thought_to_db(&mut db, "bar");

    let req = "2".to_string();
    let res = controller::find_thought(&db, &Presenter::default(), &req).unwrap();

    assert_eq!(res.status, http::StatusCode::OK.as_u16());
    let thought = res.data.unwrap();
    assert_eq!(thought.title, "bar");
    assert_eq!(thought.id, 2);
}

#[test]
fn read_non_existent() {
    let db = blank_db();

    let req = "5".to_string();
    let err = controller::find_thought(&db, &Presenter::default(), &req).unwrap_err();

    assert_eq!(err.status, http::StatusCode::NOT_FOUND.as_u16());
    assert_eq!(err.msg.unwrap(), "Could not find thought");
    assert_eq!(err.details, Some(Error::NotFound));
}

#[test]
fn read_invalid_id() {
    let db = blank_db();

    let req = "invalid-id".to_string();
    let err = controller::find_thought(&db, &Presenter::default(), &req).unwrap_err();

    assert_eq!(err.status, http::StatusCode::BAD_REQUEST.as_u16());
    assert_eq!(err.msg.unwrap(), "Unable to parse thought ID");
    assert_eq!(err.details, Some(Error::Id));
}

#[test]
fn read_with_corrupt_db() {
    let db = Unavailable;

    let req = "1".to_string();
    let err = controller::find_thought(&db, &Presenter::default(), &req).unwrap_err();

    assert_eq!(err.status, http::StatusCode::INTERNAL_SERVER_ERROR.as_u16());
    assert_eq!(err.msg, None);
    assert_eq!(err.details, None);
}

#[test]
fn example_scenario() {
    let mut db = blank_db();
    let areas: InMemory<AreaOfLifeData> = InMemory::new();
    let presenter = Presenter::default();

    let first = controller::create_thought(
        &mut db,
        &areas,
        &presenter,
        CreateRequest { title: "foo".to_string(), area_of_life_ids: vec![] },
    )
    .unwrap();
    assert_eq!(first.status, 201);
    assert_eq!(first.data, Some(1));

    let second = controller::create_thought(
        &mut db,
        &areas,
        &presenter,
        CreateRequest { title: "bar".to_string(), area_of_life_ids: vec![] },
    )
    .unwrap();
    assert_eq!(second.status, http::StatusCode::CREATED.as_u16());
    assert_eq!(second.data, Some(2));

    let found = controller::find_thought(&db, &presenter, "2").unwrap();
    assert_eq!(found.status, 200);
    let thought = found.data.unwrap();
    assert_eq!(thought.id, 2);
    assert_eq!(thought.title, "bar");
    assert!(thought.area_of_life_ids.is_empty());

    let missing = controller::find_thought(&db, &presenter, "5").unwrap_err();
    assert_eq!(missing.status, 404);

    let malformed = controller::find_thought(&db, &presenter, "invalid-id").unwrap_err();
    assert_eq!(malformed.status, 400);
}

#[test]
fn controller_runs_every_verb() {
    let mut thoughts = blank_db();
    let mut areas: InMemory<AreaOfLifeData> = InMemory::new();
    let presenter = Presenter::default();

    let area = controller::create_area_of_life(&mut areas, &presenter, "Work".to_string()).unwrap();
    assert_eq!((area.status, area.data), (201, Some(1)));

    let renamed = controller::update_area_of_life(
        &mut areas,
        &presenter,
        thoughts::usecase::area_of_life::UpdateRequest { id: "1".to_string(), name: "Job".to_string() },
    )
    .unwrap();
    assert_eq!((renamed.status, renamed.data), (200, None));

    let listed = controller::read_all_areas_of_life(&areas, &presenter).unwrap();
    assert_eq!(listed.status, 200);
    let listed = listed.data.unwrap();
    assert_eq!(listed.len(), 1);
    assert_eq!((listed[0].id, listed[0].name.as_str()), (1, "Job"));

    let made = controller::create_thought(
        &mut thoughts,
        &areas,
        &presenter,
        CreateRequest { title: "call home".to_string(), area_of_life_ids: vec!["1".to_string()] },
    )
    .unwrap();
    assert_eq!(made.data, Some(1));

    let changed = controller::update_thought(
        &mut thoughts,
        &areas,
        &presenter,
        thoughts::usecase::thought::UpdateRequest {
            id: "1".to_string(),
            title: "call home today".to_string(),
            area_of_life_ids: vec![],
        },
    )
    .unwrap();
    assert_eq!((changed.status, changed.data), (200, None));

    let all = controller::read_all_thoughts(&thoughts, &presenter).unwrap();
    let all = all.data.unwrap();
    assert_eq!(all.len(), 1);
    assert_eq!(all[0].title, "call home today");
    assert!(all[0].area_of_life_ids.is_empty());

    let gone = controller::delete_thought(&mut thoughts, &presenter, "1").unwrap();
    assert_eq!((gone.status, gone.data), (200, None));
    let again = controller::delete_thought(&mut thoughts, &presenter, "1").unwrap_err();
    assert_eq!(again.status, 404);

    let gone = controller::delete_area_of_life(&mut areas, &presenter, "1").unwrap();
    assert_eq!(gone.status, 200);
    let again = controller::delete_area_of_life(&mut areas, &presenter, "x").unwrap_err();
    assert_eq!(again.status, 400);
    assert_eq!(again.msg.unwrap(), "Unable to parse area of life ID");
}
