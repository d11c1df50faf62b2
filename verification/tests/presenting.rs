use thoughts::entity::{AreaOfLife, Invalidity, Thought};
use thoughts::id::{AreaOfLifeId, ThoughtId};
use thoughts::presenter::Presenter;
use thoughts::usecase::area_of_life as area_case;
use thoughts::usecase::thought as thought_case;
use thoughts::view::area_of_life as area_view;
use thoughts::view::find_by_id::Error;
use thoughts::view::thought as thought_view;
use thoughts::view::{to_numbers, Failure, TitleDetail};

fn sample_thought(id: u64, title: &str, areas: &[u64]) -> Thought {
    Thought {
        id: ThoughtId { value: id },
        title: title.to_string(),
        area_of_life_ids: areas.iter().map(|a| AreaOfLifeId { value: *a }).collect(),
    }
}

#[test]
fn status_numbers_are_those_of_http() {
    assert_eq!(thoughts::status::OK, http::StatusCode::OK.as_u16());
    assert_eq!(thoughts::status::CREATED, http::StatusCode::CREATED.as_u16());
    assert_eq!(thoughts::status::BAD_REQUEST, http::StatusCode::BAD_REQUEST.as_u16());
    assert_eq!(thoughts::status::NOT_FOUND, http::StatusCode::NOT_FOUND.as_u16());
    assert_eq!(
        thoughts::status::INTERNAL_SERVER_ERROR,
        http::StatusCode::INTERNAL_SERVER_ERROR.as_u16()
    );
}

#[test]
fn internal_failure_tells_nothing() {
    let f: Failure<Error> = Failure::internal();
    assert_eq!(f.status, 500);
    assert_eq!(f.msg, None);
    assert_eq!(f.details, None);
}

#[test]
fn thought_created() {
    let p = Presenter::default();
    let ok = p.present_thought_created(Ok(ThoughtId { value: 7 })).unwrap();
    assert_eq!((ok.status, ok.data), (201, Some(7)));

    let e = p.present_thought_created(Err(thought_case::CreateError::AreaOfLifeId)).unwrap_err();
    assert_eq!(e.status, 400);
    assert_eq!(e.msg.as_deref(), Some("Unable to parse area of life ID"));
    assert!(matches!(e.details, Some(thought_view::CreateError::AreaOfLifeId)));

    let e = p
        .present_thought_created(Err(thought_case::CreateError::Invalidity(Invalidity::Empty)))
        .unwrap_err();
    assert_eq!(e.status, 400);
    assert_eq!(e.msg.as_deref(), Some("The title must not be empty"));
    assert!(matches!(e.details, Some(thought_view::CreateError::Title(TitleDetail::Empty))));

    let rule = Invalidity::TooLong { max: 80, actual: 93 };
    let e = p.present_thought_created(Err(thought_case::CreateError::Invalidity(rule))).unwrap_err();
    assert_eq!(e.status, 400);
    assert_eq!(e.msg.as_deref(), Some("The title is too long"));
    assert!(matches!(
        e.details,
        Some(thought_view::CreateError::Title(TitleDetail::TooLong { max: 80, actual: 93 }))
    ));

    let missing = vec![AreaOfLifeId { value: 4 }, AreaOfLifeId { value: 9 }];
    let e = p
        .present_thought_created(Err(thought_case::CreateError::AreasOfLifeNotFound(missing)))
        .unwrap_err();
    assert_eq!(e.status, 400);
    assert_eq!(e.msg.as_deref(), Some("Could not find all areas of life"));
    match e.details {
        Some(thought_view::CreateError::AreasOfLifeNotFound(ids)) => assert_eq!(ids, vec![4, 9]),
        other => panic!("unexpected detail: {:?}", other),
    }

    for err in [thought_case::CreateError::Repo, thought_case::CreateError::NewId] {
        let e = p.present_thought_created(Err(err)).unwrap_err();
        assert_eq!(e.status, 500);
        assert!(e.msg.is_none());
        assert!(e.details.is_none());
    }
}

#[test]
fn thought_updated() {
    let p = Presenter::default();
    let ok = p.present_thought_updated(Ok(())).unwrap();
    assert_eq!((ok.status, ok.data), (200, None));

    let e = p.present_thought_updated(Err(thought_case::UpdateError::Id)).unwrap_err();
    assert_eq!((e.status, e.msg.as_deref()), (400, Some("Unable to parse thought ID")));
    assert!(matches!(e.details, Some(thought_view::UpdateError::Id)));

    let e = p
        .present_thought_updated(Err(thought_case::UpdateError::NotFound(ThoughtId { value: 12 })))
        .unwrap_err();
    assert_eq!((e.status, e.msg.as_deref()), (404, Some("Could not find thought")));
    assert!(matches!(e.details, Some(thought_view::UpdateError::NotFound(12))));

    let e = p.present_thought_updated(Err(thought_case::UpdateError::AreaOfLifeId)).unwrap_err();
    assert_eq!((e.status, e.msg.as_deref()), (400, Some("Unable to parse area of life ID")));
    assert!(matches!(e.details, Some(thought_view::UpdateError::AreaOfLifeId)));

    let e = p
        .present_thought_updated(Err(thought_case::UpdateError::Invalidity(Invalidity::Empty)))
        .unwrap_err();
    assert_eq!((e.status, e.msg.as_deref()), (400, Some("The title must not be empty")));
    assert!(matches!(e.details, Some(thought_view::UpdateError::Title(TitleDetail::Empty))));

    let missing = vec![AreaOfLifeId { value: 2 }];
    let e = p
        .present_thought_updated(Err(thought_case::UpdateError::AreasOfLifeNotFound(missing)))
        .unwrap_err();
    assert_eq!(e.status, 400);
    match e.details {
        Some(thought_view::UpdateError::AreasOfLifeNotFound(ids)) => assert_eq!(ids, vec![2]),
        other => panic!("unexpected detail: {:?}", other),
    }

    let e = p.present_thought_updated(Err(thought_case::UpdateError::Repo)).unwrap_err();
    assert_eq!((e.status, e.msg, e.details.is_none()), (500, None, true));
}

#[test]
fn thought_found() {
    let p = Presenter::default();
    let ok = p.present_thought_found(Ok(sample_thought(3, "bar", &[5, 1]))).unwrap();
    assert_eq!(ok.status, 200);
    let shown = ok.data.unwrap();
    assert_eq!((shown.id, shown.title.as_str()), (3, "bar"));
    assert_eq!(shown.area_of_life_ids, vec![5, 1]);

    let e = p.present_thought_found(Err(thought_case::FindByIdError::Id)).unwrap_err();
    assert_eq!((e.status, e.msg.as_deref(), e.details), (400, Some("Unable to parse thought ID"), Some(Error::Id)));
    let e = p.present_thought_found(Err(thought_case::FindByIdError::NotFound)).unwrap_err();
    assert_eq!((e.status, e.msg.as_deref(), e.details), (404, Some("Could not find thought"), Some(Error::NotFound)));
    let e = p.present_thought_found(Err(thought_case::FindByIdError::Repo)).unwrap_err();
    assert_eq!((e.status, e.msg.as_deref(), e.details), (500, None, None));
}

#[test]
fn find_error_detail() {
    assert_eq!(Error::try_from(thought_case::FindByIdError::Id), Ok(Error::Id));
    assert_eq!(Error::try_from(thought_case::FindByIdError::NotFound), Ok(Error::NotFound));
    assert_eq!(Error::try_from(thought_case::FindByIdError::Repo), Err(()));
}

#[test]
fn thoughts_read_keep_their_order() {
    let p = Presenter::default();
    let all = vec![sample_thought(1, "a", &[]), sample_thought(4, "b", &[2]), sample_thought(9, "c", &[])];
    let ok = p.present_thoughts_read(Ok(all)).unwrap();
    assert_eq!(ok.status, 200);
    let shown: Vec<(u64, String, Vec<u64>)> =
        ok.data.unwrap().into_iter().map(|t| (t.id, t.title, t.area_of_life_ids)).collect();
    assert_eq!(
        shown,
        vec![
            (1, "a".to_string(), vec![]),
            (4, "b".to_string(), vec![2]),
            (9, "c".to_string(), vec![])
        ]
    );
    let e = p.present_thoughts_read(Err(thought_case::ReadAllError::Repo)).unwrap_err();
    assert_eq!((e.status, e.msg, e.details), (500, None, None));
}

#[test]
fn thought_deleted() {
    let p = Presenter::default();
    let ok = p.present_thought_deleted(Ok(())).unwrap();
    assert_eq!((ok.status, ok.data), (200, None));
    let e = p.present_thought_deleted(Err(thought_case::DeleteError::Id)).unwrap_err();
    assert_eq!((e.status, e.details), (400, Some(thought_view::DeleteError::Id)));
    let e = p.present_thought_deleted(Err(thought_case::DeleteError::NotFound)).unwrap_err();
    assert_eq!((e.status, e.details), (404, Some(thought_view::DeleteError::NotFound)));
    assert_eq!(e.msg.as_deref(), Some("Could not find thought"));
    let e = p.present_thought_deleted(Err(thought_case::DeleteError::Repo)).unwrap_err();
    assert_eq!((e.status, e.msg, e.details), (500, None, None));
}

#[test]
fn areas_of_life_presented() {
    let p = Presenter::default();
    let ok = p.present_area_of_life_created(Ok(AreaOfLifeId { value: 2 })).unwrap();
    assert_eq!((ok.status, ok.data), (201, Some(2)));
    let e = p
        .present_area_of_life_created(Err(area_case::CreateError::Invalidity(Invalidity::Empty)))
        .unwrap_err();
    assert_eq!((e.status, e.details), (400, Some(area_view::CreateError::Name(TitleDetail::Empty))));
    for err in [area_case::CreateError::Repo, area_case::CreateError::NewId] {
        let e = p.present_area_of_life_created(Err(err)).unwrap_err();
        assert_eq!((e.status, e.msg, e.details), (500, None, None));
    }

    let ok = p.present_area_of_life_updated(Ok(())).unwrap();
    assert_eq!((ok.status, ok.data), (200, None));
    let e = p.present_area_of_life_updated(Err(area_case::UpdateError::Id)).unwrap_err();
    assert_eq!((e.status, e.details), (400, Some(area_view::UpdateError::Id)));
    let e = p
        .present_area_of_life_updated(Err(area_case::UpdateError::NotFound(AreaOfLifeId { value: 1 })))
        .unwrap_err();
    assert_eq!((e.status, e.details), (404, Some(area_view::UpdateError::NotFound)));
    assert_eq!(e.msg.as_deref(), Some("Could not find area of life"));
    let rule = Invalidity::TooLong { max: 80, actual: 81 };
    let e = p.present_area_of_life_updated(Err(area_case::UpdateError::Invalidity(rule))).unwrap_err();
    assert_eq!(
        (e.status, e.details),
        (400, Some(area_view::UpdateError::Name(TitleDetail::TooLong { max: 80, actual: 81 })))
    );
    let e = p.present_area_of_life_updated(Err(area_case::UpdateError::Repo)).unwrap_err();
    assert_eq!((e.status, e.msg, e.details), (500, None, None));

    let all = vec![
        AreaOfLife { id: AreaOfLifeId { value: 1 }, name: "Work".to_string() },
        AreaOfLife { id: AreaOfLifeId { value: 2 }, name: "Home".to_string() },
    ];
    let ok = p.present_areas_of_life_read(Ok(all)).unwrap();
    let shown: Vec<(u64, String)> = ok.data.unwrap().into_iter().map(|a| (a.id, a.name)).collect();
    assert_eq!(shown, vec![(1, "Work".to_string()), (2, "Home".to_string())]);
    let e = p.present_areas_of_life_read(Err(area_case::ReadAllError::Repo)).unwrap_err();
    assert_eq!((e.status, e.msg, e.details), (500, None, None));

    let ok = p.present_area_of_life_deleted(Ok(())).unwrap();
    assert_eq!((ok.status, ok.data), (200, None));
    let e = p.present_area_of_life_deleted(Err(area_case::DeleteError::Id)).unwrap_err();
    assert_eq!((e.status, e.details), (400, Some(area_view::DeleteError::Id)));
    let e = p.present_area_of_life_deleted(Err(area_case::DeleteError::NotFound)).unwrap_err();
    assert_eq!((e.status, e.details), (404, Some(area_view::DeleteError::NotFound)));
    let e = p.present_area_of_life_deleted(Err(area_case::DeleteError::Repo)).unwrap_err();
    assert_eq!((e.status, e.msg, e.details), (500, None, None));
}

#[test]
fn wire_shapes() {
    let shown = thought_view::Thought::from(sample_thought(6, "t", &[3, 2]));
    assert_eq!((shown.id, shown.title.as_str()), (6, "t"));
    assert_eq!(shown.area_of_life_ids, vec![3, 2]);
    let area = area_view::AreaOfLife::from(AreaOfLife {
        id: AreaOfLifeId { value: 4 },
        name: "Health".to_string(),
    });
    assert_eq!((area.id, area.name.as_str()), (4, "Health"));
    assert_eq!(to_numbers(&vec![AreaOfLifeId { value: 8 }, AreaOfLifeId { value: 1 }]), vec![8, 1]);
    assert_eq!(TitleDetail::from_invalidity(Invalidity::Empty), TitleDetail::Empty);
}

#[test]
fn wire_shape_of_a_borrowed_thought() {
    let t = sample_thought(2, "kept", &[7]);
    let shown = thought_view::Thought::of(&t);
    assert_eq!((shown.id, shown.title.as_str()), (2, "kept"));
    assert_eq!(shown.area_of_life_ids, vec![7]);
    assert_eq!(t.title, "kept");
}
