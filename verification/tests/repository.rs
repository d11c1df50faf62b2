use thoughts::entity::{AreaOfLifeData, ThoughtData};
use thoughts::gateway::{Repo, RepoError};
use thoughts::id::AreaOfLifeId;
use thoughts::in_memory::{InMemory, Unavailable};

fn note(title: &str) -> ThoughtData {
    ThoughtData { title: title.to_string(), area_of_life_ids: vec![] }
}

#[test]
fn first_identifier_is_one() {
    let mut db: InMemory<ThoughtData> = InMemory::new();
    assert_eq!(db.new_id(), Ok(1));
    assert_eq!(db.save(note("foo")), Ok(1));
    assert_eq!(db.new_id(), Ok(2));
    assert_eq!(db.len(), 1);
}

#[test]
fn next_identifier_follows_the_largest() {
    let mut db: InMemory<ThoughtData> = InMemory::new();
    assert_eq!(db.save(note("a")), Ok(1));
    assert_eq!(db.save(note("b")), Ok(2));
    assert_eq!(db.save(note("c")), Ok(3));
    assert_eq!(db.delete(2), Ok(()));
    assert_eq!(db.save(note("d")), Ok(4));
    assert_eq!(db.delete(4), Ok(()));
    assert_eq!(db.save(note("e")), Ok(4));
    let ids: Vec<u64> = db.list_all().unwrap().iter().map(|s| s.id).collect();
    assert_eq!(ids, vec![1, 3, 4]);
}

#[test]
fn get_returns_an_independent_copy() {
    let mut db: InMemory<ThoughtData> = InMemory::new();
    let data = ThoughtData {
        title: "foo".to_string(),
        area_of_life_ids: vec![AreaOfLifeId { value: 4 }, AreaOfLifeId { value: 2 }],
    };
    let id = db.save(data).unwrap();
    let mut got = db.get(id).unwrap();
    assert_eq!(got.title, "foo");
    assert_eq!(got.area_of_life_ids, vec![AreaOfLifeId { value: 4 }, AreaOfLifeId { value: 2 }]);
    got.title.push_str("changed");
    assert_eq!(db.get(id).unwrap().title, "foo");
}

#[test]
fn get_update_delete_of_unknown_identifier() {
    let mut db: InMemory<ThoughtData> = InMemory::new();
    db.save(note("foo")).unwrap();
    assert_eq!(db.get(2).unwrap_err(), RepoError::NotFound);
    assert_eq!(db.update(2, note("bar")), Err(RepoError::NotFound));
    assert_eq!(db.delete(2), Err(RepoError::NotFound));
    assert_eq!(db.get(1).unwrap().title, "foo");
    assert_eq!(db.len(), 1);
}

#[test]
fn update_replaces_in_place() {
    let mut db: InMemory<AreaOfLifeData> = InMemory::new();
    db.save(AreaOfLifeData { name: "Work".to_string() }).unwrap();
    db.save(AreaOfLifeData { name: "Home".to_string() }).unwrap();
    assert_eq!(db.update(1, AreaOfLifeData { name: "Job".to_string() }), Ok(()));
    let all = db.list_all().unwrap();
    assert_eq!(all.len(), 2);
    assert_eq!((all[0].id, all[0].payload.name.as_str()), (1, "Job"));
    assert_eq!((all[1].id, all[1].payload.name.as_str()), (2, "Home"));
}

#[test]
fn unavailable_store_fails_every_call() {
    let mut db = Unavailable;
    assert_eq!(Repo::<ThoughtData>::save(&mut db, note("foo")), Err(RepoError::Backend));
    assert_eq!(Repo::<ThoughtData>::get(&db, 1).unwrap_err(), RepoError::Backend);
    assert_eq!(Repo::<ThoughtData>::update(&mut db, 1, note("foo")), Err(RepoError::Backend));
    assert_eq!(Repo::<ThoughtData>::delete(&mut db, 1), Err(RepoError::Backend));
    assert_eq!(Repo::<ThoughtData>::list_all(&db).unwrap_err(), RepoError::Backend);
}

#[test]
fn default_store_is_empty() {
    let db: InMemory<ThoughtData> = InMemory::default();
    assert_eq!(db.len(), 0);
    assert!(db.list_all().unwrap().is_empty());
    assert_eq!(db.new_id(), Ok(1));
}
