use tasklist::store::{InvalidIndex, TaskStore};

fn store_of(titles: &[&str]) -> TaskStore {
    let mut store = TaskStore::new();
    for title in titles {
        store.add(String::from(*title), format!("about {}", title));
    }
    store
}

fn titles_of(store: &TaskStore) -> Vec<String> {
    store.list().iter().map(|entry| String::from(entry.1.title())).collect()
}

#[test]
fn new_store_is_empty() {
    let store = TaskStore::new();
    assert!(store.is_empty());
    assert_eq!(store.len(), 0);
    assert!(store.list().is_empty());
    assert!(store.get(0).is_none());
}

#[test]
fn add_grows_the_store_by_one() {
    let mut store = store_of(&["a", "b"]);
    let before = store.len();
    let position = store.add(String::from("c"), String::from("third"));
    assert_eq!(position, 2);
    assert_eq!(store.len(), before + 1);
    assert!(!store.is_empty());
    let task = store.get(2).unwrap();
    assert_eq!(task.title(), "c");
    assert_eq!(task.description(), "third");
    assert!(!task.is_done());
    assert_eq!(titles_of(&store), vec!["a", "b", "c"]);
}

#[test]
fn add_accepts_empty_text_and_duplicates() {
    let mut store = TaskStore::new();
    assert_eq!(store.add(String::new(), String::new()), 0);
    assert_eq!(store.add(String::new(), String::new()), 1);
    assert_eq!(store.len(), 2);
    assert_eq!(store.get(1).unwrap().title(), "");
}

#[test]
fn add_then_delete_keeps_the_later_task() {
    let mut store = TaskStore::new();
    assert_eq!(store.add(String::from("A"), String::from("d1")), 0);
    assert_eq!(store.add(String::from("B"), String::from("d2")), 1);
    assert_eq!(store.delete(0), Ok(()));
    let entries = store.list();
    assert_eq!(entries.len(), 1);
    assert_eq!(entries[0].0, 0);
    assert_eq!(entries[0].1.title(), "B");
    assert_eq!(entries[0].1.description(), "d2");
}

#[test]
fn delete_shifts_the_tasks_behind() {
    let mut store = store_of(&["a", "b", "c", "d"]);
    assert_eq!(store.delete(1), Ok(()));
    assert_eq!(store.len(), 3);
    assert_eq!(titles_of(&store), vec!["a", "c", "d"]);
    assert_eq!(store.delete(2), Ok(()));
    assert_eq!(titles_of(&store), vec!["a", "c"]);
}

#[test]
fn delete_out_of_range_changes_nothing() {
    let mut store = store_of(&["a", "b"]);
    assert_eq!(store.delete(2), Err(InvalidIndex));
    assert_eq!(store.delete(usize::MAX), Err(InvalidIndex));
    assert_eq!(titles_of(&store), vec!["a", "b"]);
}

#[test]
fn delete_from_empty_store_fails() {
    let mut store = TaskStore::new();
    assert_eq!(store.delete(0), Err(InvalidIndex));
    assert!(store.is_empty());
}

#[test]
fn set_done_changes_one_flag() {
    let mut store = store_of(&["a", "b", "c"]);
    assert_eq!(store.set_done(1, true), Ok(()));
    assert!(!store.get(0).unwrap().is_done());
    assert!(store.get(1).unwrap().is_done());
    assert!(!store.get(2).unwrap().is_done());
    assert_eq!(titles_of(&store), vec!["a", "b", "c"]);
    assert_eq!(store.get(1).unwrap().description(), "about b");
}

#[test]
fn check_then_uncheck_restores_the_flag() {
    let mut store = store_of(&["a", "b"]);
    assert_eq!(store.set_done(0, true), Ok(()));
    assert_eq!(store.set_done(0, false), Ok(()));
    assert!(!store.get(0).unwrap().is_done());
    assert!(!store.get(1).unwrap().is_done());
    assert_eq!(titles_of(&store), vec!["a", "b"]);
}

#[test]
fn set_done_out_of_range_changes_nothing() {
    let mut store = store_of(&["a"]);
    assert_eq!(store.set_done(1, true), Err(InvalidIndex));
    assert!(!store.get(0).unwrap().is_done());
    let mut empty = TaskStore::new();
    assert_eq!(empty.set_done(0, true), Err(InvalidIndex));
    assert!(empty.is_empty());
}

#[test]
fn list_is_a_snapshot_with_positions() {
    let mut store = store_of(&["a", "b", "c"]);
    store.set_done(2, true).unwrap();
    let snapshot = store.list();
    store.delete(0).unwrap();
    assert_eq!(snapshot.len(), 3);
    for (i, entry) in snapshot.iter().enumerate() {
        assert_eq!(entry.0, i);
    }
    assert_eq!(snapshot[0].1.title(), "a");
    assert!(snapshot[2].1.is_done());
    assert_eq!(store.list().len(), 2);
}
