use todo_service::Store;
use todo_service::StoreError;
use todo_service::Todo;

const ID_A: &str = "11111111-2222-3333-4444-555555555555";
const ID_B: &str = "aaaaaaaa-bbbb-cccc-dddd-eeeeeeeeeeee";

fn fresh() -> Store {
    Store::open_in_memory().expect("in-memory store should open")
}

fn record(id: &str, title: &str, due: Option<&str>) -> Todo {
    Todo {
        id: id.to_string(),
        title: title.to_string(),
        completed: false,
        due: due.map(|d| d.to_string()),
    }
}

#[test]
fn list_empty_store() {
    let store = fresh();
    let todos = store.list_all().expect("listing an empty store is not an error");
    assert_eq!(todos.len(), 0);
}

#[test]
fn insert_then_find_matches() {
    let mut store = fresh();
    let todo = record(ID_A, "buy milk", Some("2030-01-02T03:04:05Z"));
    store.insert(&todo).expect("insert of a fresh id succeeds");
    let found = store.find_by_id(ID_A).expect("a just-inserted record is found");
    assert_eq!(found.id, ID_A);
    assert_eq!(found.title, "buy milk");
    assert!(!found.completed);
    assert_eq!(found.due.as_deref(), Some("2030-01-02T03:04:05Z"));
}

#[test]
fn insert_duplicate_id_fails_and_changes_nothing() {
    let mut store = fresh();
    let first = record(ID_A, "first", None);
    let second = record(ID_A, "second", None);
    store.insert(&first).expect("first insert succeeds");
    let err = store.insert(&second).expect_err("a duplicate id is refused");
    assert!(matches!(err, StoreError::Storage));
    let todos = store.list_all().expect("listing succeeds");
    assert_eq!(todos.len(), 1);
    assert_eq!(todos[0].title, "first");
}

#[test]
fn find_absent_id_is_not_found() {
    let store = fresh();
    let err = store.find_by_id(ID_A).expect_err("an absent id is not found");
    assert!(matches!(err, StoreError::NotFound));
}

#[test]
fn delete_absent_id_is_not_found() {
    let mut store = fresh();
    let err = store.delete_by_id(ID_A).expect_err("an absent id is not found");
    assert!(matches!(err, StoreError::NotFound));
}

#[test]
fn malformed_id_is_rejected_before_the_query() {
    let mut store = fresh();
    let err = store.find_by_id("not-an-identifier").expect_err("malformed id");
    assert!(matches!(err, StoreError::Validation));
    let err = store.delete_by_id("not-an-identifier").expect_err("malformed id");
    assert!(matches!(err, StoreError::Validation));
}

#[test]
fn delete_then_find_is_not_found() {
    let mut store = fresh();
    store.insert(&record(ID_A, "gone soon", None)).expect("insert succeeds");
    store.delete_by_id(ID_A).expect("deleting a present record succeeds");
    let err = store.find_by_id(ID_A).expect_err("no stale read after delete");
    assert!(matches!(err, StoreError::NotFound));
    let err = store.delete_by_id(ID_A).expect_err("second delete is not found");
    assert!(matches!(err, StoreError::NotFound));
}

#[test]
fn delete_removes_only_its_record() {
    let mut store = fresh();
    store.insert(&record(ID_A, "kept", None)).expect("insert succeeds");
    store.insert(&record(ID_B, "removed", None)).expect("insert succeeds");
    store.delete_by_id(ID_B).expect("delete succeeds");
    let todos = store.list_all().expect("listing succeeds");
    assert_eq!(todos.len(), 1);
    assert_eq!(todos[0].id, ID_A);
    assert_eq!(todos[0].title, "kept");
}

#[test]
fn file_backed_store_keeps_records_across_reopen() {
    let path = "/tmp/todo_service_reopen_test.sqlite";
    {
        let mut store = Store::open(path).expect("the file-backed store opens");
        let _ = store.delete_by_id(ID_A);
        store
            .insert(&record(ID_A, "persisted", None))
            .expect("insert succeeds");
    }
    let mut store = Store::open(path).expect("reopening succeeds");
    let found = store.find_by_id(ID_A).expect("the record survived the reopen");
    assert_eq!(found.title, "persisted");
    store.delete_by_id(ID_A).expect("cleanup delete succeeds");
}

#[test]
fn list_returns_every_record_exactly_as_submitted() {
    let mut store = fresh();
    let submitted = [
        record(ID_A, "one", None),
        record(ID_B, "two", Some("2031-12-31T00:00:00Z")),
        record("99999999-8888-7777-6666-555555555555", "three", None),
    ];
    for todo in &submitted {
        store.insert(todo).expect("insert succeeds");
    }
    let todos = store.list_all().expect("listing succeeds");
    assert_eq!(todos.len(), submitted.len());
    for wanted in &submitted {
        let got = todos
            .iter()
            .find(|t| t.id == wanted.id)
            .expect("every submitted record is listed");
        assert_eq!(got.title, wanted.title);
        assert_eq!(got.completed, wanted.completed);
        assert_eq!(got.due, wanted.due);
    }
}
