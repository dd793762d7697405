use todo_service::StoreError;
use todo_service::Todo;
use todo_service::is_valid_id;

#[test]
fn canonical_ids_are_accepted() {
    assert!(is_valid_id("11111111-2222-3333-4444-555555555555"));
    assert!(is_valid_id("0123abcd-ef01-2345-6789-abcdef012345"));
}

#[test]
fn malformed_ids_are_rejected() {
    assert!(!is_valid_id(""));
    assert!(!is_valid_id("11111111-2222-3333-4444-55555555555"));
    assert!(!is_valid_id("11111111-2222-3333-4444-5555555555556"));
    assert!(!is_valid_id("11111111x2222-3333-4444-555555555555"));
    assert!(!is_valid_id("11111111-2222-3333-4444-55555555555g"));
    assert!(!is_valid_id("11111111-2222-3333-4444-55555555555G"));
    assert!(!is_valid_id("ABCDABCD-2222-3333-4444-555555555555"));
}

#[test]
fn from_partial_starts_uncompleted() {
    let todo = Todo::from_partial(
        "11111111-2222-3333-4444-555555555555".to_string(),
        "buy milk".to_string(),
        None,
    );
    assert_eq!(todo.id, "11111111-2222-3333-4444-555555555555");
    assert_eq!(todo.title, "buy milk");
    assert!(!todo.completed);
    assert_eq!(todo.due, None);
}

#[test]
fn from_row_decodes_both_flag_values() {
    let done = Todo::from_row("a".to_string(), "t".to_string(), 1, None).expect("1 decodes");
    assert!(done.completed);
    let open = Todo::from_row("a".to_string(), "t".to_string(), 0, None).expect("0 decodes");
    assert!(!open.completed);
}

#[test]
fn from_row_rejects_other_flag_values() {
    let err = Todo::from_row("a".to_string(), "t".to_string(), 2, None)
        .expect_err("a flag outside 0 and 1 does not decode");
    assert!(matches!(err, StoreError::Decode));
    let err = Todo::from_row("a".to_string(), "t".to_string(), -1, None)
        .expect_err("a flag outside 0 and 1 does not decode");
    assert!(matches!(err, StoreError::Decode));
}
