use todo_list::command::failure_report;
use todo_list::error::{
    settle_initialize, settle_insert, settle_update, SqlFailure, StoreError, UNIQUE_VIOLATION,
};
use todo_list::store::done_flag;

fn failure(code: Option<i32>, message: &str) -> SqlFailure {
    SqlFailure { code, message: message.to_string() }
}

#[test]
fn unique_violation_is_the_engine_code() {
    assert_eq!(UNIQUE_VIOLATION, 2067);
    assert_eq!(UNIQUE_VIOLATION, rusqlite::ffi::SQLITE_CONSTRAINT_UNIQUE);
}

#[test]
fn done_flag_is_one_or_zero() {
    assert_eq!(done_flag(false), 0);
    assert_eq!(done_flag(true), 1);
}

#[test]
fn initialize_succeeds_with_the_statement() {
    assert!(matches!(settle_initialize(Ok(0)), Ok(())));
    assert!(matches!(settle_initialize(Ok(3)), Ok(())));
}

#[test]
fn initialize_failure_is_storage_unavailable() {
    match settle_initialize(Err(failure(Some(14), "unable to open database file"))) {
        Err(StoreError::StorageUnavailable { message }) => {
            assert_eq!(message, "unable to open database file")
        }
        other => panic!("unexpected result: {:?}", other),
    }
    match settle_initialize(Err(failure(Some(2067), "odd"))) {
        Err(StoreError::StorageUnavailable { message }) => assert_eq!(message, "odd"),
        other => panic!("unexpected result: {:?}", other),
    }
}

#[test]
fn insert_succeeds_with_the_statement() {
    assert!(matches!(settle_insert("buy milk", Ok(1)), Ok(())));
    assert!(matches!(settle_insert("buy milk", Ok(0)), Ok(())));
}

#[test]
fn insert_refused_as_unique_is_a_duplicate() {
    match settle_insert("buy milk", Err(failure(Some(2067), "UNIQUE constraint failed: todo.task"))) {
        Err(StoreError::DuplicateTask { task, message }) => {
            assert_eq!(task, "buy milk");
            assert_eq!(message, "UNIQUE constraint failed: todo.task");
        }
        other => panic!("unexpected result: {:?}", other),
    }
}

#[test]
fn insert_refused_otherwise_is_an_insert_failure() {
    for code in [Some(1), Some(19), Some(1299), Some(2066), Some(2068), Some(0), Some(-2067), None] {
        match settle_insert("buy milk", Err(failure(code, "no such table: todo"))) {
            Err(StoreError::InsertFailure { task, message }) => {
                assert_eq!(task, "buy milk");
                assert_eq!(message, "no such table: todo");
            }
            other => panic!("unexpected result for {:?}: {:?}", code, other),
        }
    }
}

#[test]
fn update_succeeds_however_many_rows_changed() {
    assert!(matches!(settle_update(Ok(0)), Ok(())));
    assert!(matches!(settle_update(Ok(1)), Ok(())));
    assert!(matches!(settle_update(Ok(usize::MAX)), Ok(())));
}

#[test]
fn update_failure_is_reported_as_such() {
    match settle_update(Err(failure(Some(8), "attempt to write a readonly database"))) {
        Err(StoreError::UpdateFailure { message }) => {
            assert_eq!(message, "attempt to write a readonly database")
        }
        other => panic!("unexpected result: {:?}", other),
    }
    match settle_update(Err(failure(Some(2067), "odd"))) {
        Err(StoreError::UpdateFailure { message }) => assert_eq!(message, "odd"),
        other => panic!("unexpected result: {:?}", other),
    }
}

#[test]
fn failure_texts() {
    let unavailable = StoreError::StorageUnavailable { message: "disk I/O error".to_string() };
    assert_eq!(unavailable.to_text(), "Failed to initialize database: disk I/O error");
    let duplicate = StoreError::DuplicateTask {
        task: "buy milk".to_string(),
        message: "UNIQUE constraint failed: todo.task".to_string(),
    };
    assert_eq!(
        duplicate.to_text(),
        "Failed to add todo 'buy milk': UNIQUE constraint failed: todo.task"
    );
    let insert = StoreError::InsertFailure {
        task: "it's".to_string(),
        message: "database is locked".to_string(),
    };
    assert_eq!(insert.to_text(), "Failed to add todo 'it's': database is locked");
    let update = StoreError::UpdateFailure { message: String::new() };
    assert_eq!(update.to_text(), "Failed to mark todo as done: ");
}

#[test]
fn failure_report_has_a_line_for_each_failure() {
    let results = vec![
        Ok(()),
        Err(StoreError::DuplicateTask { task: "a".to_string(), message: "m1".to_string() }),
        Ok(()),
        Err(StoreError::InsertFailure { task: "b".to_string(), message: "m2".to_string() }),
        Err(StoreError::UpdateFailure { message: "m3".to_string() }),
    ];
    assert_eq!(
        failure_report(&results),
        vec![
            "Failed to add todo 'a': m1",
            "Failed to add todo 'b': m2",
            "Failed to mark todo as done: m3"
        ]
    );
    assert!(failure_report(&vec![Ok(()), Ok(())]).is_empty());
    assert!(failure_report(&Vec::new()).is_empty());
}
