use rtqlib::taskdb::{FinishedTask, PendingTask, StoreErrorKind, TaskDB, WorkingTask};
use rusqlite::Connection;

/// The address of a database in memory that two connections can share.
fn shared(name: &str) -> String {
    format!("file:{}?mode=memory&cache=shared", name)
}

fn pending(id: i64) -> PendingTask {
    PendingTask {
        id,
        command: format!("{{\"env_vars\":{{}},\"command\":[\"/bin/echo\",\"{}\"]}}", id),
        max_run_sec: 0,
        time_created: String::from("2024-01-02 03:04:05"),
    }
}

fn count(spy: &Connection, table: &str) -> i64 {
    spy.query_row(&format!("SELECT COUNT(*) FROM {}", table), [], |row| row.get(0)).unwrap()
}

fn count_of(spy: &Connection, table: &str, id: i64) -> i64 {
    spy.query_row(&format!("SELECT COUNT(*) FROM {} WHERE id = ?1", table), [id], |row| row.get(0))
        .unwrap()
}

fn finished_columns(spy: &Connection, id: i64) -> (String, i64, String, String, String, String, i64) {
    spy.query_row(
        "SELECT command, max_run_sec, time_created, time_started, time_finished, exit_reason, \
         exit_code FROM finished_tasks WHERE id = ?1",
        [id],
        |row| {
            Ok((
                row.get(0)?,
                row.get(1)?,
                row.get(2)?,
                row.get(3)?,
                row.get(4)?,
                row.get(5)?,
                row.get(6)?,
            ))
        },
    )
    .unwrap()
}

#[test]
fn a_new_store_is_empty() {
    let db = TaskDB::new(":memory:").unwrap();
    assert!(db.load_task().unwrap().is_none());
    assert!(db.load_working_tasks().unwrap().is_empty());
}

#[test]
fn opening_creates_the_three_tables() {
    let uri = shared("opening_creates_the_three_tables");
    let spy = Connection::open(&uri).unwrap();
    let _db = TaskDB::new(&uri).unwrap();
    assert_eq!(count(&spy, "pending_tasks"), 0);
    assert_eq!(count(&spy, "working_tasks"), 0);
    assert_eq!(count(&spy, "finished_tasks"), 0);
}

#[test]
fn opening_twice_keeps_what_is_stored() {
    let uri = shared("opening_twice_keeps_what_is_stored");
    let first = TaskDB::new(&uri).unwrap();
    first.insert_pending_task(&pending(7)).unwrap();
    let second = TaskDB::new(&uri).unwrap();
    assert_eq!(second.load_task().unwrap().unwrap().id, 7);
}

#[test]
fn a_pending_task_is_loaded_as_it_was_inserted() {
    let db = TaskDB::new(":memory:").unwrap();
    let task = PendingTask {
        id: 1_700_000_000_123_456_789,
        command: String::from("{\"command\":[\"sh\",\"-c\",\"echo 'héllo'\"]}"),
        max_run_sec: 90,
        time_created: String::from("2024-01-02 03:04:05"),
    };
    db.insert_pending_task(&task).unwrap();
    let loaded = db.load_task().unwrap().unwrap();
    assert_eq!(loaded.id, 1_700_000_000_123_456_789);
    assert_eq!(loaded.command, "{\"command\":[\"sh\",\"-c\",\"echo 'héllo'\"]}");
    assert_eq!(loaded.max_run_sec, 90);
    assert_eq!(loaded.time_created, "2024-01-02 03:04:05");
}

#[test]
fn loading_does_not_delete() {
    let db = TaskDB::new(":memory:").unwrap();
    db.insert_pending_task(&pending(1)).unwrap();
    assert_eq!(db.load_task().unwrap().unwrap().id, 1);
    assert_eq!(db.load_task().unwrap().unwrap().id, 1);
}

#[test]
fn the_loaded_task_is_one_of_the_pending() {
    let db = TaskDB::new(":memory:").unwrap();
    db.insert_pending_task(&pending(3)).unwrap();
    db.insert_pending_task(&pending(1)).unwrap();
    db.insert_pending_task(&pending(2)).unwrap();
    let id = db.load_task().unwrap().unwrap().id;
    assert!(id == 1 || id == 2 || id == 3);
}

#[test]
fn ids_at_the_ends_of_the_range() {
    let db = TaskDB::new(":memory:").unwrap();
    db.insert_pending_task(&pending(i64::MAX)).unwrap();
    assert_eq!(db.load_task().unwrap().unwrap().id, i64::MAX);
    db.remove_pending_task(&pending(i64::MAX)).unwrap();
    db.insert_pending_task(&pending(i64::MIN)).unwrap();
    assert_eq!(db.load_task().unwrap().unwrap().id, i64::MIN);
}

#[test]
fn a_second_pending_task_with_the_same_id_is_refused() {
    let db = TaskDB::new(":memory:").unwrap();
    db.insert_pending_task(&pending(5)).unwrap();
    let error = db.insert_pending_task(&pending(5)).unwrap_err();
    assert_eq!(error.kind, StoreErrorKind::DuplicateId);
    assert_eq!(error.code, Some(1555));
    assert!(!error.message.is_empty());
}

#[test]
fn a_second_working_task_with_the_same_id_is_refused() {
    let db = TaskDB::new(":memory:").unwrap();
    let working = WorkingTask::new(&pending(5), "t1");
    db.insert_working_task(&working).unwrap();
    let error = db.insert_working_task(&working).unwrap_err();
    assert_eq!(error.kind, StoreErrorKind::DuplicateId);
}

#[test]
fn a_second_finished_task_with_the_same_id_is_refused() {
    let uri = shared("a_second_finished_task_with_the_same_id_is_refused");
    let spy = Connection::open(&uri).unwrap();
    let db = TaskDB::new(&uri).unwrap();
    let working = WorkingTask::new(&pending(5), "t1");
    db.insert_finished_task(&FinishedTask::new(&working, "t2", "normal exit", 0)).unwrap();
    let error =
        db.insert_finished_task(&FinishedTask::new(&working, "t3", "cleanup", -1)).unwrap_err();
    assert_eq!(error.kind, StoreErrorKind::DuplicateId);
    assert_eq!(count_of(&spy, "finished_tasks", 5), 1);
    assert_eq!(finished_columns(&spy, 5).5, "normal exit");
}

#[test]
fn the_same_id_may_stand_in_two_collections() {
    let db = TaskDB::new(":memory:").unwrap();
    db.insert_pending_task(&pending(5)).unwrap();
    db.insert_working_task(&WorkingTask::new(&pending(5), "t1")).unwrap();
}

#[test]
fn a_removed_pending_task_is_gone() {
    let db = TaskDB::new(":memory:").unwrap();
    db.insert_pending_task(&pending(1)).unwrap();
    db.remove_pending_task(&pending(1)).unwrap();
    assert!(db.load_task().unwrap().is_none());
}

#[test]
fn removing_takes_only_the_task_with_that_id() {
    let db = TaskDB::new(":memory:").unwrap();
    db.insert_pending_task(&pending(1)).unwrap();
    db.insert_pending_task(&pending(2)).unwrap();
    db.remove_pending_task(&pending(1)).unwrap();
    assert_eq!(db.load_task().unwrap().unwrap().id, 2);
}

#[test]
fn removing_an_absent_pending_task_changes_nothing() {
    let uri = shared("removing_an_absent_pending_task_changes_nothing");
    let spy = Connection::open(&uri).unwrap();
    let db = TaskDB::new(&uri).unwrap();
    db.insert_pending_task(&pending(1)).unwrap();
    assert!(db.remove_pending_task(&pending(2)).is_ok());
    assert_eq!(count(&spy, "pending_tasks"), 1);
    assert_eq!(count_of(&spy, "pending_tasks", 1), 1);
    assert!(db.remove_pending_task(&pending(1)).is_ok());
    assert!(db.remove_pending_task(&pending(1)).is_ok());
    assert_eq!(count(&spy, "pending_tasks"), 0);
}

#[test]
fn removing_an_absent_working_task_changes_nothing() {
    let uri = shared("removing_an_absent_working_task_changes_nothing");
    let spy = Connection::open(&uri).unwrap();
    let db = TaskDB::new(&uri).unwrap();
    db.insert_working_task(&WorkingTask::new(&pending(1), "t1")).unwrap();
    assert!(db.remove_working_task(&WorkingTask::new(&pending(2), "t1")).is_ok());
    assert_eq!(count(&spy, "working_tasks"), 1);
    assert!(db.remove_working_task(&WorkingTask::new(&pending(1), "other")).is_ok());
    assert!(db.remove_working_task(&WorkingTask::new(&pending(1), "t1")).is_ok());
    assert_eq!(count(&spy, "working_tasks"), 0);
}

#[test]
fn removing_from_an_empty_store_is_no_error() {
    let db = TaskDB::new(":memory:").unwrap();
    assert!(db.remove_pending_task(&pending(1)).is_ok());
    assert!(db.remove_working_task(&WorkingTask::new(&pending(1), "t1")).is_ok());
}

#[test]
fn removing_a_pending_task_leaves_the_working_one() {
    let db = TaskDB::new(":memory:").unwrap();
    db.insert_pending_task(&pending(1)).unwrap();
    db.insert_working_task(&WorkingTask::new(&pending(1), "t1")).unwrap();
    db.remove_pending_task(&pending(1)).unwrap();
    assert_eq!(db.load_working_tasks().unwrap().len(), 1);
}

#[test]
fn working_tasks_are_listed_as_they_were_inserted() {
    let db = TaskDB::new(":memory:").unwrap();
    let mut task = pending(11);
    task.max_run_sec = 60;
    db.insert_working_task(&WorkingTask::new(&task, "2024-01-02T 03:04:06")).unwrap();
    db.insert_working_task(&WorkingTask::new(&pending(12), "2024-01-02T 03:04:07")).unwrap();
    let mut listed = db.load_working_tasks().unwrap();
    listed.sort_by_key(|w| w.id());
    assert_eq!(listed.len(), 2);
    assert_eq!(listed[0].id(), 11);
    assert_eq!(listed[0].command(), &pending(11).command);
    assert_eq!(listed[0].max_run_sec(), 60);
    assert_eq!(listed[0].time_created(), "2024-01-02 03:04:05");
    assert_eq!(listed[0].time_started(), "2024-01-02T 03:04:06");
    assert_eq!(listed[1].id(), 12);
    assert_eq!(listed[1].time_started(), "2024-01-02T 03:04:07");
}

#[test]
fn a_finished_task_is_stored_column_by_column() {
    let uri = shared("a_finished_task_is_stored_column_by_column");
    let spy = Connection::open(&uri).unwrap();
    let db = TaskDB::new(&uri).unwrap();
    let mut task = pending(21);
    task.max_run_sec = 15;
    let working = WorkingTask::new(&task, "2024-01-02T 03:04:06");
    db.insert_finished_task(&FinishedTask::new(&working, "2024-01-02T 03:04:09", "normal exit", 0))
        .unwrap();
    assert_eq!(
        finished_columns(&spy, 21),
        (
            pending(21).command,
            15,
            String::from("2024-01-02 03:04:05"),
            String::from("2024-01-02T 03:04:06"),
            String::from("2024-01-02T 03:04:09"),
            String::from("normal exit"),
            0
        )
    );
}

#[test]
fn orphans_are_finished_with_cleanup() {
    let uri = shared("orphans_are_finished_with_cleanup");
    let spy = Connection::open(&uri).unwrap();
    let db = TaskDB::new(&uri).unwrap();
    db.insert_pending_task(&pending(1)).unwrap();
    db.insert_working_task(&WorkingTask::new(&pending(2), "2024-01-02T 03:04:06")).unwrap();
    db.insert_working_task(&WorkingTask::new(&pending(3), "2024-01-02T 03:04:07")).unwrap();
    let older = WorkingTask::new(&pending(4), "2024-01-01T 00:00:00");
    db.insert_finished_task(&FinishedTask::new(&older, "2024-01-01T 00:00:01", "normal exit", 0))
        .unwrap();

    let mut records = db.reconcile_orphans("2024-01-03 00:00:00").unwrap();
    records.sort_by_key(|f| f.id());
    assert_eq!(records.len(), 2);
    assert_eq!(records[0].id(), 2);
    assert_eq!(records[0].time_started(), "2024-01-02T 03:04:06");
    assert_eq!(records[0].time_finished(), "2024-01-03 00:00:00");
    assert_eq!(records[0].exit_reason(), "cleanup");
    assert_eq!(records[0].exit_code(), -1);
    assert_eq!(records[1].id(), 3);
    assert_eq!(records[1].exit_reason(), "cleanup");
    assert_eq!(records[1].exit_code(), -1);

    assert!(db.load_working_tasks().unwrap().is_empty());
    assert_eq!(count(&spy, "working_tasks"), 0);
    assert_eq!(count(&spy, "pending_tasks"), 1);
    assert_eq!(count(&spy, "finished_tasks"), 3);
    assert_eq!(count_of(&spy, "finished_tasks", 2), 1);
    assert_eq!(count_of(&spy, "finished_tasks", 3), 1);
    assert_eq!(
        finished_columns(&spy, 2),
        (
            pending(2).command,
            0,
            String::from("2024-01-02 03:04:05"),
            String::from("2024-01-02T 03:04:06"),
            String::from("2024-01-03 00:00:00"),
            String::from("cleanup"),
            -1
        )
    );
    assert_eq!(finished_columns(&spy, 4).5, "normal exit");
}

#[test]
fn reconciling_twice_finds_nothing_more() {
    let uri = shared("reconciling_twice_finds_nothing_more");
    let spy = Connection::open(&uri).unwrap();
    let db = TaskDB::new(&uri).unwrap();
    db.insert_working_task(&WorkingTask::new(&pending(2), "t1")).unwrap();
    assert_eq!(db.reconcile_orphans("t2").unwrap().len(), 1);
    assert_eq!(db.reconcile_orphans("t3").unwrap().len(), 0);
    assert_eq!(count(&spy, "finished_tasks"), 1);
    assert_eq!(finished_columns(&spy, 2).4, "t2");
}

#[test]
fn reconciling_an_empty_store_does_nothing() {
    let db = TaskDB::new(":memory:").unwrap();
    assert!(db.reconcile_orphans("t").unwrap().is_empty());
    assert!(db.reconcile_orphans("").unwrap().is_empty());
}

#[test]
fn an_orphan_that_is_finished_already_stops_the_cleanup() {
    let uri = shared("an_orphan_that_is_finished_already_stops_the_cleanup");
    let spy = Connection::open(&uri).unwrap();
    let db = TaskDB::new(&uri).unwrap();
    let working = WorkingTask::new(&pending(2), "t1");
    db.insert_working_task(&working).unwrap();
    db.insert_finished_task(&FinishedTask::new(&working, "t2", "normal exit", 0)).unwrap();
    let error = db.reconcile_orphans("t3").unwrap_err();
    assert_eq!(error.kind, StoreErrorKind::DuplicateId);
    assert_eq!(finished_columns(&spy, 2).5, "normal exit");
}

#[test]
fn all_orphans_end_at_the_time_given() {
    let uri = shared("all_orphans_end_at_the_time_given");
    let spy = Connection::open(&uri).unwrap();
    let db = TaskDB::new(&uri).unwrap();
    db.insert_working_task(&WorkingTask::new(&pending(2), "t1")).unwrap();
    db.insert_working_task(&WorkingTask::new(&pending(3), "t1")).unwrap();
    let records = db.reconcile_orphans("2024-01-03 04:05:06").unwrap();
    assert_eq!(records.len(), 2);
    assert_eq!(records[0].time_finished(), "2024-01-03 04:05:06");
    assert_eq!(records[1].time_finished(), "2024-01-03 04:05:06");
    assert_eq!(records[0].exit_reason(), "cleanup");
    assert_eq!(records[0].exit_code(), -1);
    assert_eq!(count(&spy, "working_tasks"), 0);
    assert_eq!(finished_columns(&spy, 2).4, "2024-01-03 04:05:06");
    assert_eq!(finished_columns(&spy, 3).4, "2024-01-03 04:05:06");
    assert_eq!(finished_columns(&spy, 3).5, "cleanup");
    assert_eq!(finished_columns(&spy, 3).6, -1);
}

#[test]
fn a_pending_row_without_a_time_limit_is_malformed() {
    let uri = shared("a_pending_row_without_a_time_limit_is_malformed");
    let spy = Connection::open(&uri).unwrap();
    let db = TaskDB::new(&uri).unwrap();
    spy.execute("INSERT INTO pending_tasks VALUES (1, 'c', NULL, 't')", []).unwrap();
    let error = db.load_task().unwrap_err();
    assert_eq!(error.kind, StoreErrorKind::MalformedRow);
    assert_eq!(error.code, None);
}

#[test]
fn a_working_row_with_a_blob_for_text_is_malformed() {
    let uri = shared("a_working_row_with_a_blob_for_text_is_malformed");
    let spy = Connection::open(&uri).unwrap();
    let db = TaskDB::new(&uri).unwrap();
    db.insert_working_task(&WorkingTask::new(&pending(1), "t1")).unwrap();
    spy.execute("INSERT INTO working_tasks VALUES (2, 'c', 0, 't', x'0102')", []).unwrap();
    let error = db.load_working_tasks().unwrap_err();
    assert_eq!(error.kind, StoreErrorKind::MalformedRow);
    let error = db.reconcile_orphans("t2").unwrap_err();
    assert_eq!(error.kind, StoreErrorKind::MalformedRow);
    assert_eq!(count(&spy, "working_tasks"), 2);
    assert_eq!(count(&spy, "finished_tasks"), 0);
}

#[test]
fn a_store_that_cannot_be_opened_is_unreachable() {
    let error = TaskDB::new("/no/such/directory/rtq.db").unwrap_err();
    assert_eq!(error.kind, StoreErrorKind::Unreachable);
    assert!(!error.message.is_empty());
}

#[test]
fn a_table_that_cannot_be_created_is_a_schema_failure() {
    let uri = shared("a_table_that_cannot_be_created_is_a_schema_failure");
    let spy = Connection::open(&uri).unwrap();
    spy.execute("CREATE TABLE other (x INTEGER)", []).unwrap();
    spy.execute("CREATE INDEX working_tasks ON other (x)", []).unwrap();
    let error = TaskDB::new(&uri).unwrap_err();
    assert_eq!(error.kind, StoreErrorKind::Schema);
}

#[test]
fn a_statement_on_a_missing_table_fails() {
    let uri = shared("a_statement_on_a_missing_table_fails");
    let spy = Connection::open(&uri).unwrap();
    let db = TaskDB::new(&uri).unwrap();
    spy.execute("DROP TABLE pending_tasks", []).unwrap();
    spy.execute("DROP TABLE working_tasks", []).unwrap();
    assert_eq!(db.load_task().unwrap_err().kind, StoreErrorKind::Statement);
    assert_eq!(db.load_working_tasks().unwrap_err().kind, StoreErrorKind::Statement);
    assert_eq!(db.insert_pending_task(&pending(1)).unwrap_err().kind, StoreErrorKind::Statement);
    assert_eq!(db.remove_pending_task(&pending(1)).unwrap_err().kind, StoreErrorKind::Statement);
    let working = WorkingTask::new(&pending(1), "t1");
    assert_eq!(db.insert_working_task(&working).unwrap_err().kind, StoreErrorKind::Statement);
    assert_eq!(db.remove_working_task(&working).unwrap_err().kind, StoreErrorKind::Statement);
    assert_eq!(db.reconcile_orphans("t").unwrap_err().kind, StoreErrorKind::Statement);
}
