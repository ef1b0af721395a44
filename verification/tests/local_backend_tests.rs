use std::time::{SystemTime, UNIX_EPOCH};

use taskforce::backend::{BackendError, TaskBackend};
use taskforce::clock::Timestamp;
use taskforce::local_backend::{first_task, id_param, tasks_from_rows, LocalBackend};
use taskforce::status::TaskStatus;
use taskforce::task::{Task, TaskRow};

fn unique_db_path(prefix: &str) -> String {
    let nanos = SystemTime::now()
        .duration_since(UNIX_EPOCH)
        .expect("time")
        .as_nanos();
    format!("/tmp/{prefix}-{nanos}.db")
}

const NOW: Timestamp = Timestamp { seconds: 1_700_000_000, nanos: 0 };

#[test]
fn add_and_list_pending_tasks() {
    let backend = LocalBackend::new(unique_db_path("taskforce-local-backend")).ok().expect("open");

    let added = backend.add("Ship SQLite backend").ok().expect("add");
    let tasks = backend.list_pending().ok().expect("list");

    assert_eq!(tasks.len(), 1);
    assert_eq!(tasks[0].id, added.id);
    assert_eq!(tasks[0].title(), "Ship SQLite backend");
}

#[test]
fn edit_done_and_delete_task() {
    let backend = LocalBackend::new(unique_db_path("taskforce-local-backend-status")).ok().expect("open");

    let added = backend.add("Old title").ok().expect("add");
    let edited = backend.edit(added.id.expect("id"), "New title").ok().expect("edit");
    assert_eq!(edited.title(), "New title");

    let done = backend.mark_done(added.id.expect("id")).ok().expect("done");
    assert_eq!(done.core.status, TaskStatus::Done);

    let second = backend.add("Delete me").ok().expect("add");
    let deleted = backend.delete(second.id.expect("id")).ok().expect("delete");
    assert_eq!(deleted.core.status, TaskStatus::Deleted);
}

#[test]
fn added_task_is_pending_with_a_local_uuid() {
    let backend = LocalBackend::new(unique_db_path("taskforce-added")).ok().expect("open");
    let added = backend.add("Write tests").ok().expect("add");
    assert!(added.id.is_some());
    assert_eq!(added.core.status, TaskStatus::Pending);
    assert!(added.uuid.starts_with("local-"));
    assert!(added.uuid["local-".len()..].chars().all(|c| c.is_ascii_digit()));
    assert_eq!(added.core.created_at, added.core.updated_at);
    assert!(added.core.tags.is_empty());
    assert_eq!(added.core.project, None);
}

#[test]
fn read_back_task_keeps_its_fields() {
    let backend = LocalBackend::new(unique_db_path("taskforce-read-back")).ok().expect("open");
    let added = backend.add("Round trip").ok().expect("add");
    let listed = backend.list_pending().ok().expect("list");
    assert_eq!(listed.len(), 1);
    let task = &listed[0];
    assert_eq!(task.uuid, added.uuid);
    assert_eq!(task.core.created_at, added.core.created_at);
    assert_eq!(task.core.updated_at, added.core.updated_at);
    assert_eq!(task.core.status, TaskStatus::Pending);
    assert!(task.core.tags.is_empty());
}

#[test]
fn done_and_deleted_tasks_leave_the_pending_list() {
    let backend = LocalBackend::new(unique_db_path("taskforce-pending")).ok().expect("open");
    let first = backend.add("First").ok().expect("add");
    let second = backend.add("Second").ok().expect("add");
    let third = backend.add("Third").ok().expect("add");
    backend.mark_done(first.id.expect("id")).ok().expect("done");
    backend.delete(third.id.expect("id")).ok().expect("delete");
    let pending = backend.list_pending().ok().expect("list");
    assert_eq!(pending.len(), 1);
    assert_eq!(pending[0].id, second.id);
    let next = backend.next_task().ok().expect("next").expect("some");
    assert_eq!(next.id, second.id);
}

#[test]
fn next_task_of_empty_store_is_none() {
    let backend = LocalBackend::new(unique_db_path("taskforce-empty")).ok().expect("open");
    assert!(backend.next_task().ok().expect("next").is_none());
}

#[test]
fn missing_task_is_not_found() {
    let backend = LocalBackend::new(unique_db_path("taskforce-missing")).ok().expect("open");
    match backend.edit(42, "Nothing") {
        Err(BackendError::TaskNotFound(id)) => assert_eq!(id, 42),
        _ => panic!("expected TaskNotFound"),
    }
    match backend.mark_done(7) {
        Err(BackendError::TaskNotFound(id)) => assert_eq!(id, 7),
        _ => panic!("expected TaskNotFound"),
    }
}

#[test]
fn id_beyond_row_range_is_refused() {
    let backend = LocalBackend::new(unique_db_path("taskforce-range")).ok().expect("open");
    match backend.delete(u64::MAX) {
        Err(BackendError::IdOutOfRange(id)) => assert_eq!(id, u64::MAX),
        _ => panic!("expected IdOutOfRange"),
    }
}

#[test]
fn opening_in_a_missing_directory_fails() {
    match LocalBackend::new("/nonexistent-taskforce-dir/sub/tasks.db".to_string()) {
        Err(BackendError::CannotOpen { path, .. }) => {
            assert_eq!(path, "/nonexistent-taskforce-dir/sub/tasks.db")
        }
        _ => panic!("expected an open error"),
    }
}

#[test]
fn id_param_is_decimal_text() {
    assert_eq!(id_param(0).ok(), Some("0".to_string()));
    assert_eq!(id_param(1234).ok(), Some("1234".to_string()));
    assert_eq!(id_param(9_223_372_036_854_775_807).ok(), Some("9223372036854775807".to_string()));
    match id_param(9_223_372_036_854_775_808) {
        Err(BackendError::IdOutOfRange(id)) => assert_eq!(id, 9_223_372_036_854_775_808),
        _ => panic!("expected IdOutOfRange"),
    }
}

#[test]
fn first_task_takes_the_head() {
    assert!(first_task(Vec::new()).is_none());
    let tasks = vec![
        Task::new(Some(3), "a".to_string(), "A".to_string(), NOW),
        Task::new(Some(4), "b".to_string(), "B".to_string(), NOW),
    ];
    let first = first_task(tasks).expect("first");
    assert_eq!(first.id, Some(3));
    assert_eq!(first.title(), "A");
}

fn sample_row(id: i64, status: &str) -> TaskRow {
    TaskRow {
        id,
        uuid: Some(format!("local-{id}")),
        title: Some(format!("Task {id}")),
        status: Some(status.to_string()),
        created_at: Some("2024-01-02T03:04:05+00:00".to_string()),
        updated_at: Some("2024-01-02T03:04:05+00:00".to_string()),
        target_date: None,
        deadline: None,
        launch_date: None,
        target_time_hint: None,
        deadline_time_hint: None,
        launch_time_hint: None,
        project: None,
        tags_json: Some("[]".to_string()),
        extra_json: Some("{}".to_string()),
    }
}

#[test]
fn tasks_from_rows_keeps_order() {
    let rows = vec![sample_row(2, "active"), sample_row(1, "waiting")];
    let tasks = tasks_from_rows(rows).ok().expect("decode");
    assert_eq!(tasks.len(), 2);
    assert_eq!(tasks[0].id, Some(2));
    assert_eq!(tasks[0].core.status, TaskStatus::Active);
    assert_eq!(tasks[1].id, Some(1));
    assert_eq!(tasks[1].core.status, TaskStatus::Waiting);
}

#[test]
fn tasks_from_rows_stops_at_a_corrupt_row() {
    let mut bad = sample_row(5, "pending");
    bad.tags_json = Some("not json".to_string());
    let rows = vec![sample_row(4, "pending"), bad];
    assert!(matches!(tasks_from_rows(rows), Err(BackendError::CorruptRow)));
}
