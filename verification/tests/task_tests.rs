use taskforce::backend::BackendError;
use taskforce::clock::{Date, Timestamp};
use taskforce::status::TaskStatus;
use taskforce::task::{task_from_row, task_row_params, Task, TaskRow};

fn full_row() -> TaskRow {
    TaskRow {
        id: 12,
        uuid: Some("local-99".to_string()),
        title: Some("Plan trip".to_string()),
        status: Some("done".to_string()),
        created_at: Some("1970-01-01T00:00:10+00:00".to_string()),
        updated_at: Some("1970-01-01T01:00:00.5+01:00".to_string()),
        target_date: Some("2024-02-29".to_string()),
        deadline: None,
        launch_date: Some("2025-12-31".to_string()),
        target_time_hint: Some("morning".to_string()),
        deadline_time_hint: None,
        launch_time_hint: Some("noon".to_string()),
        project: Some("home".to_string()),
        tags_json: Some("[\"a\",\"b\"]".to_string()),
        extra_json: Some("{\"k\":1}".to_string()),
    }
}

const NOW: Timestamp = Timestamp { seconds: 1_700_000_000, nanos: 0 };

#[test]
fn row_reads_as_task() {
    let task = task_from_row(full_row()).ok().expect("decode");
    assert_eq!(task.id, Some(12));
    assert_eq!(task.uuid, "local-99");
    assert_eq!(task.title(), "Plan trip");
    assert_eq!(task.core.status, TaskStatus::Done);
    assert_eq!(task.core.created_at, Timestamp { seconds: 10, nanos: 0 });
    assert_eq!(task.core.updated_at, Timestamp { seconds: 0, nanos: 500_000_000 });
    assert_eq!(task.core.target_date, Some(Date { year: 2024, month: 2, day: 29 }));
    assert_eq!(task.core.deadline, None);
    assert_eq!(task.core.launch_date, Some(Date { year: 2025, month: 12, day: 31 }));
    assert_eq!(task.core.target_time_hint.as_deref(), Some("morning"));
    assert_eq!(task.core.launch_time_hint.as_deref(), Some("noon"));
    assert_eq!(task.core.project.as_deref(), Some("home"));
    assert_eq!(task.core.tags, vec!["a".to_string(), "b".to_string()]);
    assert_eq!(task.extra.get("k").and_then(|v| v.as_i64()), Some(1));
}

#[test]
fn unknown_status_reads_as_pending() {
    let mut row = full_row();
    row.status = Some("archived".to_string());
    assert_eq!(task_from_row(row).ok().expect("decode").core.status, TaskStatus::Pending);
}

#[test]
fn negative_row_id_wraps_to_unsigned() {
    let mut row = full_row();
    row.id = -1;
    assert_eq!(task_from_row(row).ok().expect("decode").id, Some(u64::MAX));
}

fn corrupt(change: impl Fn(&mut TaskRow)) -> bool {
    let mut row = full_row();
    change(&mut row);
    matches!(task_from_row(row), Err(BackendError::CorruptRow))
}

#[test]
fn corrupt_rows_are_refused() {
    assert!(corrupt(|r| r.uuid = None));
    assert!(corrupt(|r| r.title = None));
    assert!(corrupt(|r| r.status = None));
    assert!(corrupt(|r| r.created_at = Some("yesterday".to_string())));
    assert!(corrupt(|r| r.updated_at = None));
    assert!(corrupt(|r| r.target_date = Some("2024-02-30".to_string())));
    assert!(corrupt(|r| r.deadline = Some("soon".to_string())));
    assert!(corrupt(|r| r.tags_json = Some("[1]".to_string())));
    assert!(corrupt(|r| r.extra_json = Some("[]".to_string())));
    assert!(corrupt(|r| r.extra_json = None));
}

#[test]
fn new_task_is_pending_and_empty() {
    let task = Task::new(None, "local-1".to_string(), "Title".to_string(), NOW);
    assert_eq!(task.id, None);
    assert_eq!(task.core.status, TaskStatus::Pending);
    assert_eq!(task.core.created_at, NOW);
    assert_eq!(task.core.updated_at, NOW);
    assert!(task.core.tags.is_empty());
    assert!(task.extra.is_empty());
}

#[test]
fn id_text_prefers_the_row_id() {
    let mut task = Task::new(None, "local-77".to_string(), "T".to_string(), NOW);
    assert_eq!(task.id_text(), "local-77");
    task.id = Some(0);
    assert_eq!(task.id_text(), "0");
    task.id = Some(18_446_744_073_709_551_615);
    assert_eq!(task.id_text(), "18446744073709551615");
}

#[test]
fn row_params_follow_table_order() {
    let mut task = Task::new(Some(1), "local-5".to_string(), "Write".to_string(), NOW);
    task.core.created_at = Timestamp { seconds: 86_400, nanos: 0 };
    task.core.updated_at = Timestamp { seconds: 86_401, nanos: 250_000_000 };
    task.core.status = TaskStatus::Waiting;
    task.core.deadline = Some(Date { year: 2030, month: 1, day: 5 });
    task.core.project = Some("p".to_string());
    task.core.tags = vec!["x".to_string()];
    let params = task_row_params(&task).expect("storable");
    let expected: Vec<Option<String>> = vec![
        Some("local-5".to_string()),
        Some("Write".to_string()),
        Some("waiting".to_string()),
        Some("1970-01-02T00:00:00+00:00".to_string()),
        Some("1970-01-02T00:00:01.250+00:00".to_string()),
        None,
        Some("2030-01-05".to_string()),
        None,
        None,
        None,
        None,
        Some("p".to_string()),
        Some("[\"x\"]".to_string()),
        Some("{}".to_string()),
    ];
    assert_eq!(params, expected);
}

#[test]
fn unstorable_tasks_have_no_params() {
    let mut task = Task::new(None, "u".to_string(), "T".to_string(), NOW);
    task.core.target_date = Some(Date { year: 2023, month: 2, day: 29 });
    assert!(task_row_params(&task).is_none());
    let mut task = Task::new(None, "u".to_string(), "T".to_string(), NOW);
    task.core.created_at = Timestamp { seconds: i64::MAX, nanos: 0 };
    assert!(task_row_params(&task).is_none());
}

#[test]
fn stored_params_read_back_as_the_task() {
    let mut task = Task::new(Some(9), "local-9".to_string(), "Again".to_string(), NOW);
    task.core.status = TaskStatus::Active;
    task.core.launch_date = Some(Date { year: 1999, month: 12, day: 31 });
    task.core.deadline_time_hint = Some("evening".to_string());
    task.core.tags = vec!["t1".to_string(), "t 2".to_string()];
    let p = task_row_params(&task).expect("storable");
    let row = TaskRow {
        id: 9,
        uuid: p[0].clone(),
        title: p[1].clone(),
        status: p[2].clone(),
        created_at: p[3].clone(),
        updated_at: p[4].clone(),
        target_date: p[5].clone(),
        deadline: p[6].clone(),
        launch_date: p[7].clone(),
        target_time_hint: p[8].clone(),
        deadline_time_hint: p[9].clone(),
        launch_time_hint: p[10].clone(),
        project: p[11].clone(),
        tags_json: p[12].clone(),
        extra_json: p[13].clone(),
    };
    let back = task_from_row(row).ok().expect("decode");
    assert_eq!(back.id, task.id);
    assert_eq!(back.uuid, task.uuid);
    assert_eq!(back.core.title, task.core.title);
    assert_eq!(back.core.status, task.core.status);
    assert_eq!(back.core.created_at, task.core.created_at);
    assert_eq!(back.core.updated_at, task.core.updated_at);
    assert_eq!(back.core.launch_date, task.core.launch_date);
    assert_eq!(back.core.deadline_time_hint, task.core.deadline_time_hint);
    assert_eq!(back.core.tags, task.core.tags);
}

#[test]
fn stored_texts_use_chrono_and_json_forms() {
    let mut task = Task::new(None, "local-3".to_string(), "Forms".to_string(), NOW);
    task.core.created_at = Timestamp { seconds: 981_173_106, nanos: 0 };
    task.core.updated_at = Timestamp { seconds: 981_173_106, nanos: 1 };
    task.core.target_date = Some(Date { year: 7, month: 3, day: 4 });
    task.core.tags = vec!["q\"".to_string()];
    let p = task_row_params(&task).expect("storable");
    assert_eq!(p[3].as_deref(), Some("2001-02-03T04:05:06+00:00"));
    assert_eq!(p[4].as_deref(), Some("2001-02-03T04:05:06.000000001+00:00"));
    assert_eq!(p[5].as_deref(), Some("0007-03-04"));
    assert_eq!(p[12].as_deref(), Some("[\"q\\\"\"]"));
}

#[test]
fn stored_texts_are_read_with_chrono_and_json() {
    let mut row = full_row();
    row.created_at = Some("2001-02-03T04:05:06Z".to_string());
    row.deadline = Some("2001-02-03".to_string());
    row.tags_json = Some("[\"x\", \"y z\"]".to_string());
    let task = task_from_row(row).ok().expect("decode");
    assert_eq!(task.core.created_at, Timestamp { seconds: 981_173_106, nanos: 0 });
    assert_eq!(task.core.deadline, Some(Date { year: 2001, month: 2, day: 3 }));
    assert_eq!(task.core.tags, vec!["x".to_string(), "y z".to_string()]);
    assert!(corrupt(|r| r.created_at = Some("2001-02-03".to_string())));
    assert!(corrupt(|r| r.target_date = Some("2023-02-29".to_string())));
    assert!(corrupt(|r| r.tags_json = Some("{}".to_string())));
}
