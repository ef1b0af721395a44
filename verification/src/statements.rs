use vstd::prelude::*;

use crate::backend::BackendError;
use crate::clock::text_view;
use crate::decimal::decimal_text;
use crate::local_backend::id_param;
use crate::status::{status_text_spec, task_status_text, TaskStatus};
use crate::task::{decodes_to, row_decodes, task_from_row, Task, TaskRow};

verus! {

/// The SQL text of the statements that create the task and annotation tables where they do not exist yet.
pub open spec fn schema_sql_spec() -> Seq<char> {
    "
            CREATE TABLE IF NOT EXISTS tasks (
              id INTEGER PRIMARY KEY AUTOINCREMENT,
              uuid TEXT NOT NULL UNIQUE,
              title TEXT NOT NULL,
              status TEXT NOT NULL,
              created_at TEXT NOT NULL,
              updated_at TEXT NOT NULL,
              target_date TEXT,
              deadline TEXT,
              launch_date TEXT,
              target_time_hint TEXT,
              deadline_time_hint TEXT,
              launch_time_hint TEXT,
              project TEXT,
              tags_json TEXT NOT NULL,
              extra_json TEXT NOT NULL
            );

            CREATE TABLE IF NOT EXISTS task_annotations (
              id INTEGER PRIMARY KEY AUTOINCREMENT,
              task_id INTEGER NOT NULL,
              created_at TEXT NOT NULL,
              kind TEXT NOT NULL,
              body TEXT NOT NULL,
              FOREIGN KEY(task_id) REFERENCES tasks(id)
            );
            "@
}

/// The SQL text of the statements that create the task and annotation tables where they do not exist yet.
pub fn schema_sql() -> (sql: &'static str)
    ensures
        sql@ == schema_sql_spec(),
{
    "
            CREATE TABLE IF NOT EXISTS tasks (
              id INTEGER PRIMARY KEY AUTOINCREMENT,
              uuid TEXT NOT NULL UNIQUE,
              title TEXT NOT NULL,
              status TEXT NOT NULL,
              created_at TEXT NOT NULL,
              updated_at TEXT NOT NULL,
              target_date TEXT,
              deadline TEXT,
              launch_date TEXT,
              target_time_hint TEXT,
              deadline_time_hint TEXT,
              launch_time_hint TEXT,
              project TEXT,
              tags_json TEXT NOT NULL,
              extra_json TEXT NOT NULL
            );

            CREATE TABLE IF NOT EXISTS task_annotations (
              id INTEGER PRIMARY KEY AUTOINCREMENT,
              task_id INTEGER NOT NULL,
              created_at TEXT NOT NULL,
              kind TEXT NOT NULL,
              body TEXT NOT NULL,
              FOREIGN KEY(task_id) REFERENCES tasks(id)
            );
            "
}

/// The SQL text of the query of the task whose id is bound to `?1`.
pub open spec fn select_task_sql_spec() -> Seq<char> {
    "
            SELECT
              id,
              uuid,
              title,
              status,
              created_at,
              updated_at,
              target_date,
              deadline,
              launch_date,
              target_time_hint,
              deadline_time_hint,
              launch_time_hint,
              project,
              tags_json,
              extra_json
            FROM tasks
            WHERE id = ?1
            "@
}

/// The SQL text of the query of the task whose id is bound to `?1`.
pub fn select_task_sql() -> (sql: &'static str)
    ensures
        sql@ == select_task_sql_spec(),
{
    "
            SELECT
              id,
              uuid,
              title,
              status,
              created_at,
              updated_at,
              target_date,
              deadline,
              launch_date,
              target_time_hint,
              deadline_time_hint,
              launch_time_hint,
              project,
              tags_json,
              extra_json
            FROM tasks
            WHERE id = ?1
            "
}

/// The SQL text of the query of the tasks that are pending, active or waiting: those with a deadline first, by deadline, then those with a target date, by target date, then by creation time.
pub open spec fn pending_tasks_sql_spec() -> Seq<char> {
    "
            SELECT
              id,
              uuid,
              title,
              status,
              created_at,
              updated_at,
              target_date,
              deadline,
              launch_date,
              target_time_hint,
              deadline_time_hint,
              launch_time_hint,
              project,
              tags_json,
              extra_json
            FROM tasks
            WHERE status IN ('pending', 'active', 'waiting')
            ORDER BY
              CASE WHEN deadline IS NULL THEN 1 ELSE 0 END,
              deadline ASC,
              CASE WHEN target_date IS NULL THEN 1 ELSE 0 END,
              target_date ASC,
              created_at ASC
            "@
}

/// The SQL text of the query of the tasks that are pending, active or waiting: those with a deadline first, by deadline, then those with a target date, by target date, then by creation time.
pub fn pending_tasks_sql() -> (sql: &'static str)
    ensures
        sql@ == pending_tasks_sql_spec(),
{
    "
            SELECT
              id,
              uuid,
              title,
              status,
              created_at,
              updated_at,
              target_date,
              deadline,
              launch_date,
              target_time_hint,
              deadline_time_hint,
              launch_time_hint,
              project,
              tags_json,
              extra_json
            FROM tasks
            WHERE status IN ('pending', 'active', 'waiting')
            ORDER BY
              CASE WHEN deadline IS NULL THEN 1 ELSE 0 END,
              deadline ASC,
              CASE WHEN target_date IS NULL THEN 1 ELSE 0 END,
              target_date ASC,
              created_at ASC
            "
}

/// The SQL text of the insert of a task, with the values of `task_row_params` bound in order.
pub open spec fn insert_task_sql_spec() -> Seq<char> {
    "
            INSERT INTO tasks (
              uuid,
              title,
              status,
              created_at,
              updated_at,
              target_date,
              deadline,
              launch_date,
              target_time_hint,
              deadline_time_hint,
              launch_time_hint,
              project,
              tags_json,
              extra_json
            ) VALUES (?1, ?2, ?3, ?4, ?5, ?6, ?7, ?8, ?9, ?10, ?11, ?12, ?13, ?14)
            "@
}

/// The SQL text of the insert of a task, with the values of `task_row_params` bound in order.
pub fn insert_task_sql() -> (sql: &'static str)
    ensures
        sql@ == insert_task_sql_spec(),
{
    "
            INSERT INTO tasks (
              uuid,
              title,
              status,
              created_at,
              updated_at,
              target_date,
              deadline,
              launch_date,
              target_time_hint,
              deadline_time_hint,
              launch_time_hint,
              project,
              tags_json,
              extra_json
            ) VALUES (?1, ?2, ?3, ?4, ?5, ?6, ?7, ?8, ?9, ?10, ?11, ?12, ?13, ?14)
            "
}

/// The SQL text of the update of the title (`?1`) and update time (`?2`) of the task whose id is bound to `?3`.
pub open spec fn title_update_sql_spec() -> Seq<char> {
    "UPDATE tasks SET title = ?1, updated_at = ?2 WHERE id = ?3"@
}

/// The SQL text of the update of the title (`?1`) and update time (`?2`) of the task whose id is bound to `?3`.
pub fn title_update_sql() -> (sql: &'static str)
    ensures
        sql@ == title_update_sql_spec(),
{
    "UPDATE tasks SET title = ?1, updated_at = ?2 WHERE id = ?3"
}

/// The SQL text of the update of the status (`?1`) and update time (`?2`) of the task whose id is bound to `?3`.
pub open spec fn status_update_sql_spec() -> Seq<char> {
    "UPDATE tasks SET status = ?1, updated_at = ?2 WHERE id = ?3"@
}

/// The SQL text of the update of the status (`?1`) and update time (`?2`) of the task whose id is bound to `?3`.
pub fn status_update_sql() -> (sql: &'static str)
    ensures
        sql@ == status_update_sql_spec(),
{
    "UPDATE tasks SET status = ?1, updated_at = ?2 WHERE id = ?3"
}

/// The texts of bound values (`None` for `NULL`).
pub open spec fn param_texts(params: Seq<Option<String>>) -> Seq<Option<Seq<char>>> {
    params.map_values(|p: Option<String>| text_view(p))
}

/// The values bound to the query of task `id`: its decimal text. An id above
/// `i64::MAX` is refused, as SQLite row ids are signed 64-bit numbers.
pub fn task_id_params(id: u64) -> (params: Result<Vec<Option<String>>, BackendError>)
    ensures
        match params {
            Ok(p) => id <= i64::MAX && param_texts(p@) == seq![Some(decimal_text(id as nat))],
            Err(e) => id > i64::MAX && e == BackendError::IdOutOfRange(id),
        },
{
    let id_text = id_param(id)?;
    let mut params: Vec<Option<String>> = Vec::new();
    params.push(Some(id_text));
    assert(param_texts(params@) =~= seq![Some(decimal_text(id as nat))]);
    Ok(params)
}

/// The texts that an edit binds: the new title, the update time and the id.
pub open spec fn title_update_texts(description: Seq<char>, now: Seq<char>, id: u64) -> Seq<Option<Seq<char>>> {
    seq![Some(description), Some(now), Some(decimal_text(id as nat))]
}

/// The texts that a status update binds: the stored text of the status, the
/// update time and the id.
pub open spec fn status_update_texts(status: TaskStatus, now: Seq<char>, id: u64) -> Seq<Option<Seq<char>>> {
    seq![Some(status_text_spec(status)), Some(now), Some(decimal_text(id as nat))]
}

/// The values bound to the title update of task `id` at the time text `now`;
/// an id above `i64::MAX` is refused.
pub fn title_update_params(description: &str, now: &str, id: u64) -> (params: Result<
    Vec<Option<String>>,
    BackendError,
>)
    ensures
        match params {
            Ok(p) => id <= i64::MAX && param_texts(p@) == title_update_texts(description@, now@, id),
            Err(e) => id > i64::MAX && e == BackendError::IdOutOfRange(id),
        },
{
    let id_text = id_param(id)?;
    let mut params: Vec<Option<String>> = Vec::new();
    params.push(Some(description.to_owned()));
    params.push(Some(now.to_owned()));
    params.push(Some(id_text));
    assert(param_texts(params@) =~= title_update_texts(description@, now@, id));
    Ok(params)
}

/// The values bound to the status update of task `id` at the time text
/// `now`; an id above `i64::MAX` is refused.
pub fn status_update_params(status: TaskStatus, now: &str, id: u64) -> (params: Result<
    Vec<Option<String>>,
    BackendError,
>)
    ensures
        match params {
            Ok(p) => id <= i64::MAX && param_texts(p@) == status_update_texts(status, now@, id),
            Err(e) => id > i64::MAX && e == BackendError::IdOutOfRange(id),
        },
{
    let id_text = id_param(id)?;
    let mut params: Vec<Option<String>> = Vec::new();
    params.push(Some(task_status_text(status).to_owned()));
    params.push(Some(now.to_owned()));
    params.push(Some(id_text));
    assert(param_texts(params@) =~= status_update_texts(status, now@, id));
    Ok(params)
}

/// What an update of task `id` that changed `changed` rows means: none
/// changed means there is no such task.
pub fn changed_rows_outcome(id: u64, changed: usize) -> (outcome: Result<(), BackendError>)
    ensures
        changed == 0 <==> outcome is Err,
        outcome matches Err(e) ==> e == BackendError::TaskNotFound(id),
{
    if changed == 0 {
        Err(BackendError::TaskNotFound(id))
    } else {
        Ok(())
    }
}

/// The task that the query of task `id` gives: the reading of the row it
/// found, or `TaskNotFound(id)` where it found none.
pub fn fetched_task(id: u64, found: Option<TaskRow>) -> (task: Result<Task, BackendError>)
    ensures
        match found {
            None => task == Err::<Task, BackendError>(BackendError::TaskNotFound(id)),
            Some(row) => match task {
                Ok(t) => decodes_to(row, t),
                Err(e) => !row_decodes(row) && e is CorruptRow,
            },
        },
{
    match found {
        Some(row) => task_from_row(row),
        None => Err(BackendError::TaskNotFound(id)),
    }
}

} // verus!
