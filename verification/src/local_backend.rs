use vstd::prelude::*;
use vstd::string::*;

use crate::backend::{BackendError, TaskBackend};
use crate::clock::{clock_now, format_rfc3339, local_uuid_at, local_uuid_spec};
use crate::decimal::{decimal_text, u64_to_text};
use crate::sqlite::{
    connection_path, execute, execute_batch, last_insert_rowid, open_connection, optional_row,
    prepare, query_task_row, query_task_rows, sql_error_text, BatchRun,
};
use crate::statements::{
    changed_rows_outcome, fetched_task, insert_task_sql, pending_tasks_sql, schema_sql,
    schema_sql_spec, select_task_sql, status_update_params, status_update_sql, status_update_texts,
    task_id_params, title_update_params, title_update_sql, title_update_texts,
};
use crate::status::{lemma_status_text_roundtrip, TaskStatus};
use crate::task::{decodes_to, row_decodes, task_from_row, task_row_params, Task, TaskRow};

verus! {

/// A task store in a local SQLite database file.
#[derive(Debug, Clone)]
pub struct LocalBackend {
    db_path: String,
    schema: BatchRun,
}

/// The library's error for a failure of the database.
fn database_error(error: &rusqlite::Error) -> (e: BackendError)
    ensures
        e is Database,
{
    BackendError::Database(sql_error_text(error))
}

/// The text bound for a task id: its decimal digits. SQLite row ids are
/// signed 64-bit numbers, so an id above `i64::MAX` is refused.
pub fn id_param(id: u64) -> (param: Result<String, BackendError>)
    ensures
        match param {
            Ok(text) => id <= i64::MAX && text@ == decimal_text(id as nat),
            Err(e) => id > i64::MAX && e == BackendError::IdOutOfRange(id),
        },
{
    if id > 9_223_372_036_854_775_807u64 {
        Err(BackendError::IdOutOfRange(id))
    } else {
        Ok(u64_to_text(id))
    }
}

/// Reads rows of the task table as tasks, in order; the first row that does
/// not read as a task makes it an error.
pub fn tasks_from_rows(rows: Vec<TaskRow>) -> (tasks: Result<Vec<Task>, BackendError>)
    ensures
        match tasks {
            Ok(ts) => ts@.len() == rows@.len() && forall|i: int|
                0 <= i < rows@.len() ==> decodes_to(#[trigger] rows@[i], ts@[i]),
            Err(e) => e is CorruptRow && exists|i: int| 0 <= i < rows@.len() && !row_decodes(#[trigger] rows@[i]),
        },
{
    let ghost all = rows@;
    let mut rest = rows;
    let mut tasks: Vec<Task> = Vec::new();
    while rest.len() > 0
        invariant
            tasks@.len() + rest@.len() == all.len(),
            rest@ == all.subrange(tasks@.len() as int, all.len() as int),
            all == rows@,
            forall|i: int| 0 <= i < tasks@.len() ==> decodes_to(#[trigger] all[i], tasks@[i]),
        decreases rest@.len(),
    {
        let ghost k = tasks@.len() as int;
        let row = rest.remove(0);
        assert(row == all[k]);
        match task_from_row(row) {
            Ok(task) => {
                tasks.push(task);
                assert(rest@ =~= all.subrange(tasks@.len() as int, all.len() as int));
            },
            Err(e) => {
                assert(!row_decodes(all[k]));
                return Err(e);
            },
        }
    }
    Ok(tasks)
}

/// The first task of a list, if there is one.
pub fn first_task(tasks: Vec<Task>) -> (first: Option<Task>)
    ensures
        if tasks@.len() == 0 {
            first is None
        } else {
            first == Some(tasks@[0])
        },
{
    let mut tasks = tasks;
    if tasks.len() == 0 {
        None
    } else {
        Some(tasks.remove(0))
    }
}

/// Whether some value of a row (of any row, stored or not) reads as
/// `task`: what holds of every task that the store reads back.
pub open spec fn decodable(task: Task) -> bool {
    exists|row: TaskRow| decodes_to(row, task)
}

/// Whether each task of `tasks` is `decodable`.
pub open spec fn all_decodable(tasks: Seq<Task>) -> bool {
    forall|i: int| 0 <= i < tasks.len() ==> decodable(#[trigger] tasks[i])
}

/// Whether `task` is what `add` gives for `description`: it has an id, the
/// title, status Pending, one creation and update time, no dates, hints,
/// project or tags; created at a clock reading (at or after 1970) whose
/// nanoseconds since 1970 its identifier `local-…` carries.
pub open spec fn fresh_task(description: Seq<char>, task: Task) -> bool {
    &&& task.id is Some
    &&& task.core.title@ == description
    &&& task.core.status == TaskStatus::Pending
    &&& task.core.created_at == task.core.updated_at
    &&& task.core.target_date is None
    &&& task.core.deadline is None
    &&& task.core.launch_date is None
    &&& task.core.target_time_hint is None
    &&& task.core.deadline_time_hint is None
    &&& task.core.launch_time_hint is None
    &&& task.core.project is None
    &&& task.core.tags@.len() == 0
    &&& task.core.created_at.seconds >= 0
    &&& task.core.created_at.nanos < 1_000_000_000
    &&& task.uuid@ == local_uuid_spec(task.core.created_at)
}

/// What an operation on task `id` that ends by reading the task back may
/// give: a decodable task, or an error that names `id` where it names one;
/// never a task when `id` is beyond the range of row ids.
pub open spec fn id_outcome(id: u64, result: Result<Task, BackendError>) -> bool {
    &&& (result matches Ok(t) ==> id <= i64::MAX && decodable(t))
    &&& (result matches Err(BackendError::TaskNotFound(i)) ==> i == id)
    &&& (result matches Err(BackendError::IdOutOfRange(i)) ==> i == id && id > i64::MAX)
}

/// What an update of task `id` gives: an `id_outcome`; for an id beyond the
/// range of row ids, an error from opening the database or reading the
/// clock, else `IdOutOfRange(id)`; and otherwise only the errors of the
/// database, of a missing task and of a row that does not read as a task.
pub open spec fn update_outcome(id: u64, result: Result<Task, BackendError>) -> bool {
    &&& id_outcome(id, result)
    &&& (id > i64::MAX ==> (result matches Err(e) && (e is CannotOpen || e is ClockOutOfRange
        || e == BackendError::IdOutOfRange(id))))
    &&& (result matches Err(e) ==> (e is CannotOpen || e is ClockOutOfRange || e is IdOutOfRange
        || e is Database || e is TaskNotFound || e is CorruptRow))
}

/// What a status update writes reads back: a row whose status column holds
/// the text that `status_update_params` binds for `status` reads as a task
/// with that status.
pub proof fn lemma_status_update_reads_back(
    status: TaskStatus,
    now: Seq<char>,
    id: u64,
    row: TaskRow,
    task: Task,
)
    requires
        decodes_to(row, task),
        crate::clock::text_view(row.status) == status_update_texts(status, now, id)[0],
    ensures
        task.core.status == status,
{
    lemma_status_text_roundtrip(status);
}

/// What an edit writes reads back: a row whose title column holds the text
/// that `title_update_params` binds reads as a task with that title.
pub proof fn lemma_title_update_reads_back(description: Seq<char>, now: Seq<char>, id: u64, row: TaskRow, task: Task)
    requires
        decodes_to(row, task),
        crate::clock::text_view(row.title) == title_update_texts(description, now, id)[0],
    ensures
        task.core.title@ == description,
{
}

/// The current time as RFC 3339 text; `ClockOutOfRange` where the clock
/// cannot be read or its time cannot be written.
fn now_text() -> (text: Result<String, BackendError>)
    ensures
        text matches Err(e) ==> e is ClockOutOfRange,
{
    match clock_now() {
        Some(now) => match format_rfc3339(now) {
            Some(t) => Ok(t),
            None => Err(BackendError::ClockOutOfRange),
        },
        None => Err(BackendError::ClockOutOfRange),
    }
}

/// Opens a connection on the database file at `path`.
fn connect(path: &String) -> (connection: Result<rusqlite::Connection, BackendError>)
    ensures
        connection matches Ok(c) ==> connection_path(c) == path@,
        connection matches Err(e) ==> e matches BackendError::CannotOpen { path: p, .. } && p@
            == path@,
{
    match open_connection(path.as_str()) {
        Ok(c) => Ok(c),
        Err(e) => Err(BackendError::CannotOpen { path: path.clone(), message: sql_error_text(&e) }),
    }
}

/// Runs `schema_sql` on the database file at `path`.
fn apply_schema(path: &String) -> (run: Result<BatchRun, BackendError>)
    ensures
        run matches Ok(r) ==> r.path() == path@ && r.sql() == schema_sql_spec(),
        run matches Err(e) ==> (e matches BackendError::CannotOpen { path: p, .. } && p@
            == path@) || e is Database,
{
    let connection = connect(path)?;
    match execute_batch(&connection, path.as_str(), schema_sql()) {
        Ok(run) => Ok(run),
        Err(e) => Err(database_error(&e)),
    }
}

impl LocalBackend {
    /// The path of the database file.
    pub closed spec fn path(&self) -> Seq<char> {
        self.db_path@
    }

    /// The record of the schema statements that ran when the store was
    /// opened.
    pub closed spec fn schema_run(&self) -> BatchRun {
        self.schema
    }

    /// Opens the task store in the database file at `db_path` and makes sure
    /// that its tables exist, by running `schema_sql` on that file. The
    /// directory that holds the file must exist (the library does not touch
    /// the file system itself).
    pub fn new(db_path: String) -> (backend: Result<Self, BackendError>)
        ensures
            backend matches Ok(b) ==> {
                &&& b.path() == db_path@
                &&& b.schema_run().path() == db_path@
                &&& b.schema_run().sql() == schema_sql_spec()
            },
            backend matches Err(e) ==> (e matches BackendError::CannotOpen { path, .. } && path@
                == db_path@) || e is Database,
    {
        let schema = apply_schema(&db_path)?;
        Ok(LocalBackend { db_path, schema })
    }

    /// Creates the tables of the task store where they do not exist yet, by
    /// running `schema_sql` on the store's file.
    pub fn init_schema(&self) -> (done: Result<(), BackendError>)
        ensures
            done matches Err(e) ==> (e matches BackendError::CannotOpen { path, .. } && path@
                == self.path()) || e is Database,
    {
        apply_schema(&self.db_path)?;
        Ok(())
    }

    fn connection(&self) -> (connection: Result<rusqlite::Connection, BackendError>)
        ensures
            connection matches Ok(c) ==> connection_path(c) == self.path(),
            connection matches Err(e) ==> e matches BackendError::CannotOpen { path, .. } && path@
                == self.path(),
    {
        connect(&self.db_path)
    }

    /// Reads task `id` back: by `select_task_sql` with `task_id_params(id)`,
    /// the found row mapped by `fetched_task`.
    fn fetch_task(&self, id: u64) -> (task: Result<Task, BackendError>)
        ensures
            id_outcome(id, task),
            id > i64::MAX ==> (task matches Err(e) && (e is CannotOpen || e is Database || e
                == BackendError::IdOutOfRange(id))),
            task matches Err(e) ==> (e is CannotOpen || e is Database || e is IdOutOfRange
                || e is TaskNotFound || e is CorruptRow),
    {
        let connection = self.connection()?;
        let mut statement = match prepare(&connection, select_task_sql()) {
            Ok(s) => s,
            Err(e) => return Err(database_error(&e)),
        };
        let params = task_id_params(id)?;
        match optional_row(query_task_row(&mut statement, &params)) {
            Ok(found) => {
                let ghost source = found;
                let task = fetched_task(id, found);
                assert(task matches Ok(t) ==> decodes_to(source->0, t));
                task
            },
            Err(e) => Err(database_error(&e)),
        }
    }
}

/// Runs `status_update_sql` on `connection` with `params`, the values that
/// `status_update_params` gives for the new status, the time and `id`; maps
/// the changed-row count by `changed_rows_outcome`; then reads task `id`
/// back with `fetch_task`.
fn update_task_status(
    backend: &LocalBackend,
    connection: &rusqlite::Connection,
    params: &Vec<Option<String>>,
    id: u64,
) -> (task: Result<Task, BackendError>)
    ensures
        id_outcome(id, task),
        task matches Err(e) ==> (e is CannotOpen || e is Database || e is IdOutOfRange
            || e is TaskNotFound || e is CorruptRow),
{
    let changed = match execute(connection, status_update_sql(), params) {
        Ok(n) => n,
        Err(e) => return Err(database_error(&e)),
    };
    changed_rows_outcome(id, changed)?;
    backend.fetch_task(id)
}

impl TaskBackend for LocalBackend {
    /// Runs `pending_tasks_sql` and reads its rows with `tasks_from_rows`.
    fn list_pending(&self) -> (tasks: Result<Vec<Task>, BackendError>)
        ensures
            tasks matches Ok(ts) ==> all_decodable(ts@),
            tasks matches Err(e) ==> e is CannotOpen || e is Database || e is CorruptRow,
    {
        let connection = self.connection()?;
        let mut statement = match prepare(&connection, pending_tasks_sql()) {
            Ok(s) => s,
            Err(e) => return Err(database_error(&e)),
        };
        let no_params: Vec<Option<String>> = Vec::new();
        let rows = match query_task_rows(&mut statement, &no_params) {
            Ok(rows) => rows,
            Err(e) => return Err(database_error(&e)),
        };
        let ghost source = rows@;
        match tasks_from_rows(rows) {
            Ok(ts) => {
                assert forall|i: int| 0 <= i < ts@.len() implies decodable(#[trigger] ts@[i]) by {
                    assert(decodes_to(source[i], ts@[i]));
                }
                Ok(ts)
            },
            Err(e) => Err(e),
        }
    }

    /// Reads the clock once, builds `Task::new` for the description, the
    /// identifier of that instant and that instant, runs `insert_task_sql` with `task_row_params` of it, and
    /// gives it the row id of the insert.
    fn add(&self, description: &str) -> (task: Result<Task, BackendError>)
        ensures
            task matches Ok(t) ==> fresh_task(description@, t),
            task matches Err(e) ==> e is CannotOpen || e is Database || e is ClockOutOfRange,
    {
        let now = match clock_now() {
            Some(t) => t,
            None => return Err(BackendError::ClockOutOfRange),
        };
        let uuid = local_uuid_at(now);
        let mut task = Task::new(None, uuid, description.to_owned(), now);
        let connection = self.connection()?;
        let params = match task_row_params(&task) {
            Some(p) => p,
            None => return Err(BackendError::ClockOutOfRange),
        };
        match execute(&connection, insert_task_sql(), &params) {
            Ok(_) => {},
            Err(e) => return Err(database_error(&e)),
        }
        task.id = Some(last_insert_rowid(&connection) as u64);
        Ok(task)
    }

    /// Runs `title_update_sql` with `title_update_params`, maps the
    /// changed-row count by `changed_rows_outcome`, then reads the task back.
    fn edit(&self, id: u64, description: &str) -> (task: Result<Task, BackendError>)
        ensures
            update_outcome(id, task),
    {
        let connection = self.connection()?;
        let now = now_text()?;
        let params = title_update_params(description, now.as_str(), id)?;
        let changed = match execute(&connection, title_update_sql(), &params) {
            Ok(n) => n,
            Err(e) => return Err(database_error(&e)),
        };
        changed_rows_outcome(id, changed)?;
        self.fetch_task(id)
    }

    /// Binds `status_update_params(Deleted, now, id)` and runs the status
    /// update with them.
    fn delete(&self, id: u64) -> (task: Result<Task, BackendError>)
        ensures
            update_outcome(id, task),
    {
        let connection = self.connection()?;
        let now = now_text()?;
        let params = status_update_params(TaskStatus::Deleted, now.as_str(), id)?;
        update_task_status(self, &connection, &params, id)
    }

    /// Binds `status_update_params(Done, now, id)` and runs the status update
    /// with them.
    fn mark_done(&self, id: u64) -> (task: Result<Task, BackendError>)
        ensures
            update_outcome(id, task),
    {
        let connection = self.connection()?;
        let now = now_text()?;
        let params = status_update_params(TaskStatus::Done, now.as_str(), id)?;
        update_task_status(self, &connection, &params, id)
    }

    /// The first of the tasks that `list_pending` gives.
    fn next_task(&self) -> (task: Result<Option<Task>, BackendError>)
        ensures
            task matches Ok(Some(t)) ==> decodable(t),
            task matches Err(e) ==> e is CannotOpen || e is Database || e is CorruptRow,
    {
        match self.list_pending() {
            Ok(tasks) => {
                proof {
                    if tasks@.len() > 0 {
                        assert(decodable(tasks@[0]));
                    }
                }
                Ok(first_task(tasks))
            },
            Err(e) => Err(e),
        }
    }
}

} // verus!
