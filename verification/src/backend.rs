use vstd::prelude::*;

use crate::task::Task;

verus! {

/// Why a task operation failed.
pub enum BackendError {
    /// The database refused or failed an operation; SQLite's message.
    Database(String),
    /// No task has the given id.
    TaskNotFound(u64),
    /// The given id is beyond the range of SQLite row ids.
    IdOutOfRange(u64),
    /// A stored row does not read as a task.
    CorruptRow,
    /// The database file at `path` could not be opened; SQLite's message.
    CannotOpen { path: String, message: String },
    /// The system clock reads a time that cannot be stored: before 1970, or
    /// beyond what chrono can write.
    ClockOutOfRange,
}

/// A store of tasks.
pub trait TaskBackend {
    /// The tasks that are pending, active or waiting: those with a deadline
    /// first, by deadline, then by target date, then by creation time.
    fn list_pending(&self) -> Result<Vec<Task>, BackendError>;

    /// Stores a new pending task with the given title.
    fn add(&self, description: &str) -> (task: Result<Task, BackendError>)
        ensures
            task matches Ok(t) ==> t.id is Some && t.core.title@ == description@;

    /// Gives the task `id` the title `description`.
    fn edit(&self, id: u64, description: &str) -> Result<Task, BackendError>;

    /// Marks the task `id` deleted.
    fn delete(&self, id: u64) -> Result<Task, BackendError>;

    /// Marks the task `id` done.
    fn mark_done(&self, id: u64) -> Result<Task, BackendError>;

    /// The first of the pending tasks, if there is one.
    fn next_task(&self) -> Result<Option<Task>, BackendError>;
}

} // verus!
