use vstd::prelude::*;

use crate::backend::{BackendError, TaskBackend};
use crate::config::{sqlite_path_spec, AppConfig, BackendKind, ConfigError, Environment};
use crate::local_backend::{all_decodable, decodable, fresh_task, update_outcome, LocalBackend};
use crate::statements::schema_sql_spec;
use crate::task::Task;

verus! {

/// The task store that the configuration selects.
#[derive(Debug, Clone)]
pub enum ConfiguredBackend {
    Sqlite(LocalBackend),
}

/// Why the configured task store could not be opened.
pub enum OpenError {
    /// The configuration could not be resolved.
    Config(ConfigError),
    /// The store could not be opened.
    Backend(BackendError),
}

impl ConfiguredBackend {
    /// Opens the task store that `config` selects, at the database path that
    /// it and `env` resolve to. The directory that holds the file must exist.
    pub fn open(config: &AppConfig, env: &Environment) -> (backend: Result<Self, OpenError>)
        ensures
            sqlite_path_spec(*config, *env) is None <==> backend matches Err(OpenError::Config(_)),
            backend matches Err(OpenError::Config(e)) ==> e is HomeNotSet,
            backend matches Ok(ConfiguredBackend::Sqlite(b)) ==> {
                &&& sqlite_path_spec(*config, *env) == Some(b.path())
                &&& b.schema_run().path() == b.path()
                &&& b.schema_run().sql() == schema_sql_spec()
            },
            backend matches Err(OpenError::Backend(e)) ==> (e matches BackendError::CannotOpen {
                path,
                ..
            } && Some(path@) == sqlite_path_spec(*config, *env)) || e is Database,
    {
        match config.backend.kind {
            BackendKind::Sqlite => {
                let path = match config.resolve_sqlite_path(env) {
                    Ok(p) => p,
                    Err(e) => return Err(OpenError::Config(e)),
                };
                match LocalBackend::new(path) {
                    Ok(b) => Ok(ConfiguredBackend::Sqlite(b)),
                    Err(e) => Err(OpenError::Backend(e)),
                }
            },
        }
    }
}

impl TaskBackend for ConfiguredBackend {
    fn list_pending(&self) -> (tasks: Result<Vec<Task>, BackendError>)
        ensures
            tasks matches Ok(ts) ==> all_decodable(ts@),
            tasks matches Err(e) ==> e is CannotOpen || e is Database || e is CorruptRow,
    {
        match self {
            ConfiguredBackend::Sqlite(backend) => backend.list_pending(),
        }
    }

    fn add(&self, description: &str) -> (task: Result<Task, BackendError>)
        ensures
            task matches Ok(t) ==> fresh_task(description@, t),
            task matches Err(e) ==> e is CannotOpen || e is Database || e is ClockOutOfRange,
    {
        match self {
            ConfiguredBackend::Sqlite(backend) => backend.add(description),
        }
    }

    fn edit(&self, id: u64, description: &str) -> (task: Result<Task, BackendError>)
        ensures
            update_outcome(id, task),
    {
        match self {
            ConfiguredBackend::Sqlite(backend) => backend.edit(id, description),
        }
    }

    fn delete(&self, id: u64) -> (task: Result<Task, BackendError>)
        ensures
            update_outcome(id, task),
    {
        match self {
            ConfiguredBackend::Sqlite(backend) => backend.delete(id),
        }
    }

    fn mark_done(&self, id: u64) -> (task: Result<Task, BackendError>)
        ensures
            update_outcome(id, task),
    {
        match self {
            ConfiguredBackend::Sqlite(backend) => backend.mark_done(id),
        }
    }

    fn next_task(&self) -> (task: Result<Option<Task>, BackendError>)
        ensures
            task matches Ok(Some(t)) ==> decodable(t),
            task matches Err(e) ==> e is CannotOpen || e is Database || e is CorruptRow,
    {
        match self {
            ConfiguredBackend::Sqlite(backend) => backend.next_task(),
        }
    }
}

} // verus!
