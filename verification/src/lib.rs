//! A task store: tasks kept in a local SQLite database, with the
//! configuration that locates it and the server address it is offered on.

pub mod backend;
pub mod clock;
pub mod config;
pub mod db_backend;
pub mod decimal;
pub mod json;
pub mod local_backend;
pub mod path;
pub mod sqlite;
pub mod statements;
pub mod status;
pub mod task;
