use vstd::prelude::*;
use rusqlite::OptionalExtension;

use crate::clock::text_view;
use crate::task::{read_task_row, TaskRow};

verus! {

/// A connection to an SQLite database, from rusqlite.
#[verifier::external_type_specification]
#[verifier::external_body]
pub struct ExConnection(rusqlite::Connection);

/// A prepared SQL statement, from rusqlite.
#[verifier::external_type_specification]
#[verifier::external_body]
pub struct ExStatement<'conn>(rusqlite::Statement<'conn>);

/// One row of a query's result, from rusqlite.
#[verifier::external_type_specification]
#[verifier::external_body]
pub struct ExRow<'stmt>(rusqlite::Row<'stmt>);

/// An error from rusqlite or SQLite.
#[verifier::external_type_specification]
#[verifier::external_body]
pub struct ExSqlError(rusqlite::Error);

/// The path of the database file that a connection was opened on.
pub uninterp spec fn connection_path(connection: rusqlite::Connection) -> Seq<char>;

/// A record that the SQL statements `sql` ran without error on the database
/// file at `path`. Only `execute_batch` makes one.
#[derive(Debug, Clone)]
pub struct BatchRun {
    path: String,
    sql: String,
}

impl BatchRun {
    /// The path of the database file that the statements ran on.
    pub closed spec fn path(&self) -> Seq<char> {
        self.path@
    }

    /// The statements that ran.
    pub closed spec fn sql(&self) -> Seq<char> {
        self.sql@
    }
}

/// Opens (creating it if need be) the database file at `path`, with
/// rusqlite's `Connection::open`.
///
/// Claimed: a connection that comes back is one on `path` (the named
/// `connection_path`). Whether it comes back depends on the file system:
/// nothing is claimed of that.
#[verifier::external_body]
pub(crate) fn open_connection(path: &str) -> (connection: Result<rusqlite::Connection, rusqlite::Error>)
    ensures
        connection matches Ok(c) ==> connection_path(c) == path@,
{
    rusqlite::Connection::open(path)
}

/// Runs the statements of `sql` in turn on `connection`, the connection on
/// `path`, with rusqlite's `Connection::execute_batch`.
///
/// Claimed: where they all ran without error, the record that comes back
/// names `path` and `sql`. Whether they run depends on the database: nothing
/// is claimed of that.
#[verifier::external_body]
pub(crate) fn execute_batch(connection: &rusqlite::Connection, path: &str, sql: &str) -> (done: Result<BatchRun, rusqlite::Error>)
    requires
        connection_path(*connection) == path@,
    ensures
        done matches Ok(run) ==> run.path() == path@ && run.sql() == sql@,
{
    match connection.execute_batch(sql) {
        Ok(()) => Ok(BatchRun { path: path.to_owned(), sql: sql.to_owned() }),
        Err(e) => Err(e),
    }
}

/// Runs one statement with the texts of `params` (`None` as SQL `NULL`) bound
/// to its numbered parameters in order, with rusqlite's `Connection::execute`,
/// and gives the number of rows it changed. Nothing is claimed of the
/// outcome, which depends on the database.
#[verifier::external_body]
pub(crate) fn execute(connection: &rusqlite::Connection, sql: &str, params: &Vec<Option<String>>) -> (changed: Result<usize, rusqlite::Error>) {
    connection.execute(sql, rusqlite::params_from_iter(params.iter()))
}

/// The row id of the last row inserted on `connection`, from rusqlite's
/// `Connection::last_insert_rowid`. Nothing is claimed of it.
#[verifier::external_body]
pub(crate) fn last_insert_rowid(connection: &rusqlite::Connection) -> (rowid: i64) {
    connection.last_insert_rowid()
}

/// Prepares `sql` on `connection`, with rusqlite's `Connection::prepare`.
/// Nothing is claimed of the outcome, which depends on the database.
#[verifier::external_body]
pub(crate) fn prepare<'conn>(connection: &'conn rusqlite::Connection, sql: &str) -> (statement: Result<rusqlite::Statement<'conn>, rusqlite::Error>) {
    connection.prepare(sql)
}

/// Runs a prepared query with `params` bound, and reads every row of its
/// result with `read_task_row`, with rusqlite's `Statement::query_map`;
/// the first error stops it. Nothing is claimed of the rows, which come from
/// the database.
#[verifier::external_body]
pub(crate) fn query_task_rows(statement: &mut rusqlite::Statement<'_>, params: &Vec<Option<String>>) -> (rows: Result<Vec<TaskRow>, rusqlite::Error>) {
    match statement.query_map(rusqlite::params_from_iter(params.iter()), |row| read_task_row(row)) {
        Ok(rows) => rows.collect(),
        Err(e) => Err(e),
    }
}

/// Runs a prepared query with `params` bound, and reads the first row of its
/// result with `read_task_row`, with rusqlite's `Statement::query_row`.
/// Nothing is claimed of the row, which comes from the database.
#[verifier::external_body]
pub(crate) fn query_task_row(statement: &mut rusqlite::Statement<'_>, params: &Vec<Option<String>>) -> (row: Result<TaskRow, rusqlite::Error>) {
    statement.query_row(rusqlite::params_from_iter(params.iter()), |row| read_task_row(row))
}

/// Turns "the query returned no row" into `Ok(None)`, with rusqlite's
/// `OptionalExtension::optional`.
///
/// Claimed, from its source: a value comes back as `Ok(Some(..))` of itself;
/// an error comes back as an error or as `Ok(None)`.
#[verifier::external_body]
pub(crate) fn optional_row(found: Result<TaskRow, rusqlite::Error>) -> (row: Result<Option<TaskRow>, rusqlite::Error>)
    ensures
        match found {
            Ok(v) => row matches Ok(Some(r)) && r == v,
            Err(_) => row is Err || row matches Ok(None),
        },
{
    found.optional()
}

/// What rusqlite's `Row::get` gives for each column of `row` read as an
/// integer, in column order: `Some(n)` where the column holds an integer,
/// `None` where it cannot be read so.
pub uninterp spec fn row_integer_columns(row: rusqlite::Row<'_>) -> Seq<Option<i64>>;

/// What rusqlite's `Row::get` gives for each column of `row` read as
/// optional text, in column order: `Some(None)` for `NULL`, `Some(Some(t))`
/// for the text `t`, `None` where the column cannot be read so.
pub uninterp spec fn row_text_columns(row: rusqlite::Row<'_>) -> Seq<Option<Option<Seq<char>>>>;

/// The integer in column `index` of `row`, with rusqlite's `Row::get`.
///
/// Claimed: the value, or the failure, is the column's entry in the named
/// `row_integer_columns` of the row; an index past the last column fails
/// (rusqlite's `InvalidColumnIndex`).
#[verifier::external_body]
pub(crate) fn row_integer(row: &rusqlite::Row<'_>, index: usize) -> (value: Result<i64, rusqlite::Error>)
    ensures
        index < row_integer_columns(*row).len() ==> match value {
            Ok(n) => row_integer_columns(*row)[index as int] == Some(n),
            Err(_) => row_integer_columns(*row)[index as int] is None,
        },
        index >= row_integer_columns(*row).len() ==> value is Err,
{
    row.get::<usize, i64>(index)
}

/// The text in column `index` of `row` (`None` for `NULL`), with rusqlite's
/// `Row::get`.
///
/// Claimed: the value, or the failure, is the column's entry in the named
/// `row_text_columns` of the row; an index past the last column fails
/// (rusqlite's `InvalidColumnIndex`).
#[verifier::external_body]
pub(crate) fn row_text(row: &rusqlite::Row<'_>, index: usize) -> (value: Result<Option<String>, rusqlite::Error>)
    ensures
        index < row_text_columns(*row).len() ==> match value {
            Ok(t) => row_text_columns(*row)[index as int] == Some(text_view(t)),
            Err(_) => row_text_columns(*row)[index as int] is None,
        },
        index >= row_text_columns(*row).len() ==> value is Err,
{
    row.get::<usize, Option<String>>(index)
}

/// The message of an SQLite error, as rusqlite's `Display` writes it.
/// Nothing is claimed of it.
#[verifier::external_body]
pub(crate) fn sql_error_text(error: &rusqlite::Error) -> (text: String) {
    format!("{error}")
}

} // verus!
