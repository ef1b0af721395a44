use vstd::prelude::*;

use crate::backend::BackendError;
use crate::clock::{
    format_iso_date, format_rfc3339, iso_date, iso_date_text, parse_iso_date, parse_rfc3339,
    four_digit_year, rfc3339_instant, rfc3339_text, text_view, writable_date, writable_instant, Date,
    Timestamp,
};
use crate::decimal::{decimal_text, u64_to_text};
use crate::json::{
    empty_object, json_object_accepts, json_string_list, json_string_list_text, object_json,
    parse_object, parse_string_list, string_list_json,
};
use crate::sqlite::{row_integer, row_integer_columns, row_text, row_text_columns};
use crate::status::{
    lemma_status_text_roundtrip, parse_status_spec, parse_task_status, status_text_spec,
    task_status_text, TaskStatus,
};

verus! {

/// The fields of a task that every backend keeps.
pub struct CoreTaskFields {
    pub title: String,
    pub status: TaskStatus,
    pub created_at: Timestamp,
    pub updated_at: Timestamp,
    pub target_date: Option<Date>,
    pub deadline: Option<Date>,
    pub launch_date: Option<Date>,
    pub target_time_hint: Option<String>,
    pub deadline_time_hint: Option<String>,
    pub launch_time_hint: Option<String>,
    pub project: Option<String>,
    pub tags: Vec<String>,
}

/// A task: its row id once stored, its identifier, its fields, and a JSON
/// object of further fields that the library carries unread.
pub struct Task {
    pub id: Option<u64>,
    pub uuid: String,
    pub core: CoreTaskFields,
    pub extra: serde_json::Map<String, serde_json::Value>,
}

/// The columns of one row of the task table, as read: the row id, and the
/// text of every other column (`None` for `NULL`), in table order.
pub struct TaskRow {
    pub id: i64,
    pub uuid: Option<String>,
    pub title: Option<String>,
    pub status: Option<String>,
    pub created_at: Option<String>,
    pub updated_at: Option<String>,
    pub target_date: Option<String>,
    pub deadline: Option<String>,
    pub launch_date: Option<String>,
    pub target_time_hint: Option<String>,
    pub deadline_time_hint: Option<String>,
    pub launch_time_hint: Option<String>,
    pub project: Option<String>,
    pub tags_json: Option<String>,
    pub extra_json: Option<String>,
}

impl Task {
    /// A new task with the given row id, identifier and title: pending,
    /// created and updated at `now`, with no dates, hints, project or tags,
    /// and no further fields.
    pub fn new(id: Option<u64>, uuid: String, title: String, now: Timestamp) -> (task: Task)
        ensures
            task.id == id,
            task.uuid == uuid,
            task.core.title == title,
            task.core.status == TaskStatus::Pending,
            task.core.created_at == now,
            task.core.updated_at == now,
            task.core.target_date is None,
            task.core.deadline is None,
            task.core.launch_date is None,
            task.core.target_time_hint is None,
            task.core.deadline_time_hint is None,
            task.core.launch_time_hint is None,
            task.core.project is None,
            task.core.tags@.len() == 0,
    {
        Task {
            id,
            uuid,
            core: CoreTaskFields {
                title,
                status: TaskStatus::Pending,
                created_at: now,
                updated_at: now,
                target_date: None,
                deadline: None,
                launch_date: None,
                target_time_hint: None,
                deadline_time_hint: None,
                launch_time_hint: None,
                project: None,
                tags: Vec::new(),
            },
            extra: empty_object(),
        }
    }

    /// The task's title.
    pub fn title(&self) -> (title: &str)
        ensures
            title@ == self.core.title@,
    {
        self.core.title.as_str()
    }

    /// How the task is named to a user: its row id in decimal once it has
    /// one, else its identifier.
    pub fn id_text(&self) -> (text: String)
        ensures
            text@ == match self.id {
                Some(id) => decimal_text(id as nat),
                None => self.uuid@,
            },
    {
        match self.id {
            Some(id) => u64_to_text(id),
            None => self.uuid.clone(),
        }
    }
}

/// The instant that a stored timestamp text denotes, if it denotes one.
pub open spec fn instant_column(text: Option<Seq<char>>) -> Option<Timestamp> {
    match text {
        Some(t) => match rfc3339_instant(t) {
            Some((s, n)) => Some(Timestamp { seconds: s, nanos: n }),
            None => None,
        },
        None => None,
    }
}

/// What a stored optional date text reads as: `Some(None)` for no date,
/// `Some(Some(d))` for a date, `None` for text that is no date.
pub open spec fn date_column(text: Option<Seq<char>>) -> Option<Option<Date>> {
    match text {
        Some(t) => match iso_date(t) {
            Some((y, m, d)) => Some(Some(Date { year: y, month: m, day: d })),
            None => None,
        },
        None => Some(None),
    }
}

/// Whether a row reads as a task: every column that the table declares
/// `NOT NULL` holds text, the timestamps and dates parse, the tags are a JSON
/// array of strings and the further fields a JSON object.
pub open spec fn row_decodes(row: TaskRow) -> bool {
    &&& row.uuid is Some
    &&& row.title is Some
    &&& row.status is Some
    &&& instant_column(text_view(row.created_at)) is Some
    &&& instant_column(text_view(row.updated_at)) is Some
    &&& date_column(text_view(row.target_date)) is Some
    &&& date_column(text_view(row.deadline)) is Some
    &&& date_column(text_view(row.launch_date)) is Some
    &&& row.tags_json is Some
    &&& json_string_list(row.tags_json.unwrap()@) is Some
    &&& row.extra_json is Some
    &&& json_object_accepts(row.extra_json.unwrap()@)
}

/// Whether `task` is what `row` reads as (all but the further fields, which
/// the library does not read).
pub open spec fn decodes_to(row: TaskRow, task: Task) -> bool {
    &&& row_decodes(row)
    &&& task.id == Some(row.id as u64)
    &&& task.uuid@ == row.uuid.unwrap()@
    &&& task.core.title@ == row.title.unwrap()@
    &&& task.core.status == parse_status_spec(row.status.unwrap()@)
    &&& Some(task.core.created_at) == instant_column(text_view(row.created_at))
    &&& Some(task.core.updated_at) == instant_column(text_view(row.updated_at))
    &&& Some(task.core.target_date) == date_column(text_view(row.target_date))
    &&& Some(task.core.deadline) == date_column(text_view(row.deadline))
    &&& Some(task.core.launch_date) == date_column(text_view(row.launch_date))
    &&& text_view(task.core.target_time_hint) == text_view(row.target_time_hint)
    &&& text_view(task.core.deadline_time_hint) == text_view(row.deadline_time_hint)
    &&& text_view(task.core.launch_time_hint) == text_view(row.launch_time_hint)
    &&& text_view(task.core.project) == text_view(row.project)
    &&& json_string_list(row.tags_json.unwrap()@) == Some(task.core.tags.deep_view())
}

/// Whether column `index` of `row` can be read as optional text.
pub open spec fn text_readable(row: rusqlite::Row<'_>, index: int) -> bool {
    0 <= index < row_text_columns(row).len() && row_text_columns(row)[index] is Some
}

/// The optional text in column `index` of `row`.
pub open spec fn text_column(row: rusqlite::Row<'_>, index: int) -> Option<Seq<char>> {
    row_text_columns(row)[index].unwrap()
}

/// Whether a row of the task table can be read: its first column as an
/// integer and its other fourteen as optional text.
pub open spec fn task_row_readable(row: rusqlite::Row<'_>) -> bool {
    &&& 0 < row_integer_columns(row).len()
    &&& row_integer_columns(row)[0] is Some
    &&& forall|i: int| 1 <= i <= 14 ==> #[trigger] text_readable(row, i)
}

/// Whether `columns` holds what the columns of `row` read as, in table order.
pub open spec fn task_row_read(row: rusqlite::Row<'_>, columns: TaskRow) -> bool {
    &&& Some(columns.id) == row_integer_columns(row)[0]
    &&& text_view(columns.uuid) == text_column(row, 1)
    &&& text_view(columns.title) == text_column(row, 2)
    &&& text_view(columns.status) == text_column(row, 3)
    &&& text_view(columns.created_at) == text_column(row, 4)
    &&& text_view(columns.updated_at) == text_column(row, 5)
    &&& text_view(columns.target_date) == text_column(row, 6)
    &&& text_view(columns.deadline) == text_column(row, 7)
    &&& text_view(columns.launch_date) == text_column(row, 8)
    &&& text_view(columns.target_time_hint) == text_column(row, 9)
    &&& text_view(columns.deadline_time_hint) == text_column(row, 10)
    &&& text_view(columns.launch_time_hint) == text_column(row, 11)
    &&& text_view(columns.project) == text_column(row, 12)
    &&& text_view(columns.tags_json) == text_column(row, 13)
    &&& text_view(columns.extra_json) == text_column(row, 14)
}

fn read_text(row: &rusqlite::Row<'_>, index: usize) -> (value: Result<Option<String>, rusqlite::Error>)
    ensures
        value is Ok <==> text_readable(*row, index as int),
        value matches Ok(t) ==> text_view(t) == text_column(*row, index as int),
{
    row_text(row, index)
}

/// Reads the columns of one row of the task table, in the order
/// `id, uuid, title, status, created_at, updated_at, target_date, deadline,
/// launch_date, target_time_hint, deadline_time_hint, launch_time_hint,
/// project, tags_json, extra_json`, the JSON columns first. It fails exactly
/// where a column cannot be read.
pub(crate) fn read_task_row(row: &rusqlite::Row<'_>) -> (columns: Result<TaskRow, rusqlite::Error>)
    ensures
        columns is Ok <==> task_row_readable(*row),
        columns matches Ok(c) ==> task_row_read(*row, c),
{
    let tags_json = read_text(row, 13)?;
    let extra_json = read_text(row, 14)?;
    let id = row_integer(row, 0)?;
    let uuid = read_text(row, 1)?;
    let title = read_text(row, 2)?;
    let status = read_text(row, 3)?;
    let created_at = read_text(row, 4)?;
    let updated_at = read_text(row, 5)?;
    let target_date = read_text(row, 6)?;
    let deadline = read_text(row, 7)?;
    let launch_date = read_text(row, 8)?;
    let target_time_hint = read_text(row, 9)?;
    let deadline_time_hint = read_text(row, 10)?;
    let launch_time_hint = read_text(row, 11)?;
    let project = read_text(row, 12)?;
    assert forall|i: int| 1 <= i <= 14 implies #[trigger] text_readable(*row, i) by {}
    Ok(TaskRow {
        id,
        uuid,
        title,
        status,
        created_at,
        updated_at,
        target_date,
        deadline,
        launch_date,
        target_time_hint,
        deadline_time_hint,
        launch_time_hint,
        project,
        tags_json,
        extra_json,
    })
}

fn read_instant(text: &Option<String>) -> (instant: Option<Timestamp>)
    ensures
        instant == instant_column(text_view(*text)),
{
    match text {
        Some(t) => parse_rfc3339(t.as_str()),
        None => None,
    }
}

fn read_date(text: &Option<String>) -> (date: Option<Option<Date>>)
    ensures
        date == date_column(text_view(*text)),
{
    match text {
        Some(t) => match parse_iso_date(t.as_str()) {
            Some(d) => Some(Some(d)),
            None => None,
        },
        None => Some(None),
    }
}

/// Reads a row of the task table as a task: the row id as an unsigned
/// number, the status by its stored text, the timestamps as RFC 3339, the
/// dates as `%Y-%m-%d`, the tags as a JSON array of strings and the further
/// fields as a JSON object. A row that does not read so is an error.
pub fn task_from_row(row: TaskRow) -> (task: Result<Task, BackendError>)
    ensures
        match task {
            Ok(t) => decodes_to(row, t),
            Err(e) => !row_decodes(row) && e is CorruptRow,
        },
{
    let tags = match &row.tags_json {
        Some(text) => match parse_string_list(text.as_str()) {
            Some(tags) => tags,
            None => return Err(BackendError::CorruptRow),
        },
        None => return Err(BackendError::CorruptRow),
    };
    let extra = match &row.extra_json {
        Some(text) => match parse_object(text.as_str()) {
            Some(extra) => extra,
            None => return Err(BackendError::CorruptRow),
        },
        None => return Err(BackendError::CorruptRow),
    };
    let created_at = match read_instant(&row.created_at) {
        Some(t) => t,
        None => return Err(BackendError::CorruptRow),
    };
    let updated_at = match read_instant(&row.updated_at) {
        Some(t) => t,
        None => return Err(BackendError::CorruptRow),
    };
    let target_date = match read_date(&row.target_date) {
        Some(d) => d,
        None => return Err(BackendError::CorruptRow),
    };
    let deadline = match read_date(&row.deadline) {
        Some(d) => d,
        None => return Err(BackendError::CorruptRow),
    };
    let launch_date = match read_date(&row.launch_date) {
        Some(d) => d,
        None => return Err(BackendError::CorruptRow),
    };
    let uuid = match row.uuid {
        Some(u) => u,
        None => return Err(BackendError::CorruptRow),
    };
    let title = match row.title {
        Some(t) => t,
        None => return Err(BackendError::CorruptRow),
    };
    let status = match &row.status {
        Some(s) => parse_task_status(s.as_str()),
        None => return Err(BackendError::CorruptRow),
    };
    Ok(Task {
        id: Some(row.id as u64),
        uuid,
        core: CoreTaskFields {
            title,
            status,
            created_at,
            updated_at,
            target_date,
            deadline,
            launch_date,
            target_time_hint: row.target_time_hint,
            deadline_time_hint: row.deadline_time_hint,
            launch_time_hint: row.launch_time_hint,
            project: row.project,
            tags,
        },
        extra,
    })
}

/// The stored text of an optional date.
pub open spec fn date_text_of(date: Option<Date>) -> Option<Seq<char>> {
    match date {
        Some(d) => iso_date_text(d.year, d.month, d.day),
        None => None,
    }
}

/// Whether a task can be written to the task table: chrono can write its
/// timestamps and each of its dates.
pub open spec fn task_storable(task: Task) -> bool {
    &&& writable_instant(task.core.created_at)
    &&& writable_instant(task.core.updated_at)
    &&& (task.core.target_date matches Some(d) ==> writable_date(d))
    &&& (task.core.deadline matches Some(d) ==> writable_date(d))
    &&& (task.core.launch_date matches Some(d) ==> writable_date(d))
}

/// The texts that a task is stored under, for the columns `uuid` to
/// `tags_json` in table order (`None` for `NULL`).
pub open spec fn stored_texts(task: Task) -> Seq<Option<Seq<char>>> {
    seq![
        Some(task.uuid@),
        Some(task.core.title@),
        Some(status_text_spec(task.core.status)),
        rfc3339_text(task.core.created_at.seconds, task.core.created_at.nanos),
        rfc3339_text(task.core.updated_at.seconds, task.core.updated_at.nanos),
        date_text_of(task.core.target_date),
        date_text_of(task.core.deadline),
        date_text_of(task.core.launch_date),
        text_view(task.core.target_time_hint),
        text_view(task.core.deadline_time_hint),
        text_view(task.core.launch_time_hint),
        text_view(task.core.project),
        Some(json_string_list_text(task.core.tags.deep_view())),
    ]
}

fn copy_text(text: &Option<String>) -> (copy: Option<String>)
    ensures
        text_view(copy) == text_view(*text),
{
    match text {
        Some(t) => Some(t.clone()),
        None => None,
    }
}

fn write_date(date: Option<Date>) -> (text: Option<Option<String>>)
    ensures
        match date {
            Some(d) => if writable_date(d) {
                text matches Some(t) && text_view(t) == date_text_of(date)
            } else {
                text is None
            },
            None => text == Some(None::<String>),
        },
        text is Some ==> date_reads_back(date),
{
    match date {
        Some(d) => match format_iso_date(d) {
            Some(t) => Some(Some(t)),
            None => None,
        },
        None => Some(None),
    }
}

/// The values bound to the insert of a task, for the columns `uuid` to
/// `extra_json` in table order: the texts of `stored_texts`, then the JSON
/// text of the further fields. `None` where the task cannot be stored.
pub fn task_row_params(task: &Task) -> (params: Option<Vec<Option<String>>>)
    ensures
        match params {
            Some(p) => {
                &&& task_storable(*task)
                &&& texts_read_back(*task)
                &&& p@.len() == 14
                &&& forall|i: int| 0 <= i < 13 ==> text_view(#[trigger] p@[i]) == stored_texts(*task)[i]
                &&& p@[13] is Some
            },
            None => !task_storable(*task),
        },
{
    let created_at = match format_rfc3339(task.core.created_at) {
        Some(t) => t,
        None => return None,
    };
    let updated_at = match format_rfc3339(task.core.updated_at) {
        Some(t) => t,
        None => return None,
    };
    let target_date = match write_date(task.core.target_date) {
        Some(t) => t,
        None => return None,
    };
    let deadline = match write_date(task.core.deadline) {
        Some(t) => t,
        None => return None,
    };
    let launch_date = match write_date(task.core.launch_date) {
        Some(t) => t,
        None => return None,
    };
    let tags_json = match string_list_json(&task.core.tags) {
        Ok(t) => t,
        Err(_) => return None,
    };
    let extra_json = match object_json(&task.extra) {
        Ok(t) => t,
        Err(_) => return None,
    };
    let mut params: Vec<Option<String>> = Vec::new();
    params.push(Some(task.uuid.clone()));
    params.push(Some(task.core.title.clone()));
    params.push(Some(task_status_text(task.core.status).to_owned()));
    params.push(Some(created_at));
    params.push(Some(updated_at));
    params.push(target_date);
    params.push(deadline);
    params.push(launch_date);
    params.push(copy_text(&task.core.target_time_hint));
    params.push(copy_text(&task.core.deadline_time_hint));
    params.push(copy_text(&task.core.launch_time_hint));
    params.push(copy_text(&task.core.project));
    params.push(Some(tags_json));
    params.push(Some(extra_json));
    proof {
        let s = stored_texts(*task);
        assert(params@.take(13).map_values(|p: Option<String>| text_view(p)) =~= s);
    }
    Some(params)
}

/// The texts of a row's columns `uuid` to `tags_json`, in table order.
pub open spec fn row_texts(row: TaskRow) -> Seq<Option<Seq<char>>> {
    seq![
        text_view(row.uuid),
        text_view(row.title),
        text_view(row.status),
        text_view(row.created_at),
        text_view(row.updated_at),
        text_view(row.target_date),
        text_view(row.deadline),
        text_view(row.launch_date),
        text_view(row.target_time_hint),
        text_view(row.deadline_time_hint),
        text_view(row.launch_time_hint),
        text_view(row.project),
        text_view(row.tags_json),
    ]
}

/// Whether two tasks agree on every field that the library reads.
pub open spec fn same_fields(a: Task, b: Task) -> bool {
    &&& a.id == b.id
    &&& a.uuid@ == b.uuid@
    &&& a.core.title@ == b.core.title@
    &&& a.core.status == b.core.status
    &&& a.core.created_at == b.core.created_at
    &&& a.core.updated_at == b.core.updated_at
    &&& a.core.target_date == b.core.target_date
    &&& a.core.deadline == b.core.deadline
    &&& a.core.launch_date == b.core.launch_date
    &&& text_view(a.core.target_time_hint) == text_view(b.core.target_time_hint)
    &&& text_view(a.core.deadline_time_hint) == text_view(b.core.deadline_time_hint)
    &&& text_view(a.core.launch_time_hint) == text_view(b.core.launch_time_hint)
    &&& text_view(a.core.project) == text_view(b.core.project)
    &&& a.core.tags.deep_view() == b.core.tags.deep_view()
}

/// Whether chrono reads back the date that it writes for `date`, if any.
pub open spec fn date_reads_back(date: Option<Date>) -> bool {
    date matches Some(d) ==> iso_date(iso_date_text(d.year, d.month, d.day).unwrap()) == Some(
        (d.year, d.month, d.day),
    )
}

/// Whether chrono reads back the instant that it writes for `ts`, where its
/// year has four digits.
pub open spec fn instant_reads_back(ts: Timestamp) -> bool {
    four_digit_year(ts) ==> rfc3339_instant(rfc3339_text(ts.seconds, ts.nanos).unwrap()) == Some(
        (ts.seconds, ts.nanos),
    )
}

/// Whether chrono and serde_json read back what they write for the
/// timestamps, dates and tags of `task`.
pub open spec fn texts_read_back(task: Task) -> bool {
    &&& instant_reads_back(task.core.created_at)
    &&& instant_reads_back(task.core.updated_at)
    &&& date_reads_back(task.core.target_date)
    &&& date_reads_back(task.core.deadline)
    &&& date_reads_back(task.core.launch_date)
    &&& json_string_list(json_string_list_text(task.core.tags.deep_view())) == Some(
        task.core.tags.deep_view(),
    )
}

/// What is stored of a task reads back as that task: a row that holds the
/// task's row id, the texts that `task_row_params` binds for it and a JSON
/// object for the further fields reads as a task, and as one that agrees
/// with it on every field the library reads, where its timestamps lie in
/// years that RFC 3339 writes with four digits. (`task_row_params` ensures
/// `texts_read_back` of every task it gives values for.)
pub proof fn lemma_stored_task_reads_back(task: Task, row: TaskRow)
    requires
        task_storable(task),
        texts_read_back(task),
        four_digit_year(task.core.created_at),
        four_digit_year(task.core.updated_at),
        task.id == Some(row.id as u64),
        row_texts(row) == stored_texts(task),
        row.extra_json matches Some(e) && json_object_accepts(e@),
    ensures
        row_decodes(row),
        forall|t: Task| decodes_to(row, t) ==> same_fields(t, task),
{
    assert(row_texts(row) == stored_texts(task));
    lemma_status_text_roundtrip(task.core.status);
    assert forall|t: Task| decodes_to(row, t) implies same_fields(t, task) by {
        assert(t.core.tags.deep_view() == task.core.tags.deep_view());
    }
}

} // verus!
