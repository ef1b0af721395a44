# taskforce

A task store kept in a local SQLite database, written in Verus.

- `src/` is the verified library: task statuses and their stored texts,
  the encoding of a task as a table row and its decoding, the SQLite task
  store (`LocalBackend`) and the store that configuration selects
  (`ConfiguredBackend`), and configuration: the paths of the configuration
  and data files, the database path, and the server address. Calls into
  rusqlite, chrono and serde_json go through small trusted wrappers whose
  contracts are stated in `sqlite.rs`, `clock.rs` and `json.rs`.
- `app/` reads the environment and the TOML configuration file, creates the
  database directory, and holds the serde copies of library types.
- `tests/` exercises the library, the SQLite store included.

Scope: the task store offers `list_pending`, `add`, `edit`, `delete`,
`mark_done` and `next_task`. Reading one task and its further fields
(`get_task`, `set_extra`, `get_extra`, `unset_extra`) and the statuses abandoned, mistaken and
duplicated (`mark_abandoned`, `mark_mistaken`, `mark_duplicated`) are not
provided, and tasks carry no annotations: no store kept them. The
`task_annotations` table is still created with the schema.
