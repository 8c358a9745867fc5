//! Persistent orchestration state (`.rembrandt/state.db`).
//!
//! The store is an embedded SQL database that the caller drives. This
//! module says what is sent to it and what comes back means: the schema,
//! the statement and parameters of every operation, and the reading of a
//! row as a [`SessionRecord`].

use vstd::prelude::*;
use vstd::string::*;
use crate::error::RembrandtError;
use crate::isolation::IsolationMode;
use crate::text::{clone_opt_text, join_text, same_text};
use crate::timestamp::{rfc3339_instant, Timestamp};

verus! {

/// Persisted session status.
#[derive(Debug, Clone, Copy, PartialEq, Eq, Structural)]
pub enum SessionStatus {
    Starting,
    Active,
    Idle,
    Completed,
    Failed,
    Stopped,
}

impl SessionStatus {
    /// The short tag under which the status is stored.
    pub open spec fn spec_tag(self) -> Seq<char> {
        match self {
            SessionStatus::Starting => "starting"@,
            SessionStatus::Active => "active"@,
            SessionStatus::Idle => "idle"@,
            SessionStatus::Completed => "completed"@,
            SessionStatus::Failed => "failed"@,
            SessionStatus::Stopped => "stopped"@,
        }
    }

    /// The short tag under which the status is stored.
    pub fn as_str(self) -> (tag: &'static str)
        ensures
            tag@ == self.spec_tag(),
    {
        match self {
            SessionStatus::Starting => "starting",
            SessionStatus::Active => "active",
            SessionStatus::Idle => "idle",
            SessionStatus::Completed => "completed",
            SessionStatus::Failed => "failed",
            SessionStatus::Stopped => "stopped",
        }
    }

    /// The status stored under the tag `value`; a `State` error for a text
    /// that is no tag.
    pub fn from_str(value: &str) -> (parsed: Result<SessionStatus, RembrandtError>)
        ensures
            match parsed {
                Ok(status) => value@ == status.spec_tag(),
                Err(error) => {
                    &&& forall|status: SessionStatus| value@ != #[trigger] status.spec_tag()
                    &&& error matches RembrandtError::State(message) && message@
                        == "unknown session status '"@ + value@ + "'"@
                },
            },
    {
        if same_text(value, "starting") {
            Ok(SessionStatus::Starting)
        } else if same_text(value, "active") {
            Ok(SessionStatus::Active)
        } else if same_text(value, "idle") {
            Ok(SessionStatus::Idle)
        } else if same_text(value, "completed") {
            Ok(SessionStatus::Completed)
        } else if same_text(value, "failed") {
            Ok(SessionStatus::Failed)
        } else if same_text(value, "stopped") {
            Ok(SessionStatus::Stopped)
        } else {
            let mut message = join_text("unknown session status '", value);
            message.append("'");
            Err(RembrandtError::State(message))
        }
    }
}

/// Different statuses have different tags.
pub proof fn lemma_status_tags_differ(a: SessionStatus, b: SessionStatus)
    requires
        a != b,
    ensures
        a.spec_tag() != b.spec_tag(),
{
    reveal_strlit("starting");
    reveal_strlit("active");
    reveal_strlit("idle");
    reveal_strlit("completed");
    reveal_strlit("failed");
    reveal_strlit("stopped");
    if a.spec_tag().len() == b.spec_tag().len() {
        assert(a.spec_tag()[2] != b.spec_tag()[2]);
    }
}

/// The two isolation modes have different tags.
pub proof fn lemma_mode_tags_differ(a: IsolationMode, b: IsolationMode)
    requires
        a != b,
    ensures
        a.spec_tag() != b.spec_tag(),
{
    reveal_strlit("branch");
    reveal_strlit("worktree");
    assert(a.spec_tag().len() != b.spec_tag().len());
}

/// The tag under which an isolation mode is stored.
pub fn isolation_mode_to_str(mode: IsolationMode) -> (tag: &'static str)
    ensures
        tag@ == mode.spec_tag(),
{
    mode.as_str()
}

/// The isolation mode stored under the tag `value`; a `State` error for a
/// text that is no tag.
pub fn isolation_mode_from_str(value: &str) -> (parsed: Result<IsolationMode, RembrandtError>)
    ensures
        match parsed {
            Ok(mode) => value@ == mode.spec_tag(),
            Err(error) => {
                &&& forall|mode: IsolationMode| value@ != #[trigger] mode.spec_tag()
                &&& error matches RembrandtError::State(message) && message@
                    == "unknown isolation mode '"@ + value@ + "'"@
            },
        },
{
    if same_text(value, "branch") {
        Ok(IsolationMode::Branch)
    } else if same_text(value, "worktree") {
        Ok(IsolationMode::Worktree)
    } else {
        let mut message = join_text("unknown isolation mode '", value);
        message.append("'");
        Err(RembrandtError::State(message))
    }
}

/// The text of the error for a stored instant that cannot be read.
pub open spec fn spec_invalid_timestamp(value: Seq<char>, reason: Seq<char>) -> Seq<char> {
    "invalid timestamp '"@ + value + "': "@ + reason
}

/// The instant stored as the text `value`; a `State` error that quotes the
/// text for one that is not RFC 3339.
pub fn parse_rfc3339(value: &str) -> (parsed: Result<Timestamp, RembrandtError>)
    ensures
        match parsed {
            Ok(at) => rfc3339_instant(value@) == Some((at.secs as int, at.nanos as int)),
            Err(error) => {
                &&& rfc3339_instant(value@) is None
                &&& error matches RembrandtError::State(message) && exists|reason: Seq<char>|
                    message@ == #[trigger] spec_invalid_timestamp(value@, reason)
            },
        },
{
    match Timestamp::parse_rfc3339(value) {
        Ok(at) => Ok(at),
        Err(reason) => {
            let mut message = join_text("invalid timestamp '", value);
            message.append("': ");
            message.append(reason.as_str());
            assert(message@ == spec_invalid_timestamp(value@, reason@));
            Err(RembrandtError::State(message))
        },
    }
}

/// Persisted session record.
#[derive(Debug)]
pub struct SessionRecord {
    pub agent_id: String,
    pub runtime_kind: String,
    pub runtime_session_id: Option<String>,
    pub isolation_mode: IsolationMode,
    pub branch_name: String,
    pub checkout_path: String,
    pub task_id: Option<String>,
    pub status: SessionStatus,
    pub model: Option<String>,
    pub created_at: Timestamp,
    pub updated_at: Timestamp,
}

impl Clone for SessionRecord {
    fn clone(&self) -> (copy: Self)
        ensures
            copy == *self,
    {
        SessionRecord {
            agent_id: self.agent_id.clone(),
            runtime_kind: self.runtime_kind.clone(),
            runtime_session_id: clone_opt_text(&self.runtime_session_id),
            isolation_mode: self.isolation_mode,
            branch_name: self.branch_name.clone(),
            checkout_path: self.checkout_path.clone(),
            task_id: clone_opt_text(&self.task_id),
            status: self.status,
            model: clone_opt_text(&self.model),
            created_at: self.created_at,
            updated_at: self.updated_at,
        }
    }
}

/// The text of an optional string.
pub open spec fn opt_text(value: Option<String>) -> Option<Seq<char>> {
    match value {
        Some(text) => Some(text@),
        None => None,
    }
}

impl SessionRecord {
    /// Whether two records say the same, field by field.
    pub open spec fn same_as(&self, other: &SessionRecord) -> bool {
        &&& self.agent_id@ == other.agent_id@
        &&& self.runtime_kind@ == other.runtime_kind@
        &&& opt_text(self.runtime_session_id) == opt_text(other.runtime_session_id)
        &&& self.isolation_mode == other.isolation_mode
        &&& self.branch_name@ == other.branch_name@
        &&& self.checkout_path@ == other.checkout_path@
        &&& opt_text(self.task_id) == opt_text(other.task_id)
        &&& self.status == other.status
        &&& opt_text(self.model) == opt_text(other.model)
        &&& self.created_at == other.created_at
        &&& self.updated_at == other.updated_at
    }

    /// Whether the record can be stored and read back: both instants have
    /// an RFC 3339 text that denotes them.
    pub open spec fn storable(&self) -> bool {
        self.created_at.round_trips() && self.updated_at.round_trips()
    }

    /// Whether the record can be stored and read back. The text of both
    /// instants is written and read to find out.
    #[verifier::when_used_as_spec(storable)]
    pub fn is_storable(&self) -> (storable: bool)
        ensures
            storable == self.storable(),
    {
        self.created_at.survives_storage() && self.updated_at.survives_storage()
    }
}

/// A value sent to or received from the database.
#[derive(Debug)]
pub enum SqlValue {
    /// SQL `NULL`.
    Null,
    /// A text.
    Text(String),
}

impl SqlValue {
    /// The value as a plain description: none for `NULL`, the text
    /// otherwise.
    pub open spec fn spec_text(&self) -> Option<Seq<char>> {
        match self {
            SqlValue::Null => None,
            SqlValue::Text(text) => Some(text@),
        }
    }
}

/// What each of `cells` holds.
pub open spec fn cell_texts(cells: Seq<SqlValue>) -> Seq<Option<Seq<char>>> {
    Seq::new(cells.len(), |i: int| cells[i].spec_text())
}

/// A statement for the database: its SQL text, and the values bound to its
/// numbered parameters, in order.
#[derive(Debug)]
pub struct Statement {
    pub sql: &'static str,
    pub params: Vec<SqlValue>,
}

impl Statement {
    /// Whether this is the statement `sql` with parameters that hold
    /// `values`, in order.
    pub open spec fn is(&self, sql: Seq<char>, values: Seq<Option<Seq<char>>>) -> bool {
        self.sql@ == sql && cell_texts(self.params@) == values
    }
}

/// Creates the tables of the store unless they exist, and turns on
/// write-ahead logging so that readers are not blocked.
pub const SCHEMA_SQL: &'static str =
    "
PRAGMA journal_mode = WAL;

CREATE TABLE IF NOT EXISTS schema_migrations (
  version INTEGER PRIMARY KEY,
  applied_at TEXT NOT NULL
);

CREATE TABLE IF NOT EXISTS sessions (
  agent_id TEXT PRIMARY KEY,
  runtime_kind TEXT NOT NULL,
  runtime_session_id TEXT,
  isolation_mode TEXT NOT NULL,
  branch_name TEXT NOT NULL,
  checkout_path TEXT NOT NULL,
  task_id TEXT,
  status TEXT NOT NULL,
  model TEXT,
  created_at TEXT NOT NULL,
  updated_at TEXT NOT NULL
);

CREATE TABLE IF NOT EXISTS file_claims (
  id INTEGER PRIMARY KEY AUTOINCREMENT,
  agent_id TEXT NOT NULL,
  path TEXT NOT NULL,
  created_at TEXT NOT NULL
);

CREATE TABLE IF NOT EXISTS heartbeats (
  agent_id TEXT PRIMARY KEY,
  last_seen_at TEXT NOT NULL,
  detail TEXT
);

CREATE TABLE IF NOT EXISTS event_runs (
  id INTEGER PRIMARY KEY AUTOINCREMENT,
  started_at TEXT NOT NULL,
  completed_at TEXT,
  status TEXT NOT NULL,
  summary TEXT
);

CREATE TABLE IF NOT EXISTS events (
  id INTEGER PRIMARY KEY AUTOINCREMENT,
  run_id INTEGER,
  agent_id TEXT,
  kind TEXT NOT NULL,
  message TEXT NOT NULL,
  created_at TEXT NOT NULL
);
";

/// Records that the first version of the schema is in place.
pub const MIGRATION_SQL: &'static str =
    "INSERT OR IGNORE INTO schema_migrations(version, applied_at) VALUES(1, ?1)";

/// Inserts a session, or updates every field but `created_at` of the
/// session that the agent already has.
pub const UPSERT_SESSION_SQL: &'static str =
    "
INSERT INTO sessions (
  agent_id, runtime_kind, runtime_session_id, isolation_mode, branch_name,
  checkout_path, task_id, status, model, created_at, updated_at
) VALUES (?1, ?2, ?3, ?4, ?5, ?6, ?7, ?8, ?9, ?10, ?11)
ON CONFLICT(agent_id) DO UPDATE SET
  runtime_kind = excluded.runtime_kind,
  runtime_session_id = excluded.runtime_session_id,
  isolation_mode = excluded.isolation_mode,
  branch_name = excluded.branch_name,
  checkout_path = excluded.checkout_path,
  task_id = excluded.task_id,
  status = excluded.status,
  model = excluded.model,
  updated_at = excluded.updated_at
";

/// Selects the session of one agent.
pub const GET_SESSION_SQL: &'static str =
    "
SELECT agent_id, runtime_kind, runtime_session_id, isolation_mode, branch_name,
       checkout_path, task_id, status, model, created_at, updated_at
FROM sessions WHERE agent_id = ?1
";

/// Selects every session, the most recently updated first.
pub const LIST_SESSIONS_SQL: &'static str =
    "
SELECT agent_id, runtime_kind, runtime_session_id, isolation_mode, branch_name,
       checkout_path, task_id, status, model, created_at, updated_at
FROM sessions
ORDER BY updated_at DESC
";

/// Sets the status of a session and the time of the update.
pub const UPDATE_STATUS_SQL: &'static str =
    "UPDATE sessions SET status = ?1, updated_at = ?2 WHERE agent_id = ?3";

/// Records when an agent was last seen.
pub const TOUCH_HEARTBEAT_SQL: &'static str =
    "
INSERT INTO heartbeats(agent_id, last_seen_at, detail) VALUES (?1, ?2, ?3)
ON CONFLICT(agent_id) DO UPDATE SET
  last_seen_at = excluded.last_seen_at,
  detail = excluded.detail
";

/// The number of columns of a session row.
pub const SESSION_COLUMNS: usize = 11;

/// The cells of the row that stores `record`, in column order.
pub open spec fn spec_session_row(record: SessionRecord) -> Seq<Option<Seq<char>>> {
    seq![
        Some(record.agent_id@),
        Some(record.runtime_kind@),
        opt_text(record.runtime_session_id),
        Some(record.isolation_mode.spec_tag()),
        Some(record.branch_name@),
        Some(record.checkout_path@),
        opt_text(record.task_id),
        Some(record.status.spec_tag()),
        opt_text(record.model),
        record.created_at.spec_to_rfc3339(),
        record.updated_at.spec_to_rfc3339(),
    ]
}

/// Whether `record` is what the row `cells` stores.
pub open spec fn row_stores(cells: Seq<Option<Seq<char>>>, record: SessionRecord) -> bool {
    &&& cells.len() == SESSION_COLUMNS
    &&& cells[0] == Some(record.agent_id@)
    &&& cells[1] == Some(record.runtime_kind@)
    &&& cells[2] == opt_text(record.runtime_session_id)
    &&& cells[3] == Some(record.isolation_mode.spec_tag())
    &&& cells[4] == Some(record.branch_name@)
    &&& cells[5] == Some(record.checkout_path@)
    &&& cells[6] == opt_text(record.task_id)
    &&& cells[7] == Some(record.status.spec_tag())
    &&& cells[8] == opt_text(record.model)
    &&& cells[9] matches Some(created) && rfc3339_instant(created) == Some(
        (record.created_at.secs as int, record.created_at.nanos as int),
    )
    &&& cells[10] matches Some(updated) && rfc3339_instant(updated) == Some(
        (record.updated_at.secs as int, record.updated_at.nanos as int),
    )
}

/// Whether the row `cells` stores a record at all: it has eleven cells,
/// the required ones hold text, the tags are known and the instants are
/// RFC 3339.
pub open spec fn row_is_readable(cells: Seq<Option<Seq<char>>>) -> bool {
    &&& cells.len() == SESSION_COLUMNS
    &&& cells[0] is Some
    &&& cells[1] is Some
    &&& cells[3] matches Some(mode) && exists|m: IsolationMode| mode == #[trigger] m.spec_tag()
    &&& cells[4] is Some
    &&& cells[5] is Some
    &&& cells[7] matches Some(status) && exists|s: SessionStatus| status == #[trigger] s.spec_tag()
    &&& cells[9] matches Some(created) && rfc3339_instant(created) is Some
    &&& cells[10] matches Some(updated) && rfc3339_instant(updated) is Some
}

fn text_cell(text: &str) -> (cell: SqlValue)
    ensures
        cell.spec_text() == Some(text@),
{
    SqlValue::Text(String::from_str(text))
}

fn optional_cell(text: &Option<String>) -> (cell: SqlValue)
    ensures
        cell.spec_text() == opt_text(*text),
{
    match text {
        Some(t) => SqlValue::Text(t.clone()),
        None => SqlValue::Null,
    }
}

fn timestamp_cell(at: &Timestamp) -> (cell: Result<SqlValue, RembrandtError>)
    ensures
        match cell {
            Ok(value) => value.spec_text() is Some && value.spec_text() == at.spec_to_rfc3339(),
            Err(error) => at.spec_to_rfc3339() is None && error is State,
        },
{
    match at.to_rfc3339() {
        Some(text) => Ok(SqlValue::Text(text)),
        None => Err(
            RembrandtError::State(String::from_str("timestamp outside the range of the calendar")),
        ),
    }
}

/// The text that the cell at `index` must hold; a `Database` error for a
/// missing cell or a `NULL`.
fn required_text(cells: &Vec<SqlValue>, index: usize) -> (text: Result<&str, RembrandtError>)
    ensures
        match text {
            Ok(t) => index < cells@.len() && cells@[index as int].spec_text() == Some(t@),
            Err(error) => (index >= cells@.len() || cells@[index as int].spec_text() is None)
                && error is Database,
        },
{
    if index < cells.len() {
        match &cells[index] {
            SqlValue::Text(t) => Ok(t.as_str()),
            SqlValue::Null => Err(
                RembrandtError::Database(String::from_str("unexpected NULL in a session row")),
            ),
        }
    } else {
        Err(RembrandtError::Database(String::from_str("a session row has too few columns")))
    }
}

/// The text that the cell at `index` may hold.
fn optional_text(cells: &Vec<SqlValue>, index: usize) -> (text: Option<String>)
    requires
        index < cells@.len(),
    ensures
        opt_text(text) == cells@[index as int].spec_text(),
{
    match &cells[index] {
        SqlValue::Text(t) => Some(t.clone()),
        SqlValue::Null => None,
    }
}

/// An error raised while a row is read, as the database error that the
/// caller sees: the detail is kept.
fn as_database_error(error: RembrandtError) -> (wrapped: RembrandtError)
    ensures
        wrapped matches RembrandtError::Database(detail) && detail@ == error.spec_detail(),
{
    RembrandtError::Database(String::from_str(error.detail()))
}

/// SQLite-backed state store.
#[derive(Debug)]
pub struct StateStore {
    db_path: String,
}

impl StateStore {
    pub closed spec fn spec_db_path(&self) -> Seq<char> {
        self.db_path@
    }

    /// The store of the repository at `repo_path`: the database
    /// `.rembrandt/state.db` below it. Before the store is used, the
    /// directory must exist and [`Self::init_schema`] must have been
    /// carried out.
    pub fn open(repo_path: &str) -> (store: Self)
        ensures
            store.spec_db_path() == repo_path@ + "/.rembrandt/state.db"@,
    {
        StateStore { db_path: join_text(repo_path, "/.rembrandt/state.db") }
    }

    /// The path of the database file.
    pub fn db_path(&self) -> (path: &str)
        ensures
            path@ == self.spec_db_path(),
    {
        self.db_path.as_str()
    }

    /// The statements that bring the schema into place, to be carried out
    /// in order at `now`: the batch that creates the tables, and the record
    /// of the migration. Both can be repeated without harm.
    pub fn init_schema(&self, now: &Timestamp) -> (statements: Result<Vec<Statement>, RembrandtError>)
        ensures
            match statements {
                Ok(list) => {
                    &&& now.spec_to_rfc3339() is Some
                    &&& list@.len() == 2
                    &&& list@[0].is(SCHEMA_SQL@, Seq::empty())
                    &&& list@[1].is(MIGRATION_SQL@, seq![now.spec_to_rfc3339()])
                },
                Err(error) => now.spec_to_rfc3339() is None && error is State,
            },
    {
        let applied_at = timestamp_cell(now)?;
        let mut params: Vec<SqlValue> = Vec::new();
        params.push(applied_at);
        let mut list: Vec<Statement> = Vec::new();
        list.push(Statement { sql: SCHEMA_SQL, params: Vec::new() });
        list.push(Statement { sql: MIGRATION_SQL, params });
        proof {
            assert(cell_texts(list@[0].params@) =~= Seq::empty());
            assert(cell_texts(list@[1].params@) =~= seq![now.spec_to_rfc3339()]);
        }
        Ok(list)
    }

    /// The statement that stores `record`: a new row for an agent without
    /// one, otherwise an update of every field but `created_at`. Fails
    /// with a `State` error when an instant of the record has no text.
    pub fn upsert_session(&self, record: &SessionRecord) -> (statement: Result<
        Statement,
        RembrandtError,
    >)
        ensures
            match statement {
                Ok(s) => {
                    &&& record.created_at.spec_to_rfc3339() is Some
                    &&& record.updated_at.spec_to_rfc3339() is Some
                    &&& s.is(UPSERT_SESSION_SQL@, spec_session_row(*record))
                },
                Err(error) => (record.created_at.spec_to_rfc3339() is None
                    || record.updated_at.spec_to_rfc3339() is None) && error is State,
            },
    {
        let created_at = timestamp_cell(&record.created_at)?;
        let updated_at = timestamp_cell(&record.updated_at)?;
        let mut params: Vec<SqlValue> = Vec::new();
        params.push(text_cell(record.agent_id.as_str()));
        params.push(text_cell(record.runtime_kind.as_str()));
        params.push(optional_cell(&record.runtime_session_id));
        params.push(text_cell(isolation_mode_to_str(record.isolation_mode)));
        params.push(text_cell(record.branch_name.as_str()));
        params.push(text_cell(record.checkout_path.as_str()));
        params.push(optional_cell(&record.task_id));
        params.push(text_cell(record.status.as_str()));
        params.push(optional_cell(&record.model));
        params.push(created_at);
        params.push(updated_at);
        assert(cell_texts(params@) =~= spec_session_row(*record));
        Ok(Statement { sql: UPSERT_SESSION_SQL, params })
    }

    /// The statement that selects the session of `agent_id`; read its row,
    /// if it has one, with [`Self::read_session`].
    pub fn get_session(&self, agent_id: &str) -> (statement: Statement)
        ensures
            statement.is(GET_SESSION_SQL@, seq![Some(agent_id@)]),
    {
        let mut params: Vec<SqlValue> = Vec::new();
        params.push(text_cell(agent_id));
        assert(cell_texts(params@) =~= seq![Some(agent_id@)]);
        Statement { sql: GET_SESSION_SQL, params }
    }

    /// The statement that selects every session, the most recently updated
    /// first; read its rows with [`Self::read_sessions`].
    pub fn list_sessions(&self) -> (statement: Statement)
        ensures
            statement.is(LIST_SESSIONS_SQL@, Seq::empty()),
    {
        let params: Vec<SqlValue> = Vec::new();
        assert(cell_texts(params@) =~= Seq::empty());
        Statement { sql: LIST_SESSIONS_SQL, params }
    }

    /// The statement that sets the status of the session of `agent_id`
    /// and marks it as updated at `now`.
    pub fn update_status(&self, agent_id: &str, status: SessionStatus, now: &Timestamp) -> (statement:
        Result<Statement, RembrandtError>)
        ensures
            match statement {
                Ok(s) => now.spec_to_rfc3339() is Some && s.is(
                    UPDATE_STATUS_SQL@,
                    seq![Some(status.spec_tag()), now.spec_to_rfc3339(), Some(agent_id@)],
                ),
                Err(error) => now.spec_to_rfc3339() is None && error is State,
            },
    {
        let updated_at = timestamp_cell(now)?;
        let mut params: Vec<SqlValue> = Vec::new();
        params.push(text_cell(status.as_str()));
        params.push(updated_at);
        params.push(text_cell(agent_id));
        assert(cell_texts(params@) =~= seq![
            Some(status.spec_tag()),
            now.spec_to_rfc3339(),
            Some(agent_id@),
        ]);
        Ok(Statement { sql: UPDATE_STATUS_SQL, params })
    }

    /// The statement that records that `agent_id` was seen at `now`, with
    /// an optional note on what it was seen doing.
    pub fn touch_heartbeat(&self, agent_id: &str, detail: Option<&str>, now: &Timestamp) -> (statement:
        Result<Statement, RembrandtError>)
        ensures
            match statement {
                Ok(s) => now.spec_to_rfc3339() is Some && s.is(
                    TOUCH_HEARTBEAT_SQL@,
                    seq![
                        Some(agent_id@),
                        now.spec_to_rfc3339(),
                        match detail {
                            Some(d) => Some(d@),
                            None => None,
                        },
                    ],
                ),
                Err(error) => now.spec_to_rfc3339() is None && error is State,
            },
    {
        let last_seen_at = timestamp_cell(now)?;
        let mut params: Vec<SqlValue> = Vec::new();
        params.push(text_cell(agent_id));
        params.push(last_seen_at);
        params.push(
            match detail {
                Some(d) => text_cell(d),
                None => SqlValue::Null,
            },
        );
        assert(cell_texts(params@) =~= seq![
            Some(agent_id@),
            now.spec_to_rfc3339(),
            match detail {
                Some(d) => Some(d@),
                None => None,
            },
        ]);
        Ok(Statement { sql: TOUCH_HEARTBEAT_SQL, params })
    }

    /// Read a session row, in the column order of [`Self::get_session`].
    /// A row that stores no record gives a `Database` error.
    pub fn read_row(cells: &Vec<SqlValue>) -> (record: Result<SessionRecord, RembrandtError>)
        ensures
            match record {
                Ok(r) => row_stores(cell_texts(cells@), r),
                Err(error) => !row_is_readable(cell_texts(cells@)) && error is Database,
            },
    {
        let ghost texts = cell_texts(cells@);
        if cells.len() != SESSION_COLUMNS {
            return Err(
                RembrandtError::Database(String::from_str("a session row has eleven columns")),
            );
        }
        assert forall|i: int| 0 <= i < cells@.len() implies texts[i] == cells@[i].spec_text() by {}
        let agent_id = required_text(cells, 0)?;
        let runtime_kind = required_text(cells, 1)?;
        let mode_tag = required_text(cells, 3)?;
        let isolation_mode = match isolation_mode_from_str(mode_tag) {
            Ok(mode) => mode,
            Err(e) => {
                return Err(as_database_error(e));
            },
        };
        let branch_name = required_text(cells, 4)?;
        let checkout_path = required_text(cells, 5)?;
        let status_tag = required_text(cells, 7)?;
        let status = match SessionStatus::from_str(status_tag) {
            Ok(status) => status,
            Err(e) => {
                return Err(as_database_error(e));
            },
        };
        let created_text = required_text(cells, 9)?;
        let created_at = match parse_rfc3339(created_text) {
            Ok(at) => at,
            Err(e) => {
                return Err(as_database_error(e));
            },
        };
        let updated_text = required_text(cells, 10)?;
        let updated_at = match parse_rfc3339(updated_text) {
            Ok(at) => at,
            Err(e) => {
                return Err(as_database_error(e));
            },
        };
        Ok(
            SessionRecord {
                agent_id: String::from_str(agent_id),
                runtime_kind: String::from_str(runtime_kind),
                runtime_session_id: optional_text(cells, 2),
                isolation_mode,
                branch_name: String::from_str(branch_name),
                checkout_path: String::from_str(checkout_path),
                task_id: optional_text(cells, 6),
                status,
                model: optional_text(cells, 8),
                created_at,
                updated_at,
            },
        )
    }

    /// Read what [`Self::get_session`] found: no record where there is no
    /// row, the record of the row otherwise.
    pub fn read_session(&self, row: &Option<Vec<SqlValue>>) -> (record: Result<
        Option<SessionRecord>,
        RembrandtError,
    >)
        ensures
            match *row {
                None => record == Ok::<Option<SessionRecord>, RembrandtError>(None),
                Some(cells) => match record {
                    Ok(found) => found matches Some(r) && row_stores(cell_texts(cells@), r),
                    Err(error) => !row_is_readable(cell_texts(cells@)) && error is Database,
                },
            },
    {
        match row {
            None => Ok(None),
            Some(cells) => match StateStore::read_row(cells) {
                Ok(record) => Ok(Some(record)),
                Err(e) => Err(e),
            },
        }
    }

    /// Read what [`Self::list_sessions`] found: the record of every row, in
    /// the order of the rows. One row that stores no record fails the
    /// whole listing.
    pub fn read_sessions(&self, rows: &Vec<Vec<SqlValue>>) -> (records: Result<
        Vec<SessionRecord>,
        RembrandtError,
    >)
        ensures
            match records {
                Ok(list) => list@.len() == rows@.len() && forall|i: int|
                    0 <= i < rows@.len() ==> row_stores(
                        cell_texts((#[trigger] rows@[i])@),
                        list@[i],
                    ),
                Err(error) => error is Database && exists|i: int|
                    0 <= i < rows@.len() && !row_is_readable(
                        cell_texts((#[trigger] rows@[i])@),
                    ),
            },
    {
        let mut list: Vec<SessionRecord> = Vec::new();
        let mut i: usize = 0;
        while i < rows.len()
            invariant
                i <= rows@.len(),
                list@.len() == i,
                forall|k: int|
                    0 <= k < i ==> row_stores(cell_texts((#[trigger] rows@[k])@), list@[k]),
            decreases rows.len() - i,
        {
            match StateStore::read_row(&rows[i]) {
                Ok(record) => {
                    list.push(record);
                },
                Err(e) => {
                    assert(!row_is_readable(cell_texts(rows@[i as int]@)));
                    return Err(e);
                },
            }
            i = i + 1;
        }
        Ok(list)
    }
}

/// The stored form round-trips. The row that `upsert_session` sends for a
/// storable record is readable, and every record read from it says the
/// same as the record that was stored.
pub proof fn lemma_row_round_trip(record: SessionRecord, read: SessionRecord)
    requires
        record.storable(),
        row_stores(spec_session_row(record), read),
    ensures
        row_is_readable(spec_session_row(record)),
        read.same_as(&record),
{
    let row = spec_session_row(record);
    assert(row[3] == Some(record.isolation_mode.spec_tag()));
    assert(row[7] == Some(record.status.spec_tag()));
    if read.isolation_mode != record.isolation_mode {
        lemma_mode_tags_differ(read.isolation_mode, record.isolation_mode);
    }
    if read.status != record.status {
        lemma_status_tags_differ(read.status, record.status);
    }
}

/// The record as it reads back from the row that stores it; none for a
/// record that is not storable, because an instant of it has no text or
/// its text denotes another instant.
///
/// For every storable record, what is read says the same as the record,
/// field by field.
pub fn read_back(store: &StateStore, record: &SessionRecord) -> (read: Option<SessionRecord>)
    ensures
        match read {
            Some(r) => record.storable() && r.same_as(record),
            None => !record.storable(),
        },
{
    if !record.is_storable() {
        return None;
    }
    match store.upsert_session(record) {
        Ok(statement) => match StateStore::read_row(&statement.params) {
            Ok(read) => {
                proof {
                    lemma_row_round_trip(*record, read);
                }
                Some(read)
            },
            Err(_) => {
                proof {
                    // The row of a storable record is readable.
                    let row = spec_session_row(*record);
                    assert(row_is_readable(row)) by {
                        assert(row[3] == Some(record.isolation_mode.spec_tag()));
                        assert(row[7] == Some(record.status.spec_tag()));
                    }
                }
                None
            },
        },
        Err(_) => None,
    }
}

} // verus!
