//! The persistence layer: which statements the application sends to its
//! SQLite store, and what it makes of the rows that come back.
//!
//! Nothing here touches the store. Every operation hands out the
//! statements to run, in their order, and takes the rows of a query as
//! plain values.

pub mod agents;
pub mod config;
pub mod documents;
pub mod like;
pub mod projects;
pub mod providers;
pub mod workspaces;

use crate::error::StoreError;
use crate::sql::{Param, ParamView, Statement, StatementView};
use crate::strings::owned;
use crate::time::{rfc3339_text, Timestamp};
use vstd::prelude::*;
use vstd::string::*;

verus! {

/// The directory of the application below the user's data directory.
pub const DATA_DIRECTORY: &'static str = "writeflow-studio";

/// The file of the store within [`DATA_DIRECTORY`].
pub const DATABASE_FILE: &'static str = "writeflow.db";

/// How a statement starts that makes a table unless the table is there.
pub const CREATE_TABLE_IF_ABSENT: &'static str = "CREATE TABLE IF NOT EXISTS ";

/// The name of the table of workspaces.
pub const WORKSPACES: &'static str = "workspaces";

/// The columns of the table [`WORKSPACES`].
pub const WORKSPACES_COLUMNS: &'static str =
    "id TEXT PRIMARY KEY, name TEXT NOT NULL, description TEXT NOT NULL, projects_count INTEGER NOT NULL DEFAULT 0, status TEXT NOT NULL, created_at TEXT NOT NULL, updated_at TEXT NOT NULL, last_accessed TEXT NOT NULL";

/// The name of the table of projects.
pub const PROJECTS: &'static str = "projects";

/// The columns of the table [`PROJECTS`].
pub const PROJECTS_COLUMNS: &'static str =
    "id TEXT PRIMARY KEY, name TEXT NOT NULL, description TEXT NOT NULL, icon TEXT NOT NULL, color TEXT NOT NULL, status TEXT NOT NULL, progress INTEGER NOT NULL DEFAULT 0, documents_count INTEGER NOT NULL DEFAULT 0, words_count INTEGER NOT NULL DEFAULT 0, workspace_id TEXT NOT NULL, created_at TEXT NOT NULL, updated_at TEXT NOT NULL, FOREIGN KEY (workspace_id) REFERENCES workspaces (id)";

/// The name of the table of documents.
pub const DOCUMENTS: &'static str = "documents";

/// The columns of the table [`DOCUMENTS`].
pub const DOCUMENTS_COLUMNS: &'static str =
    "id TEXT PRIMARY KEY, title TEXT NOT NULL, content TEXT NOT NULL, content_type TEXT NOT NULL, status TEXT NOT NULL, word_count INTEGER NOT NULL DEFAULT 0, char_count INTEGER NOT NULL DEFAULT 0, project_id TEXT NOT NULL, folder_path TEXT, tags TEXT, metadata TEXT NOT NULL, created_at TEXT NOT NULL, updated_at TEXT NOT NULL, last_accessed TEXT NOT NULL, FOREIGN KEY (project_id) REFERENCES projects (id)";

/// The name of the table that holds the settings.
pub const CONFIG: &'static str = "config";

/// The columns of the table [`CONFIG`].
pub const CONFIG_COLUMNS: &'static str =
    "id INTEGER PRIMARY KEY, config_data TEXT NOT NULL, updated_at TEXT NOT NULL";

/// The name of the table of agents.
pub const AGENTS: &'static str = "agents";

/// The columns of the table [`AGENTS`].
pub const AGENTS_COLUMNS: &'static str =
    "id TEXT PRIMARY KEY, name TEXT NOT NULL, category TEXT NOT NULL, version TEXT NOT NULL, enabled INTEGER NOT NULL DEFAULT 1, description TEXT, tags TEXT NOT NULL";

/// The name of the table of AI back ends.
pub const AI_PROVIDERS: &'static str = "ai_providers";

/// The columns of the table [`AI_PROVIDERS`].
pub const AI_PROVIDERS_COLUMNS: &'static str =
    "id TEXT PRIMARY KEY, name TEXT NOT NULL, model_name TEXT NOT NULL, api_key TEXT NOT NULL, base_url TEXT, icon TEXT NOT NULL, bg_color TEXT NOT NULL, status TEXT NOT NULL, status_text TEXT NOT NULL, max_tokens INTEGER NOT NULL, context_length INTEGER NOT NULL, last_tested TEXT NOT NULL, description TEXT, priority INTEGER NOT NULL, model_pointer TEXT";

/// A statement without placeholders.
pub open spec fn plain(sql: Seq<char>) -> StatementView {
    StatementView { sql, params: Seq::empty() }
}

/// The statement that makes the table `name` with the columns `columns`
/// unless the table is there. It leaves a table that is there, and what it
/// holds, as it is.
pub open spec fn table_creation(name: Seq<char>, columns: Seq<char>) -> StatementView {
    plain(CREATE_TABLE_IF_ABSENT@ + name + " ("@ + columns + ")"@)
}

/// The RFC 3339 text of an instant, bound as a text.
pub open spec fn instant(t: Timestamp) -> ParamView {
    ParamView::Text(rfc3339_text(t.seconds(), t.subsec_nanos()))
}

/// A row that holds one record.
pub trait StoredRow {
    /// The record that the row holds.
    type Record;

    /// What keeps the row from being read, if anything does.
    spec fn fault(&self) -> Option<StoreError>;

    /// Tells whether `record` is what a row without fault holds.
    spec fn holds(&self, record: Self::Record) -> bool;

    /// Reads the row.
    fn decode(&self) -> (r: Result<Self::Record, StoreError>)
        ensures
            match r {
                Ok(record) => self.fault() is None && self.holds(record),
                Err(e) => self.fault() == Some(e),
            },
    ;
}

/// Tells whether `r` is what reading `rows` in their order gives: all the
/// records, or the fault of the first row that cannot be read.
pub open spec fn all_decoded<R: StoredRow>(
    rows: Seq<R>,
    r: Result<Vec<R::Record>, StoreError>,
) -> bool {
    match r {
        Ok(records) => records@.len() == rows.len() && forall|i: int|
            0 <= i < rows.len() ==> (#[trigger] rows[i].fault()) is None && rows[i].holds(
                records@[i],
            ),
        Err(e) => exists|i: int|
            0 <= i < rows.len() && #[trigger] rows[i].fault() == Some(e) && forall|j: int|
                0 <= j < i ==> (#[trigger] rows[j].fault()) is None,
    }
}

/// Reads `rows` in their order. The first row that cannot be read fails
/// the whole.
pub fn read_all<R: StoredRow>(rows: &Vec<R>) -> (r: Result<Vec<R::Record>, StoreError>)
    ensures
        all_decoded(rows@, r),
{
    let mut records: Vec<R::Record> = Vec::new();
    let mut i: usize = 0;
    while i < rows.len()
        invariant
            i <= rows@.len(),
            records@.len() == i,
            forall|k: int|
                0 <= k < i ==> (#[trigger] rows@[k].fault()) is None && rows@[k].holds(
                    records@[k],
                ),
        decreases rows@.len() - i,
    {
        match rows[i].decode() {
            Ok(record) => {
                records.push(record);
            },
            Err(e) => {
                assert(rows@[i as int].fault() == Some(e));
                return Err(e);
            },
        }
        i = i + 1;
    }
    Ok(records)
}

/// The persistence layer.
#[derive(Clone, Copy, Debug, PartialEq, Eq, Structural)]
pub struct Database;

impl Database {
    /// A statement with the single placeholder `id`.
    pub open spec fn by_id(sql: Seq<char>, id: Seq<char>) -> StatementView {
        StatementView { sql, params: seq![ParamView::Text(id)] }
    }

    /// The persistence layer.
    pub fn new() -> (db: Database)
        ensures
            db == Database,
    {
        Database
    }

    /// The address under which the store in the file `path` is opened:
    /// for reading and writing, and made if it is not there.
    pub fn database_url(path: &str) -> (url: String)
        ensures
            url@ == "sqlite:"@ + path@ + "?mode=rwc"@,
    {
        let mut url = owned("sqlite:");
        url.append(path);
        url.append("?mode=rwc");
        url
    }

    /// The statements that make the six tables unless they are there, so
    /// that they can run at every start and never touch what is stored.
    pub fn init_tables(&self) -> (statements: Vec<Statement>)
        ensures
            statements@.map_values(|s: Statement| s@) == seq![
                table_creation(WORKSPACES@, WORKSPACES_COLUMNS@),
                table_creation(PROJECTS@, PROJECTS_COLUMNS@),
                table_creation(DOCUMENTS@, DOCUMENTS_COLUMNS@),
                table_creation(CONFIG@, CONFIG_COLUMNS@),
                table_creation(AGENTS@, AGENTS_COLUMNS@),
                table_creation(AI_PROVIDERS@, AI_PROVIDERS_COLUMNS@),
            ],
    {
        let mut statements: Vec<Statement> = Vec::new();
        statements.push(Database::create_table(WORKSPACES, WORKSPACES_COLUMNS));
        statements.push(Database::create_table(PROJECTS, PROJECTS_COLUMNS));
        statements.push(Database::create_table(DOCUMENTS, DOCUMENTS_COLUMNS));
        statements.push(Database::create_table(CONFIG, CONFIG_COLUMNS));
        statements.push(Database::create_table(AGENTS, AGENTS_COLUMNS));
        statements.push(Database::create_table(AI_PROVIDERS, AI_PROVIDERS_COLUMNS));
        assert(statements@.map_values(|s: Statement| s@) =~= seq![
            table_creation(WORKSPACES@, WORKSPACES_COLUMNS@),
            table_creation(PROJECTS@, PROJECTS_COLUMNS@),
            table_creation(DOCUMENTS@, DOCUMENTS_COLUMNS@),
            table_creation(CONFIG@, CONFIG_COLUMNS@),
            table_creation(AGENTS@, AGENTS_COLUMNS@),
            table_creation(AI_PROVIDERS@, AI_PROVIDERS_COLUMNS@),
        ]);
        statements
    }

    /// The statement that makes the table `name` with the columns
    /// `columns` unless the table is there.
    pub fn create_table(name: &str, columns: &str) -> (s: Statement)
        ensures
            s@ == table_creation(name@, columns@),
    {
        let mut sql = owned(CREATE_TABLE_IF_ABSENT);
        sql.append(name);
        sql.append(" (");
        sql.append(columns);
        sql.append(")");
        Statement::plain(sql.as_str())
    }

    pub(crate) fn statement_by_id(sql: &str, id: &str) -> (s: Statement)
        ensures
            s@ == Database::by_id(sql@, id@),
    {
        let mut params: Vec<Param> = Vec::new();
        params.push(Param::text(id));
        let s = Statement::new(sql, params);
        assert(s@.params =~= Database::by_id(sql@, id@).params);
        s
    }
}

} // verus!
