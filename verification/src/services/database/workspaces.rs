//! Workspaces in the store.

use crate::error::StoreError;
use crate::ident::is_random_uuid_text;
use crate::models::workspace::{CreateWorkspaceData, Workspace, WorkspaceStatus};
use crate::services::database::{all_decoded, instant, plain, read_all, Database, StoredRow};
use crate::sql::{Param, ParamView, Plan, Statement, StatementView};
use crate::strings::owned;
use crate::time::Timestamp;
use vstd::prelude::*;

verus! {

/// Stores a workspace.
pub const INSERT_WORKSPACE: &'static str =
    "INSERT INTO workspaces (id, name, description, projects_count, status, created_at, updated_at, last_accessed) VALUES (?1, ?2, ?3, ?4, ?5, ?6, ?7, ?8)";

/// Asks for all workspaces, the one changed last first.
pub const SELECT_WORKSPACES: &'static str = "SELECT * FROM workspaces ORDER BY updated_at DESC";

/// Asks for one workspace.
pub const SELECT_WORKSPACE: &'static str = "SELECT * FROM workspaces WHERE id = ?1";

/// Gives a workspace a new name and description.
pub const UPDATE_WORKSPACE: &'static str =
    "UPDATE workspaces SET name = ?2, description = ?3, updated_at = ?4 WHERE id = ?1";

/// Removes a workspace.
pub const DELETE_WORKSPACE: &'static str = "DELETE FROM workspaces WHERE id = ?1";

/// A row of the table `workspaces`, as the store hands it out.
#[derive(Clone, Debug, PartialEq, Eq)]
pub struct WorkspaceRow {
    pub id: String,
    pub name: String,
    pub description: String,
    pub projects_count: i64,
    pub status: String,
    pub created_at: String,
    pub updated_at: String,
    pub last_accessed: String,
}

impl WorkspaceRow {
    /// What keeps the row from being read: the first instant of the three
    /// that is not RFC 3339.
    pub open spec fn instant_fault(self) -> Option<StoreError> {
        if Timestamp::read(self.created_at@) is None {
            Some(StoreError::InvalidTimestamp(self.created_at))
        } else if Timestamp::read(self.updated_at@) is None {
            Some(StoreError::InvalidTimestamp(self.updated_at))
        } else if Timestamp::read(self.last_accessed@) is None {
            Some(StoreError::InvalidTimestamp(self.last_accessed))
        } else {
            None
        }
    }

    /// What keeps the row from being read when every column must be sound:
    /// a status that is none, or else an instant that is none.
    pub open spec fn strict_fault(self) -> Option<StoreError> {
        if WorkspaceStatus::read(self.status@) is None {
            Some(StoreError::InvalidStatus(self.status))
        } else {
            self.instant_fault()
        }
    }

    /// The workspace that a row without instant fault holds, where `status`
    /// stands for the stored status.
    pub open spec fn workspace(self, status: WorkspaceStatus) -> Workspace {
        Workspace {
            id: self.id,
            name: self.name,
            description: self.description,
            projects_count: self.projects_count as u32,
            status,
            created_at: Timestamp::read(self.created_at@).unwrap(),
            updated_at: Timestamp::read(self.updated_at@).unwrap(),
            last_accessed: Timestamp::read(self.last_accessed@).unwrap(),
        }
    }

    /// What reading the row gives when every column must be sound.
    pub open spec fn strictly_decoded(self) -> Result<Workspace, StoreError> {
        match self.strict_fault() {
            Some(e) => Err(e),
            None => Ok(self.workspace(WorkspaceStatus::read(self.status@).unwrap())),
        }
    }

    /// What reading the row gives when an unreadable status is taken for
    /// the default one.
    pub open spec fn decoded_leniently(self) -> Result<Workspace, StoreError> {
        match self.instant_fault() {
            Some(e) => Err(e),
            None => Ok(
                self.workspace(
                    match WorkspaceStatus::read(self.status@) {
                        Some(status) => status,
                        None => WorkspaceStatus::Active,
                    },
                ),
            ),
        }
    }

    /// A row in which every column is sound is read alike with and
    /// without the default: it only stands in for a status that cannot be
    /// read.
    pub proof fn lemma_sound_rows_read_alike(self)
        requires
            self.strict_fault() is None,
        ensures
            self.strictly_decoded() == self.decoded_leniently(),
    {
    }

    fn with_status(&self, status: WorkspaceStatus) -> (r: Result<Workspace, StoreError>)
        ensures
            r == match self.instant_fault() {
                Some(e) => Err(e),
                None => Ok(self.workspace(status)),
            },
    {
        let created_at = match Timestamp::from_stored(self.created_at.as_str()) {
            Some(t) => t,
            None => { return Err(StoreError::InvalidTimestamp(self.created_at.clone())); },
        };
        let updated_at = match Timestamp::from_stored(self.updated_at.as_str()) {
            Some(t) => t,
            None => { return Err(StoreError::InvalidTimestamp(self.updated_at.clone())); },
        };
        let last_accessed = match Timestamp::from_stored(self.last_accessed.as_str()) {
            Some(t) => t,
            None => { return Err(StoreError::InvalidTimestamp(self.last_accessed.clone())); },
        };
        Ok(
            Workspace {
                id: self.id.clone(),
                name: self.name.clone(),
                description: self.description.clone(),
                projects_count: #[verifier::truncate] (self.projects_count as u32),
                status,
                created_at,
                updated_at,
                last_accessed,
            },
        )
    }

    /// Reads the row; every column must be sound.
    pub fn decode_strictly(&self) -> (r: Result<Workspace, StoreError>)
        ensures
            r == self.strictly_decoded(),
    {
        match WorkspaceStatus::from_stored(self.status.as_str()) {
            Some(status) => self.with_status(status),
            None => Err(StoreError::InvalidStatus(self.status.clone())),
        }
    }

    /// Reads the row; an unreadable status is taken for the default one.
    pub fn decode_leniently(&self) -> (r: Result<Workspace, StoreError>)
        ensures
            r == self.decoded_leniently(),
    {
        match WorkspaceStatus::from_stored(self.status.as_str()) {
            Some(status) => self.with_status(status),
            None => self.with_status(WorkspaceStatus::Active),
        }
    }
}

impl StoredRow for WorkspaceRow {
    type Record = Workspace;

    open spec fn fault(&self) -> Option<StoreError> {
        self.strict_fault()
    }

    open spec fn holds(&self, record: Workspace) -> bool {
        record == self.workspace(WorkspaceStatus::read(self.status@).unwrap())
    }

    fn decode(&self) -> (r: Result<Workspace, StoreError>) {
        self.decode_strictly()
    }
}

impl Database {
    /// The statement that stores the workspace `w`.
    pub open spec fn workspace_insert(w: Workspace) -> StatementView {
        StatementView {
            sql: INSERT_WORKSPACE@,
            params: seq![
                ParamView::Text(w.id@),
                ParamView::Text(w.name@),
                ParamView::Text(w.description@),
                ParamView::Integer(w.projects_count as int),
                ParamView::Text(w.status.stored()),
                instant(w.created_at),
                instant(w.updated_at),
                instant(w.last_accessed),
            ],
        }
    }

    /// The statement that gives the workspace `id` a new name and
    /// description, changed at `now`.
    pub open spec fn workspace_update(
        id: Seq<char>,
        name: Seq<char>,
        description: Seq<char>,
        now: Timestamp,
    ) -> StatementView {
        StatementView {
            sql: UPDATE_WORKSPACE@,
            params: seq![
                ParamView::Text(id),
                ParamView::Text(name),
                ParamView::Text(description),
                instant(now),
            ],
        }
    }

    /// The statement that stores `w`.
    pub fn insert_workspace(w: &Workspace) -> (s: Statement)
        ensures
            s@ == Database::workspace_insert(*w),
    {
        let mut params: Vec<Param> = Vec::new();
        params.push(Param::text(w.id.as_str()));
        params.push(Param::text(w.name.as_str()));
        params.push(Param::text(w.description.as_str()));
        params.push(Param::count(w.projects_count));
        params.push(Param::Text(w.status.to_stored()));
        params.push(Param::Text(w.created_at.to_stored()));
        params.push(Param::Text(w.updated_at.to_stored()));
        params.push(Param::Text(w.last_accessed.to_stored()));
        let s = Statement::new(INSERT_WORKSPACE, params);
        assert(s@.params =~= Database::workspace_insert(*w).params);
        s
    }

    /// Makes a workspace from `data`, under a fresh identifier and stamped
    /// with the current instant, and the statement that stores it.
    pub fn create_workspace(&self, data: CreateWorkspaceData) -> (plan: Plan<Workspace>)
        ensures
            plan.value == Workspace::fresh(data, plan.value.id, plan.value.created_at),
            is_random_uuid_text(plan.value.id@),
            plan.statements@.map_values(|s: Statement| s@) == seq![
                Database::workspace_insert(plan.value),
            ],
    {
        let workspace = Workspace::new(data);
        let mut statements: Vec<Statement> = Vec::new();
        statements.push(Database::insert_workspace(&workspace));
        assert(statements@.map_values(|s: Statement| s@) =~= seq![
            Database::workspace_insert(workspace),
        ]);
        Plan { value: workspace, statements }
    }

    /// The query for all workspaces, the one changed last first.
    pub fn get_workspaces(&self) -> (s: Statement)
        ensures
            s@ == plain(SELECT_WORKSPACES@),
    {
        Statement::plain(SELECT_WORKSPACES)
    }

    /// Reads the rows of [`Database::get_workspaces`], in their order. The
    /// first row that cannot be read fails the whole.
    pub fn read_workspaces(rows: &Vec<WorkspaceRow>) -> (r: Result<Vec<Workspace>, StoreError>)
        ensures
            all_decoded(rows@, r),
    {
        read_all(rows)
    }

    /// The query for the workspace `workspace_id`.
    pub fn get_workspace_by_id(&self, workspace_id: &str) -> (s: Statement)
        ensures
            s@ == Database::by_id(SELECT_WORKSPACE@, workspace_id@),
    {
        Database::statement_by_id(SELECT_WORKSPACE, workspace_id)
    }

    /// Reads the answer to [`Database::get_workspace_by_id`]: no row is no
    /// workspace; in a row, an unreadable status is taken for the default.
    pub fn read_workspace(row: Option<&WorkspaceRow>) -> (r: Result<Option<Workspace>, StoreError>)
        ensures
            r == match row {
                None => Ok::<Option<Workspace>, StoreError>(None),
                Some(row) => match row.decoded_leniently() {
                    Ok(w) => Ok(Some(w)),
                    Err(e) => Err(e),
                },
            },
    {
        match row {
            None => Ok(None),
            Some(row) => match row.decode_leniently() {
                Ok(w) => Ok(Some(w)),
                Err(e) => Err(e),
            },
        }
    }

    /// The statement that gives the workspace `workspace_id` a new name and
    /// description, changed at `now`.
    pub fn update_workspace_at(
        workspace_id: &str,
        name: &str,
        description: &str,
        now: Timestamp,
    ) -> (s: Statement)
        ensures
            s@ == Database::workspace_update(workspace_id@, name@, description@, now),
    {
        let mut params: Vec<Param> = Vec::new();
        params.push(Param::text(workspace_id));
        params.push(Param::text(name));
        params.push(Param::text(description));
        params.push(Param::Text(now.to_stored()));
        let s = Statement::new(UPDATE_WORKSPACE, params);
        assert(s@.params =~= Database::workspace_update(
            workspace_id@,
            name@,
            description@,
            now,
        ).params);
        s
    }

    /// The statement that gives the workspace `workspace_id` a new name and
    /// description, changed at the current instant. The changed workspace
    /// is then read with [`Database::get_workspace_by_id`] and
    /// [`Database::updated_workspace`].
    pub fn update_workspace(&self, workspace_id: &str, name: &str, description: &str) -> (s:
        Statement)
        ensures
            exists|now: Timestamp|
                s@ == Database::workspace_update(workspace_id@, name@, description@, now),
    {
        Database::update_workspace_at(workspace_id, name, description, Timestamp::now())
    }

    /// Reads the workspace `workspace_id` after it was changed; that it is
    /// gone is a failure.
    pub fn updated_workspace(workspace_id: &str, row: Option<&WorkspaceRow>) -> (r: Result<
        Workspace,
        StoreError,
    >)
        ensures
            match row {
                None => r matches Err(StoreError::WorkspaceNotFound(id)) && id@ == workspace_id@,
                Some(row) => r == row.decoded_leniently(),
            },
    {
        match row {
            None => Err(StoreError::WorkspaceNotFound(owned(workspace_id))),
            Some(row) => row.decode_leniently(),
        }
    }

    /// The statement that removes the workspace `workspace_id`.
    pub fn delete_workspace(&self, workspace_id: &str) -> (s: Statement)
        ensures
            s@ == Database::by_id(DELETE_WORKSPACE@, workspace_id@),
    {
        Database::statement_by_id(DELETE_WORKSPACE, workspace_id)
    }
}

} // verus!
