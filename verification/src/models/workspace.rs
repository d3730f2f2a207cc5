//! Workspaces: the top-level grouping of projects.

use crate::ident::{fresh_id, is_random_uuid_text};
use crate::strings::str_eq;
use crate::time::Timestamp;
use vstd::prelude::*;
use vstd::string::*;

verus! {

/// Whether a workspace is in use.
#[derive(Clone, Copy, Debug, PartialEq, Eq, Structural)]
pub enum WorkspaceStatus {
    Active,
    Inactive,
}

impl Default for WorkspaceStatus {
    fn default() -> (r: WorkspaceStatus)
        ensures
            r == WorkspaceStatus::Active,
    {
        WorkspaceStatus::Active
    }
}

impl WorkspaceStatus {
    /// The text under which the status is stored: its name as a JSON string.
    pub open spec fn stored(self) -> Seq<char> {
        match self {
            WorkspaceStatus::Active => "\"Active\""@,
            WorkspaceStatus::Inactive => "\"Inactive\""@,
        }
    }

    /// The text under which the status is stored.
    pub fn to_stored(&self) -> (text: String)
        ensures
            text@ == self.stored(),
    {
        match self {
            WorkspaceStatus::Active => String::from_str("\"Active\""),
            WorkspaceStatus::Inactive => String::from_str("\"Inactive\""),
        }
    }

    /// The status that is stored under `text`, if there is one.
    pub open spec fn read(text: Seq<char>) -> Option<WorkspaceStatus> {
        if text == "\"Active\""@ {
            Some(WorkspaceStatus::Active)
        } else if text == "\"Inactive\""@ {
            Some(WorkspaceStatus::Inactive)
        } else {
            None
        }
    }

    /// Reads a stored status; `None` where the text is that of no status.
    pub fn from_stored(text: &str) -> (r: Option<WorkspaceStatus>)
        ensures
            r == WorkspaceStatus::read(text@),
    {
        if str_eq(text, "\"Active\"") {
            Some(WorkspaceStatus::Active)
        } else if str_eq(text, "\"Inactive\"") {
            Some(WorkspaceStatus::Inactive)
        } else {
            None
        }
    }

    /// A text is read as a status exactly where the status is stored under
    /// it: reading inverts storing, and no two are stored alike.
    pub proof fn lemma_read_inverts_stored(self, text: Seq<char>)
        ensures
            WorkspaceStatus::read(self.stored()) == Some(self),
            WorkspaceStatus::read(text) == Some(self) <==> text == self.stored(),
    {
        reveal_strlit("\"Active\"");
        reveal_strlit("\"Inactive\"");
        assert("\"Active\""@.len() == 8 && "\"Active\""@[1] == 'A');
        assert("\"Inactive\""@.len() == 10 && "\"Inactive\""@[1] == 'I');
    }
}

/// A workspace as it is kept.
#[derive(Clone, Debug, PartialEq, Eq)]
pub struct Workspace {
    pub id: String,
    pub name: String,
    pub description: String,
    pub projects_count: u32,
    pub status: WorkspaceStatus,
    pub created_at: Timestamp,
    pub updated_at: Timestamp,
    pub last_accessed: Timestamp,
}

/// What a caller gives to have a workspace made.
#[derive(Clone, Debug, PartialEq, Eq)]
pub struct CreateWorkspaceData {
    pub name: String,
    pub description: String,
}

impl Workspace {
    /// The workspace made from `data` under the identifier `id` at the
    /// instant `now`: active, without projects, all three instants `now`.
    pub open spec fn fresh(data: CreateWorkspaceData, id: String, now: Timestamp) -> Workspace {
        Workspace {
            id,
            name: data.name,
            description: data.description,
            projects_count: 0,
            status: WorkspaceStatus::Active,
            created_at: now,
            updated_at: now,
            last_accessed: now,
        }
    }

    /// Makes the workspace that `data` describes, with the given identity.
    pub fn with_identity(data: CreateWorkspaceData, id: String, now: Timestamp) -> (w: Workspace)
        ensures
            w == Workspace::fresh(data, id, now),
    {
        Workspace {
            id,
            name: data.name,
            description: data.description,
            projects_count: 0,
            status: WorkspaceStatus::Active,
            created_at: now,
            updated_at: now,
            last_accessed: now,
        }
    }

    /// Makes the workspace that `data` describes, under a fresh identifier
    /// and stamped with the current instant.
    pub fn new(data: CreateWorkspaceData) -> (w: Workspace)
        ensures
            w == Workspace::fresh(data, w.id, w.created_at),
            is_random_uuid_text(w.id@),
    {
        let now = Timestamp::now();
        Workspace::with_identity(data, fresh_id(), now)
    }
}

} // verus!
