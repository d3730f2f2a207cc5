//! Projects: units of work that hold documents.

use crate::ident::{fresh_id, is_random_uuid_text};
use crate::strings::str_eq;
use crate::time::Timestamp;
use vstd::prelude::*;
use vstd::string::*;

verus! {

/// How far a project has come.
#[derive(Clone, Copy, Debug, PartialEq, Eq, Structural)]
pub enum ProjectStatus {
    Active,
    Completed,
    Archived,
}

impl ProjectStatus {
    /// The name of the status, as callers write it.
    pub open spec fn name(self) -> Seq<char> {
        match self {
            ProjectStatus::Active => "Active"@,
            ProjectStatus::Completed => "Completed"@,
            ProjectStatus::Archived => "Archived"@,
        }
    }

    /// The text under which the status is stored: its name as a JSON string.
    pub open spec fn stored(self) -> Seq<char> {
        match self {
            ProjectStatus::Active => "\"Active\""@,
            ProjectStatus::Completed => "\"Completed\""@,
            ProjectStatus::Archived => "\"Archived\""@,
        }
    }

    /// The text under which the status is stored.
    pub fn to_stored(&self) -> (text: String)
        ensures
            text@ == self.stored(),
    {
        match self {
            ProjectStatus::Active => String::from_str("\"Active\""),
            ProjectStatus::Completed => String::from_str("\"Completed\""),
            ProjectStatus::Archived => String::from_str("\"Archived\""),
        }
    }

    /// The status that is stored under `text`, if there is one.
    pub open spec fn read(text: Seq<char>) -> Option<ProjectStatus> {
        if text == "\"Active\""@ {
            Some(ProjectStatus::Active)
        } else if text == "\"Completed\""@ {
            Some(ProjectStatus::Completed)
        } else if text == "\"Archived\""@ {
            Some(ProjectStatus::Archived)
        } else {
            None
        }
    }

    /// Reads a stored status; `None` where the text is that of no status.
    pub fn from_stored(text: &str) -> (r: Option<ProjectStatus>)
        ensures
            r == ProjectStatus::read(text@),
    {
        if str_eq(text, "\"Active\"") {
            Some(ProjectStatus::Active)
        } else if str_eq(text, "\"Completed\"") {
            Some(ProjectStatus::Completed)
        } else if str_eq(text, "\"Archived\"") {
            Some(ProjectStatus::Archived)
        } else {
            None
        }
    }

    /// A text is read as a status exactly where the status is stored under
    /// it: reading inverts storing, and no two are stored alike.
    pub proof fn lemma_read_inverts_stored(self, text: Seq<char>)
        ensures
            ProjectStatus::read(self.stored()) == Some(self),
            ProjectStatus::read(text) == Some(self) <==> text == self.stored(),
    {
        reveal_strlit("\"Active\"");
        reveal_strlit("\"Completed\"");
        reveal_strlit("\"Archived\"");
        assert("\"Active\""@.len() == 8 && "\"Active\""@[1] == 'A');
        assert("\"Completed\""@.len() == 11 && "\"Completed\""@[1] == 'C');
        assert("\"Archived\""@.len() == 10 && "\"Archived\""@[1] == 'A');
    }

    /// The status that goes by `name`, if there is one.
    pub open spec fn named(name: Seq<char>) -> Option<ProjectStatus> {
        if name == "Active"@ {
            Some(ProjectStatus::Active)
        } else if name == "Completed"@ {
            Some(ProjectStatus::Completed)
        } else if name == "Archived"@ {
            Some(ProjectStatus::Archived)
        } else {
            None
        }
    }

    /// Reads a status by its name; `None` where no status has that name.
    pub fn from_name(name: &str) -> (r: Option<ProjectStatus>)
        ensures
            r == ProjectStatus::named(name@),
    {
        if str_eq(name, "Active") {
            Some(ProjectStatus::Active)
        } else if str_eq(name, "Completed") {
            Some(ProjectStatus::Completed)
        } else if str_eq(name, "Archived") {
            Some(ProjectStatus::Archived)
        } else {
            None
        }
    }

    /// A name is that of a status exactly where the status goes by it.
    pub proof fn lemma_named_inverts_name(self, name: Seq<char>)
        ensures
            ProjectStatus::named(self.name()) == Some(self),
            ProjectStatus::named(name) == Some(self) <==> name == self.name(),
    {
        reveal_strlit("Active");
        reveal_strlit("Completed");
        reveal_strlit("Archived");
        assert("Active"@.len() == 6 && "Active"@[1] == 'c');
        assert("Completed"@.len() == 9);
        assert("Archived"@.len() == 8 && "Archived"@[1] == 'r');
    }
}

/// A project as it is kept.
#[derive(Clone, Debug, PartialEq, Eq)]
pub struct Project {
    pub id: String,
    pub name: String,
    pub description: String,
    pub icon: String,
    pub color: String,
    pub status: ProjectStatus,
    pub progress: u32,
    pub documents_count: u32,
    pub words_count: u32,
    pub workspace_id: String,
    pub created_at: Timestamp,
    pub updated_at: Timestamp,
}

/// What a caller gives to have a project made.
#[derive(Clone, Debug, PartialEq, Eq)]
pub struct CreateProjectData {
    pub name: String,
    pub description: String,
    pub icon: String,
    pub color: String,
    pub workspace_id: String,
    pub template_id: Option<String>,
}

/// How many projects there are, by status and age.
#[derive(Clone, Copy, Debug, PartialEq, Eq, Structural)]
pub struct ProjectStats {
    pub total: u32,
    pub active: u32,
    pub completed: u32,
    pub archived: u32,
    pub this_week: u32,
}

/// One page of a project search and the number of all projects that match.
#[derive(Clone, Debug, PartialEq, Eq)]
pub struct ProjectListResult {
    pub items: Vec<Project>,
    pub total: u32,
}

impl Project {
    /// The project made from `data` under the identifier `id` at the
    /// instant `now`: active, at progress 0, without documents or words.
    pub open spec fn fresh(data: CreateProjectData, id: String, now: Timestamp) -> Project {
        Project {
            id,
            name: data.name,
            description: data.description,
            icon: data.icon,
            color: data.color,
            status: ProjectStatus::Active,
            progress: 0,
            documents_count: 0,
            words_count: 0,
            workspace_id: data.workspace_id,
            created_at: now,
            updated_at: now,
        }
    }

    /// Makes the project that `data` describes, with the given identity.
    pub fn with_identity(data: CreateProjectData, id: String, now: Timestamp) -> (p: Project)
        ensures
            p == Project::fresh(data, id, now),
    {
        Project {
            id,
            name: data.name,
            description: data.description,
            icon: data.icon,
            color: data.color,
            status: ProjectStatus::Active,
            progress: 0,
            documents_count: 0,
            words_count: 0,
            workspace_id: data.workspace_id,
            created_at: now,
            updated_at: now,
        }
    }

    /// Makes the project that `data` describes, under a fresh identifier and
    /// stamped with the current instant.
    pub fn new(data: CreateProjectData) -> (p: Project)
        ensures
            p == Project::fresh(data, p.id, p.created_at),
            is_random_uuid_text(p.id@),
    {
        let now = Timestamp::now();
        Project::with_identity(data, fresh_id(), now)
    }
}

} // verus!
