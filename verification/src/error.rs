//! What can go wrong between the application and its store.

use crate::strings::owned;
use vstd::prelude::*;
use vstd::string::*;

verus! {

/// A failed operation of the persistence layer.
#[derive(Clone, Debug, PartialEq, Eq)]
pub enum StoreError {
    /// A document was to be made in a project that does not exist; holds
    /// the project's identifier.
    ProjectNotFound(String),
    /// A workspace that was just changed is gone; holds its identifier.
    WorkspaceNotFound(String),
    /// A stored status is that of no status; holds the stored text.
    InvalidStatus(String),
    /// A stored document type is that of no type; holds the stored text.
    InvalidDocumentType(String),
    /// A stored instant is not RFC 3339; holds the stored text.
    InvalidTimestamp(String),
    /// Stored tags are not a JSON array of strings; holds the stored text.
    InvalidTags(String),
    /// Stored metadata could not be read.
    InvalidMetadata,
    /// The text of a document was to be replaced whose version is the
    /// highest there is, so that it cannot rise; holds the document's
    /// identifier.
    VersionExhausted(String),
}

impl StoreError {
    /// The description of the failure.
    pub open spec fn description(self) -> Seq<char> {
        match self {
            StoreError::ProjectNotFound(id) => "Project not found: "@ + id@,
            StoreError::WorkspaceNotFound(id) => "Workspace not found: "@ + id@,
            StoreError::InvalidStatus(stored) => "invalid status: "@ + stored@,
            StoreError::InvalidDocumentType(stored) => "invalid document type: "@ + stored@,
            StoreError::InvalidTimestamp(stored) => "invalid timestamp: "@ + stored@,
            StoreError::InvalidTags(stored) => "invalid tags: "@ + stored@,
            StoreError::InvalidMetadata => "invalid document metadata"@,
            StoreError::VersionExhausted(id) => "document version cannot rise: "@ + id@,
        }
    }

    /// A description of the failure for the user.
    pub fn message(&self) -> (text: String)
        ensures
            text@ == self.description(),
    {
        match self {
            StoreError::ProjectNotFound(id) => owned("Project not found: ").concat(id.as_str()),
            StoreError::WorkspaceNotFound(id) => owned("Workspace not found: ").concat(
                id.as_str(),
            ),
            StoreError::InvalidStatus(stored) => owned("invalid status: ").concat(stored.as_str()),
            StoreError::InvalidDocumentType(stored) => owned("invalid document type: ").concat(
                stored.as_str(),
            ),
            StoreError::InvalidTimestamp(stored) => owned("invalid timestamp: ").concat(
                stored.as_str(),
            ),
            StoreError::InvalidTags(stored) => owned("invalid tags: ").concat(stored.as_str()),
            StoreError::InvalidMetadata => owned("invalid document metadata"),
            StoreError::VersionExhausted(id) => owned("document version cannot rise: ").concat(
                id.as_str(),
            ),
        }
    }
}

/// A failed operation of one of the services around the store.
#[derive(Clone, Debug, PartialEq, Eq)]
pub enum ServiceError {
    /// The operation failed; holds the reason.
    Failed(String),
}

impl ServiceError {
    /// A description of the failure for the user.
    pub fn message(&self) -> (text: String)
        ensures
            self matches ServiceError::Failed(reason) ==> text@ == reason@,
    {
        match self {
            ServiceError::Failed(reason) => reason.clone(),
        }
    }
}

} // verus!
