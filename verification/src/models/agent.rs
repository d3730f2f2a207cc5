//! The catalogue of installable agents.

use vstd::prelude::*;

verus! {

/// An installed agent.
#[derive(Clone, Debug, PartialEq, Eq)]
pub struct AgentModel {
    pub id: String,
    pub name: String,
    pub category: String,
    pub version: String,
    pub enabled: bool,
    pub description: Option<String>,
    pub tags: Vec<String>,
}

/// What a caller gives to have an agent installed.
#[derive(Clone, Debug, PartialEq, Eq)]
pub struct InstallAgentInput {
    pub name: String,
    pub category: String,
    pub version: String,
    pub description: Option<String>,
    pub tags: Vec<String>,
}

} // verus!
