//! The catalogue of AI back ends and their credentials.

use vstd::prelude::*;

verus! {

/// An AI back end as it is kept.
#[derive(Clone, Debug, PartialEq, Eq)]
pub struct AIProvider {
    pub id: String,
    pub name: String,
    pub model_name: String,
    pub api_key: String,
    pub base_url: Option<String>,
    pub icon: String,
    pub bg_color: String,
    /// One of `connected`, `testing`, `error`, `disconnected`.
    pub status: String,
    pub status_text: String,
    pub max_tokens: i64,
    pub context_length: i64,
    pub last_tested: String,
    pub description: Option<String>,
    pub priority: i64,
    /// One of `main`, `task`, `inference`.
    pub model_pointer: Option<String>,
}

/// What a caller gives to have an AI back end added.
#[derive(Clone, Debug, PartialEq, Eq)]
pub struct CreateAIProviderInput {
    pub name: String,
    pub model_name: String,
    pub api_key: String,
    pub base_url: Option<String>,
    pub icon: String,
    pub bg_color: String,
    pub max_tokens: i64,
    pub context_length: i64,
    pub description: Option<String>,
    pub priority: i64,
    pub model_pointer: Option<String>,
}

} // verus!
