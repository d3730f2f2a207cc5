//! The settings in the store: a single row under a fixed key.

use crate::models::config::AppConfig;
use crate::services::database::{instant, plain, Database};
use crate::sql::{Param, ParamView, Statement, StatementView};
use vstd::prelude::*;

verus! {

/// Asks for the stored settings.
pub const SELECT_CONFIG: &'static str = "SELECT config_data FROM config WHERE id = 1";

/// Writes the settings over the stored ones.
pub const SAVE_CONFIG: &'static str =
    "INSERT OR REPLACE INTO config (id, config_data, updated_at) VALUES (1, ?1, ?2)";

/// What the store holds under the key of the settings.
#[derive(Clone, Debug, PartialEq)]
pub enum StoredConfig {
    /// There is no row.
    Missing,
    /// The row holds a text that cannot be read as settings.
    Unreadable,
    /// The row holds these settings.
    Found(AppConfig),
}

/// Tells whether the statement `s` writes `config` over whatever the store
/// holds under the key of the settings.
pub open spec fn saves_config(s: StatementView, config: AppConfig) -> bool {
    &&& s.sql == SAVE_CONFIG@
    &&& s.params.len() == 2
    &&& (s.params[0] matches ParamView::Config(saved) && saved.same(config))
    &&& s.params[1] == instant(config.updated_at)
}

impl Database {
    /// The query for the stored settings.
    pub fn get_config(&self) -> (s: Statement)
        ensures
            s@ == plain(SELECT_CONFIG@),
    {
        Statement::plain(SELECT_CONFIG)
    }

    /// The settings that the store holds. A text that cannot be read as
    /// settings counts as no settings at all.
    pub fn read_config(stored: StoredConfig) -> (r: Option<AppConfig>)
        ensures
            r == match stored {
                StoredConfig::Found(config) => Some(config),
                _ => None::<AppConfig>,
            },
    {
        match stored {
            StoredConfig::Found(config) => Some(config),
            _ => None,
        }
    }

    /// The statement that writes `config`, whole, over the stored settings.
    pub fn save_config(&self, config: AppConfig) -> (s: Statement)
        ensures
            saves_config(s@, config),
            s@.params[0] == ParamView::Config(config),
    {
        let when = config.updated_at.to_stored();
        let mut params: Vec<Param> = Vec::new();
        params.push(Param::Config(config));
        params.push(Param::Text(when));
        Statement::new(SAVE_CONFIG, params)
    }
}

} // verus!
