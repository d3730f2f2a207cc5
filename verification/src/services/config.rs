//! The configuration service: what is loaded, saved, imported and reset.
//!
//! Reading the store and files is left to the caller; the service decides
//! what the settings are and what is to be written.

use crate::models::config::AppConfig;
use crate::services::database::config::{saves_config, StoredConfig};
use crate::services::database::Database;
use crate::sql::{Plan, Statement};
use crate::strings::{owned, str_eq};
use crate::time::Timestamp;
use vstd::prelude::*;
use vstd::string::*;

verus! {

/// Where OpenAI answers when a provider names no other place.
pub const OPENAI_BASE: &'static str = "https://api.openai.com/v1";

/// A failed operation of the configuration service.
#[derive(Clone, Debug, PartialEq, Eq)]
pub enum ConfigError {
    /// The text to import is no configuration; holds what the reader said.
    Malformed(String),
}

impl ConfigError {
    /// A description of the failure for the user.
    pub fn message(&self) -> (text: String)
        ensures
            self matches ConfigError::Malformed(reason) ==> text@ == reason@,
    {
        match self {
            ConfigError::Malformed(reason) => reason.clone(),
        }
    }
}

/// How to find out whether an AI provider can be used.
#[derive(Clone, Debug, PartialEq, Eq)]
pub enum ProviderCheck {
    /// It cannot: there is no API key.
    Unusable,
    /// It can, as far as can be told without asking it.
    Usable,
    /// Ask it: send a GET request to `url` with `authorization` as the
    /// `Authorization` header. It can be used if the answer is a success.
    Ask { url: String, authorization: String },
}

/// How a server of the model context protocol is reached.
#[derive(Clone, Copy, Debug, PartialEq, Eq, Structural)]
pub enum MCPConnectionType {
    /// A local command that talks over its standard streams.
    Stdio,
    /// A URL that sends events.
    SSE,
}

/// How to find out whether a server of the model context protocol is there.
#[derive(Clone, Debug, PartialEq, Eq)]
pub enum ServerCheck {
    /// It is not: what is needed to reach it is not given.
    Unreachable,
    /// Run `command --version`; the server is there if the command can be
    /// run.
    Run { command: String },
    /// Send a GET request to `url`; the server is there if it answers.
    Get { url: String },
}

/// The configuration service.
#[derive(Clone, Copy, Debug, PartialEq, Eq, Structural)]
pub struct ConfigService;

impl ConfigService {
    /// The settings to work with at the instant `now`, given what the
    /// store holds: the stored ones, with nothing to write; or, where the
    /// store holds none that can be read, those of a new installation,
    /// which are then written.
    pub fn get_config_at(stored: StoredConfig, now: Timestamp) -> (plan: Plan<AppConfig>)
        ensures
            match stored {
                StoredConfig::Found(config) => plan.value == config && plan.statements@.len() == 0,
                _ => {
                    &&& plan.value.has_default_settings()
                    &&& plan.value.updated_at == now
                    &&& plan.statements@.len() == 1
                    &&& saves_config(plan.statements@[0]@, plan.value)
                },
            },
    {
        match Database::read_config(stored) {
            Some(config) => Plan { value: config, statements: Vec::new() },
            None => ConfigService::reset_config_at(now),
        }
    }

    /// The settings to work with, given what the store holds.
    pub fn get_config(stored: StoredConfig) -> (plan: Plan<AppConfig>)
        ensures
            match stored {
                StoredConfig::Found(config) => plan.value == config && plan.statements@.len() == 0,
                _ => {
                    &&& plan.value.has_default_settings()
                    &&& plan.statements@.len() == 1
                    &&& saves_config(plan.statements@[0]@, plan.value)
                },
            },
    {
        ConfigService::get_config_at(stored, Timestamp::now())
    }

    /// The statement that saves `config` as of the instant `now`, whatever
    /// instant `config` itself carries.
    pub fn save_config_at(config: AppConfig, now: Timestamp) -> (s: Statement)
        ensures
            saves_config(s@, (AppConfig { updated_at: now, ..config })),
    {
        let mut config = config;
        config.updated_at = now;
        Database::new().save_config(config)
    }

    /// The statement that saves `config` as of the current instant.
    pub fn save_config(config: AppConfig) -> (s: Statement)
        ensures
            exists|now: Timestamp| saves_config(s@, (AppConfig { updated_at: now, ..config })),
    {
        ConfigService::save_config_at(config, Timestamp::now())
    }

    /// Makes the configuration that was read from a file the active one as
    /// of `now`. `parsed` is what reading the file gave: the
    /// configuration, or why the text is none. A text that is none fails
    /// the import, and nothing is written.
    pub fn import_config_at(parsed: Result<AppConfig, String>, now: Timestamp) -> (r: Result<
        Plan<AppConfig>,
        ConfigError,
    >)
        ensures
            match r {
                Ok(plan) => {
                    &&& parsed == Ok::<AppConfig, String>(plan.value)
                    &&& plan.statements@.len() == 1
                    &&& saves_config(
                        plan.statements@[0]@,
                        (AppConfig { updated_at: now, ..plan.value }),
                    )
                },
                Err(e) => parsed matches Err(reason) && e == ConfigError::Malformed(reason),
            },
    {
        match parsed {
            Err(reason) => Err(ConfigError::Malformed(reason)),
            Ok(config) => {
                let save = ConfigService::save_config_at(config.duplicate(), now);
                let mut statements: Vec<Statement> = Vec::new();
                statements.push(save);
                Ok(Plan { value: config, statements })
            },
        }
    }

    /// Makes the configuration that was read from a file the active one as
    /// of the current instant.
    pub fn import_config(parsed: Result<AppConfig, String>) -> (r: Result<
        Plan<AppConfig>,
        ConfigError,
    >)
        ensures
            match r {
                Ok(plan) => {
                    &&& parsed == Ok::<AppConfig, String>(plan.value)
                    &&& plan.statements@.len() == 1
                    &&& exists|now: Timestamp|
                        saves_config(
                            plan.statements@[0]@,
                            (AppConfig { updated_at: now, ..plan.value }),
                        )
                },
                Err(e) => parsed matches Err(reason) && e == ConfigError::Malformed(reason),
            },
    {
        ConfigService::import_config_at(parsed, Timestamp::now())
    }

    /// The settings of a new installation as of `now`, and the statement
    /// that saves them.
    pub fn reset_config_at(now: Timestamp) -> (plan: Plan<AppConfig>)
        ensures
            plan.value.has_default_settings(),
            plan.value.updated_at == now,
            plan.statements@.len() == 1,
            saves_config(plan.statements@[0]@, plan.value),
    {
        let config = AppConfig::with_defaults(now);
        let saved = AppConfig::with_defaults(now);
        proof {
            saved.lemma_defaults_agree(config);
        }
        let save = Database::new().save_config(saved);
        let mut statements: Vec<Statement> = Vec::new();
        statements.push(save);
        Plan { value: config, statements }
    }

    /// The settings of a new installation as of the current instant, and
    /// the statement that saves them.
    pub fn reset_config() -> (plan: Plan<AppConfig>)
        ensures
            plan.value.has_default_settings(),
            plan.statements@.len() == 1,
            saves_config(plan.statements@[0]@, plan.value),
    {
        ConfigService::reset_config_at(Timestamp::now())
    }

    /// Says how to find out whether the provider of the kind
    /// `provider_type` can be used. Without an API key, or with an empty
    /// one, it cannot. A provider of the kind `openai` is asked for its
    /// models at `api_base`, or at [`OPENAI_BASE`] where none is given.
    /// Any other provider with a key counts as usable.
    pub fn test_ai_provider(provider_type: &str, api_key: Option<&str>, api_base: Option<&str>) -> (check:
        ProviderCheck)
        ensures
            match api_key {
                None => check == ProviderCheck::Unusable,
                Some(key) => if key@.len() == 0 {
                    check == ProviderCheck::Unusable
                } else if provider_type@ == "openai"@ {
                    &&& check matches ProviderCheck::Ask { url, authorization }
                    &&& url@ == (match api_base {
                        Some(base) => base@,
                        None => OPENAI_BASE@,
                    }) + "/models"@
                    &&& authorization@ == "Bearer "@ + key@
                } else {
                    check == ProviderCheck::Usable
                },
            },
    {
        match api_key {
            None => ProviderCheck::Unusable,
            Some(key) => {
                if key.is_empty() {
                    ProviderCheck::Unusable
                } else if str_eq(provider_type, "openai") {
                    let base = match api_base {
                        Some(base) => base,
                        None => OPENAI_BASE,
                    };
                    ProviderCheck::Ask {
                        url: owned(base).concat("/models"),
                        authorization: owned("Bearer ").concat(key),
                    }
                } else {
                    ProviderCheck::Usable
                }
            },
        }
    }

    /// Says how to find out whether a server of the model context
    /// protocol is there: by running its command where it talks over
    /// standard streams, by asking its URL where it sends events. Without
    /// the command or URL it cannot be there.
    pub fn test_mcp_server(
        connection_type: MCPConnectionType,
        command: Option<&str>,
        url: Option<&str>,
    ) -> (check: ServerCheck)
        ensures
            match connection_type {
                MCPConnectionType::Stdio => match command {
                    Some(command) => check matches ServerCheck::Run { command: c } && c@
                        == command@,
                    None => check == ServerCheck::Unreachable,
                },
                MCPConnectionType::SSE => match url {
                    Some(url) => check matches ServerCheck::Get { url: u } && u@ == url@,
                    None => check == ServerCheck::Unreachable,
                },
            },
    {
        match connection_type {
            MCPConnectionType::Stdio => match command {
                Some(command) => ServerCheck::Run { command: owned(command) },
                None => ServerCheck::Unreachable,
            },
            MCPConnectionType::SSE => match url {
                Some(url) => ServerCheck::Get { url: owned(url) },
                None => ServerCheck::Unreachable,
            },
        }
    }
}

} // verus!
