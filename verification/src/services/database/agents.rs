//! Agents in the store.

use crate::ident::{fresh_prefixed_id, is_random_uuid_text};
use crate::json::{decode_tags_or_none, encode_tags, json_of_strings, strings_of_json};
use crate::models::agent::{AgentModel, InstallAgentInput};
use crate::services::database::{plain, Database};
use crate::sql::{opt_text, Param, ParamView, Plan, Statement, StatementView};
use crate::strings::clone_opt_string;
use vstd::prelude::*;

verus! {

/// Asks for all agents, by name.
pub const SELECT_AGENTS: &'static str = "SELECT * FROM agents ORDER BY name ASC";

/// Stores an agent, enabled.
pub const INSERT_AGENT: &'static str =
    "INSERT INTO agents (id, name, category, version, enabled, description, tags) VALUES (?1, ?2, ?3, ?4, 1, ?5, ?6)";

/// Enables or disables an agent.
pub const ENABLE_AGENT: &'static str = "UPDATE agents SET enabled = ?2 WHERE id = ?1";

/// Removes an agent.
pub const DELETE_AGENT: &'static str = "DELETE FROM agents WHERE id = ?1";

/// Sets the version of an agent.
pub const UPDATE_AGENT_VERSION: &'static str = "UPDATE agents SET version = ?2 WHERE id = ?1";

/// What the identifiers of agents start with.
pub const AGENT_PREFIX: &'static str = "agent-";

/// A row of the table `agents`, as the store hands it out.
#[derive(Clone, Debug, PartialEq, Eq)]
pub struct AgentRow {
    pub id: String,
    pub name: String,
    pub category: String,
    pub version: String,
    pub enabled: i64,
    pub description: Option<String>,
    pub tags: String,
}

/// The tags that are read from the stored text `text`: a text that is no
/// JSON array of strings gives none.
pub open spec fn tags_or_none(text: Seq<char>) -> Seq<Seq<char>> {
    match strings_of_json(text) {
        Some(tags) => tags,
        None => Seq::empty(),
    }
}

impl AgentRow {
    /// Tells whether `a` is the agent that the row holds. An agent is
    /// enabled where the column holds 1.
    pub open spec fn holds(self, a: AgentModel) -> bool {
        &&& a.id == self.id
        &&& a.name == self.name
        &&& a.category == self.category
        &&& a.version == self.version
        &&& a.enabled == (self.enabled == 1)
        &&& a.description == self.description
        &&& a.tags.deep_view() == tags_or_none(self.tags@)
    }

    /// Reads the row.
    pub fn decode(&self) -> (a: AgentModel)
        ensures
            self.holds(a),
    {
        AgentModel {
            id: self.id.clone(),
            name: self.name.clone(),
            category: self.category.clone(),
            version: self.version.clone(),
            enabled: self.enabled == 1,
            description: clone_opt_string(&self.description),
            tags: decode_tags_or_none(self.tags.as_str()),
        }
    }
}

impl AgentModel {
    /// Tells whether `self` is the agent installed from `input` under the
    /// identifier `id`: enabled, with the tags that are read back from
    /// their stored form.
    pub open spec fn is_installed(self, input: InstallAgentInput, id: String) -> bool {
        &&& self.id == id
        &&& self.name == input.name
        &&& self.category == input.category
        &&& self.version == input.version
        &&& self.enabled
        &&& self.description == input.description
        &&& self.tags.deep_view() == tags_or_none(json_of_strings(input.tags.deep_view()))
    }
}

impl Database {
    /// The statement that stores the agent that `input` describes under
    /// the identifier `id`, enabled.
    pub open spec fn agent_insert(input: InstallAgentInput, id: Seq<char>) -> StatementView {
        StatementView {
            sql: INSERT_AGENT@,
            params: seq![
                ParamView::Text(id),
                ParamView::Text(input.name@),
                ParamView::Text(input.category@),
                ParamView::Text(input.version@),
                opt_text(input.description),
                ParamView::Text(json_of_strings(input.tags.deep_view())),
            ],
        }
    }

    /// A statement that sets one column, `value`, of the record `id`.
    pub open spec fn set_by_id(sql: Seq<char>, id: Seq<char>, value: ParamView) -> StatementView {
        StatementView { sql, params: seq![ParamView::Text(id), value] }
    }

    /// The query for all agents, by name.
    pub fn list_agents(&self) -> (s: Statement)
        ensures
            s@ == plain(SELECT_AGENTS@),
    {
        Statement::plain(SELECT_AGENTS)
    }

    /// Reads the rows of [`Database::list_agents`], in their order.
    pub fn read_agents(rows: &Vec<AgentRow>) -> (agents: Vec<AgentModel>)
        ensures
            agents@.len() == rows@.len(),
            forall|i: int| 0 <= i < rows@.len() ==> rows@[i].holds(#[trigger] agents@[i]),
    {
        let mut agents: Vec<AgentModel> = Vec::new();
        let mut i: usize = 0;
        while i < rows.len()
            invariant
                i <= rows@.len(),
                agents@.len() == i,
                forall|k: int| 0 <= k < i ==> rows@[k].holds(#[trigger] agents@[k]),
            decreases rows@.len() - i,
        {
            agents.push(rows[i].decode());
            i = i + 1;
        }
        agents
    }

    /// Installs the agent that `input` describes under the identifier
    /// `id`: the agent, and the statement that stores it.
    pub fn install_agent_as(input: InstallAgentInput, id: String) -> (plan: Plan<AgentModel>)
        ensures
            plan.value.is_installed(input, id),
            plan.statements@.map_values(|s: Statement| s@) == seq![
                Database::agent_insert(input, id@),
            ],
    {
        let tags = encode_tags(&input.tags);
        let mut params: Vec<Param> = Vec::new();
        params.push(Param::text(id.as_str()));
        params.push(Param::text(input.name.as_str()));
        params.push(Param::text(input.category.as_str()));
        params.push(Param::text(input.version.as_str()));
        params.push(Param::optional_text(&input.description));
        params.push(Param::text(tags.as_str()));
        let insert = Statement::new(INSERT_AGENT, params);
        assert(insert@.params =~= Database::agent_insert(input, id@).params);
        let mut statements: Vec<Statement> = Vec::new();
        statements.push(insert);
        assert(statements@.map_values(|s: Statement| s@) =~= seq![
            Database::agent_insert(input, id@),
        ]);
        let agent = AgentModel {
            id,
            name: input.name,
            category: input.category,
            version: input.version,
            enabled: true,
            description: input.description,
            tags: decode_tags_or_none(tags.as_str()),
        };
        Plan { value: agent, statements }
    }

    /// Installs the agent that `input` describes under a fresh identifier
    /// that starts with `agent-`.
    pub fn install_agent(&self, input: InstallAgentInput) -> (plan: Plan<AgentModel>)
        ensures
            plan.value.is_installed(input, plan.value.id),
            plan.value.id@.take(AGENT_PREFIX@.len() as int) == AGENT_PREFIX@,
            is_random_uuid_text(plan.value.id@.skip(AGENT_PREFIX@.len() as int)),
            plan.statements@.map_values(|s: Statement| s@) == seq![
                Database::agent_insert(input, plan.value.id@),
            ],
    {
        Database::install_agent_as(input, fresh_prefixed_id(AGENT_PREFIX))
    }

    /// The statement that enables or disables the agent `id`: the column
    /// holds 1 for an enabled agent and 0 for a disabled one.
    pub fn set_agent_enabled(&self, id: &str, enabled: bool) -> (s: Statement)
        ensures
            s@ == Database::set_by_id(
                ENABLE_AGENT@,
                id@,
                ParamView::Integer(
                    if enabled {
                        1
                    } else {
                        0
                    },
                ),
            ),
    {
        let flag: i64 = if enabled {
            1
        } else {
            0
        };
        Database::statement_setting(ENABLE_AGENT, id, Param::Integer(flag))
    }

    /// The statement that removes the agent `id`.
    pub fn uninstall_agent(&self, id: &str) -> (s: Statement)
        ensures
            s@ == Database::by_id(DELETE_AGENT@, id@),
    {
        Database::statement_by_id(DELETE_AGENT, id)
    }

    /// The statement that sets the version of the agent `id`.
    pub fn update_agent_version(&self, id: &str, version: &str) -> (s: Statement)
        ensures
            s@ == Database::set_by_id(UPDATE_AGENT_VERSION@, id@, ParamView::Text(version@)),
    {
        Database::statement_setting(UPDATE_AGENT_VERSION, id, Param::text(version))
    }

    fn statement_setting(sql: &str, id: &str, value: Param) -> (s: Statement)
        ensures
            s@ == Database::set_by_id(sql@, id@, value@),
    {
        let mut params: Vec<Param> = Vec::new();
        params.push(Param::text(id));
        params.push(value);
        let s = Statement::new(sql, params);
        assert(s@.params =~= Database::set_by_id(sql@, id@, value@).params);
        s
    }
}

} // verus!
