//! AI back ends in the store.

use crate::ident::{fresh_prefixed_id, is_random_uuid_text};
use crate::models::provider::{AIProvider, CreateAIProviderInput};
use crate::services::database::{plain, Database};
use crate::sql::{opt_text, Param, ParamView, Plan, Statement, StatementView};
use crate::strings::owned;
use vstd::prelude::*;

verus! {

/// Asks for all AI back ends, by priority and then by name.
pub const SELECT_AI_PROVIDERS: &'static str =
    "SELECT * FROM ai_providers ORDER BY priority ASC, name ASC";

/// Stores an AI back end.
pub const INSERT_AI_PROVIDER: &'static str =
    "INSERT INTO ai_providers (id, name, model_name, api_key, base_url, icon, bg_color, status, status_text, max_tokens, context_length, last_tested, description, priority, model_pointer) VALUES (?1, ?2, ?3, ?4, ?5, ?6, ?7, ?8, ?9, ?10, ?11, ?12, ?13, ?14, ?15)";

/// Removes an AI back end.
pub const DELETE_AI_PROVIDER: &'static str = "DELETE FROM ai_providers WHERE id = ?1";

/// Writes every column of an AI back end.
pub const UPDATE_AI_PROVIDER: &'static str =
    "UPDATE ai_providers SET name=?2, model_name=?3, api_key=?4, base_url=?5, icon=?6, bg_color=?7, status=?8, status_text=?9, max_tokens=?10, context_length=?11, last_tested=?12, description=?13, priority=?14, model_pointer=?15 WHERE id=?1";

/// What the identifiers of AI back ends start with.
pub const PROVIDER_PREFIX: &'static str = "prov-";

/// The status of a back end that was not tested yet.
pub const STATUS_TESTING: &'static str = "testing";

/// What is shown for a back end that is being tested.
pub const STATUS_TEXT_TESTING: &'static str = "测试中...";

/// What is shown as the last test of a back end that never had one.
pub const NEVER_TESTED: &'static str = "从未";

impl AIProvider {
    /// Tells whether `self` is the back end added from `input` under the
    /// identifier `id`: in testing, never tested.
    pub open spec fn is_added(self, input: CreateAIProviderInput, id: String) -> bool {
        &&& self.id == id
        &&& self.name == input.name
        &&& self.model_name == input.model_name
        &&& self.api_key == input.api_key
        &&& self.base_url == input.base_url
        &&& self.icon == input.icon
        &&& self.bg_color == input.bg_color
        &&& self.status@ == STATUS_TESTING@
        &&& self.status_text@ == STATUS_TEXT_TESTING@
        &&& self.max_tokens == input.max_tokens
        &&& self.context_length == input.context_length
        &&& self.last_tested@ == NEVER_TESTED@
        &&& self.description == input.description
        &&& self.priority == input.priority
        &&& self.model_pointer == input.model_pointer
    }
}

impl Database {
    /// The values of all columns of `p`, the identifier first.
    pub open spec fn provider_params(p: AIProvider) -> Seq<ParamView> {
        seq![
            ParamView::Text(p.id@),
            ParamView::Text(p.name@),
            ParamView::Text(p.model_name@),
            ParamView::Text(p.api_key@),
            opt_text(p.base_url),
            ParamView::Text(p.icon@),
            ParamView::Text(p.bg_color@),
            ParamView::Text(p.status@),
            ParamView::Text(p.status_text@),
            ParamView::Integer(p.max_tokens as int),
            ParamView::Integer(p.context_length as int),
            ParamView::Text(p.last_tested@),
            opt_text(p.description),
            ParamView::Integer(p.priority as int),
            opt_text(p.model_pointer),
        ]
    }

    fn params_of_provider(p: &AIProvider) -> (params: Vec<Param>)
        ensures
            params@.map_values(|p: Param| p@) == Database::provider_params(*p),
    {
        let mut params: Vec<Param> = Vec::new();
        params.push(Param::text(p.id.as_str()));
        params.push(Param::text(p.name.as_str()));
        params.push(Param::text(p.model_name.as_str()));
        params.push(Param::text(p.api_key.as_str()));
        params.push(Param::optional_text(&p.base_url));
        params.push(Param::text(p.icon.as_str()));
        params.push(Param::text(p.bg_color.as_str()));
        params.push(Param::text(p.status.as_str()));
        params.push(Param::text(p.status_text.as_str()));
        params.push(Param::Integer(p.max_tokens));
        params.push(Param::Integer(p.context_length));
        params.push(Param::text(p.last_tested.as_str()));
        params.push(Param::optional_text(&p.description));
        params.push(Param::Integer(p.priority));
        params.push(Param::optional_text(&p.model_pointer));
        assert(params@.map_values(|p: Param| p@) =~= Database::provider_params(*p));
        params
    }

    /// The query for all AI back ends, by priority and then by name.
    pub fn list_ai_providers(&self) -> (s: Statement)
        ensures
            s@ == plain(SELECT_AI_PROVIDERS@),
    {
        Statement::plain(SELECT_AI_PROVIDERS)
    }

    /// Adds the back end that `input` describes under the identifier `id`:
    /// the back end, and the statement that stores it.
    pub fn create_ai_provider_as(input: CreateAIProviderInput, id: String) -> (plan: Plan<
        AIProvider,
    >)
        ensures
            plan.value.is_added(input, id),
            plan.statements@.map_values(|s: Statement| s@) == seq![
                (StatementView {
                    sql: INSERT_AI_PROVIDER@,
                    params: Database::provider_params(plan.value),
                }),
            ],
    {
        let provider = AIProvider {
            id,
            name: input.name,
            model_name: input.model_name,
            api_key: input.api_key,
            base_url: input.base_url,
            icon: input.icon,
            bg_color: input.bg_color,
            status: owned(STATUS_TESTING),
            status_text: owned(STATUS_TEXT_TESTING),
            max_tokens: input.max_tokens,
            context_length: input.context_length,
            last_tested: owned(NEVER_TESTED),
            description: input.description,
            priority: input.priority,
            model_pointer: input.model_pointer,
        };
        let insert = Statement::new(INSERT_AI_PROVIDER, Database::params_of_provider(&provider));
        let mut statements: Vec<Statement> = Vec::new();
        statements.push(insert);
        assert(statements@.map_values(|s: Statement| s@) =~= seq![
            (StatementView {
                sql: INSERT_AI_PROVIDER@,
                params: Database::provider_params(provider),
            }),
        ]);
        Plan { value: provider, statements }
    }

    /// Adds the back end that `input` describes under a fresh identifier
    /// that starts with `prov-`.
    pub fn create_ai_provider(&self, input: CreateAIProviderInput) -> (plan: Plan<AIProvider>)
        ensures
            plan.value.is_added(input, plan.value.id),
            plan.value.id@.take(PROVIDER_PREFIX@.len() as int) == PROVIDER_PREFIX@,
            is_random_uuid_text(plan.value.id@.skip(PROVIDER_PREFIX@.len() as int)),
            plan.statements@.map_values(|s: Statement| s@) == seq![
                (StatementView {
                    sql: INSERT_AI_PROVIDER@,
                    params: Database::provider_params(plan.value),
                }),
            ],
    {
        Database::create_ai_provider_as(input, fresh_prefixed_id(PROVIDER_PREFIX))
    }

    /// The statement that removes the back end `id`.
    pub fn delete_ai_provider(&self, id: &str) -> (s: Statement)
        ensures
            s@ == Database::by_id(DELETE_AI_PROVIDER@, id@),
    {
        Database::statement_by_id(DELETE_AI_PROVIDER, id)
    }

    /// The statement that writes every column of `provider` over those of
    /// the back end with its identifier.
    pub fn update_ai_provider(&self, provider: &AIProvider) -> (s: Statement)
        ensures
            s@ == (StatementView {
                sql: UPDATE_AI_PROVIDER@,
                params: Database::provider_params(*provider),
            }),
    {
        Statement::new(UPDATE_AI_PROVIDER, Database::params_of_provider(provider))
    }
}

} // verus!
