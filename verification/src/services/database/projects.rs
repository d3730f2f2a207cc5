//! Projects in the store.

use crate::error::StoreError;
use crate::ident::is_random_uuid_text;
use crate::models::project::{
    CreateProjectData,
    Project,
    ProjectListResult,
    ProjectStats,
    ProjectStatus,
};
use crate::services::database::like::{containing, pattern_containing};
use crate::services::database::{all_decoded, instant, plain, read_all, Database, StoredRow};
use crate::sql::{Param, ParamView, Plan, Statement, StatementView};
use crate::strings::{characters, owned, str_eq};
use crate::time::Timestamp;
use vstd::prelude::*;
use vstd::string::*;

verus! {

/// Stores a project.
pub const INSERT_PROJECT: &'static str =
    "INSERT INTO projects (id, name, description, icon, color, status, progress, documents_count, words_count, workspace_id, created_at, updated_at) VALUES (?1, ?2, ?3, ?4, ?5, ?6, ?7, ?8, ?9, ?10, ?11, ?12)";

/// Adds one to the project count of a workspace.
pub const COUNT_PROJECT_IN_WORKSPACE: &'static str =
    "UPDATE workspaces SET projects_count = projects_count + 1 WHERE id = ?1";

/// Asks for the projects of a workspace, the one changed last first.
pub const SELECT_PROJECTS_OF_WORKSPACE: &'static str =
    "SELECT * FROM projects WHERE workspace_id = ?1 ORDER BY updated_at DESC";

/// Asks for all projects, the one changed last first.
pub const SELECT_PROJECTS: &'static str = "SELECT * FROM projects ORDER BY updated_at DESC";

/// Asks for one project.
pub const SELECT_PROJECT: &'static str = "SELECT * FROM projects WHERE id = ?1";

/// Writes the changeable fields of a project.
pub const UPDATE_PROJECT: &'static str =
    "UPDATE projects SET name = ?1, description = ?2, icon = ?3, color = ?4, status = ?5, progress = ?6, updated_at = ?7 WHERE id = ?8";

/// Removes the documents of a project.
pub const DELETE_DOCUMENTS_OF_PROJECT: &'static str = "DELETE FROM documents WHERE project_id = ?1";

/// Removes a project.
pub const DELETE_PROJECT: &'static str = "DELETE FROM projects WHERE id = ?1";

/// Counts the projects; a search adds its conditions.
pub const COUNT_PROJECTS: &'static str = "SELECT COUNT(*) as count FROM projects";

/// Counts the projects of one status.
pub const COUNT_PROJECTS_OF_STATUS: &'static str =
    "SELECT COUNT(*) as count FROM projects WHERE status = ?1";

/// Counts the projects made after an instant.
pub const COUNT_PROJECTS_SINCE: &'static str =
    "SELECT COUNT(*) as count FROM projects WHERE created_at > ?1";

/// The start of the query for one page of a search.
pub const SEARCH_LIST: &'static str = "SELECT * FROM projects";

/// The condition of a search on the workspace.
pub const IN_WORKSPACE: &'static str = "workspace_id = ?";

/// The condition of a search on name and description: one of the two
/// matches the pattern, in which a character after `\` stands for itself.
/// `LIKE` takes the letters of ASCII without regard to their case.
pub const LIKE_TEXT: &'static str =
    "(name LIKE ? ESCAPE '\\' OR description LIKE ? ESCAPE '\\')";

/// The condition of a search on the status.
pub const HAS_STATUS: &'static str = "status = ?";

/// The end of the query for one page of a search.
pub const PAGE: &'static str = " LIMIT ? OFFSET ?";

/// A row of the table `projects`, as the store hands it out.
#[derive(Clone, Debug, PartialEq, Eq)]
pub struct ProjectRow {
    pub id: String,
    pub name: String,
    pub description: String,
    pub icon: String,
    pub color: String,
    pub status: String,
    pub progress: i64,
    pub documents_count: i64,
    pub words_count: i64,
    pub workspace_id: String,
    pub created_at: String,
    pub updated_at: String,
}

impl ProjectRow {
    /// The project that a row without fault holds. A count beyond the range
    /// of `u32` keeps its low 32 bits.
    pub open spec fn project(self) -> Project {
        Project {
            id: self.id,
            name: self.name,
            description: self.description,
            icon: self.icon,
            color: self.color,
            status: ProjectStatus::read(self.status@).unwrap(),
            progress: self.progress as u32,
            documents_count: self.documents_count as u32,
            words_count: self.words_count as u32,
            workspace_id: self.workspace_id,
            created_at: Timestamp::read(self.created_at@).unwrap(),
            updated_at: Timestamp::read(self.updated_at@).unwrap(),
        }
    }
}

impl StoredRow for ProjectRow {
    type Record = Project;

    /// A status that is none, or else the first of the two instants that
    /// is not RFC 3339.
    open spec fn fault(&self) -> Option<StoreError> {
        if ProjectStatus::read(self.status@) is None {
            Some(StoreError::InvalidStatus(self.status))
        } else if Timestamp::read(self.created_at@) is None {
            Some(StoreError::InvalidTimestamp(self.created_at))
        } else if Timestamp::read(self.updated_at@) is None {
            Some(StoreError::InvalidTimestamp(self.updated_at))
        } else {
            None
        }
    }

    open spec fn holds(&self, record: Project) -> bool {
        record == self.project()
    }

    fn decode(&self) -> (r: Result<Project, StoreError>) {
        let status = match ProjectStatus::from_stored(self.status.as_str()) {
            Some(status) => status,
            None => { return Err(StoreError::InvalidStatus(self.status.clone())); },
        };
        let created_at = match Timestamp::from_stored(self.created_at.as_str()) {
            Some(t) => t,
            None => { return Err(StoreError::InvalidTimestamp(self.created_at.clone())); },
        };
        let updated_at = match Timestamp::from_stored(self.updated_at.as_str()) {
            Some(t) => t,
            None => { return Err(StoreError::InvalidTimestamp(self.updated_at.clone())); },
        };
        Ok(
            Project {
                id: self.id.clone(),
                name: self.name.clone(),
                description: self.description.clone(),
                icon: self.icon.clone(),
                color: self.color.clone(),
                status,
                progress: #[verifier::truncate] (self.progress as u32),
                documents_count: #[verifier::truncate] (self.documents_count as u32),
                words_count: #[verifier::truncate] (self.words_count as u32),
                workspace_id: self.workspace_id.clone(),
                created_at,
                updated_at,
            },
        )
    }
}

/// The two queries of a search: how many projects match, and one page of
/// them.
#[derive(Clone, Debug, PartialEq)]
pub struct ProjectSearch {
    pub count: Statement,
    pub list: Statement,
}

/// What a search looks for. `None` is no condition.
pub ghost struct SearchFilter {
    pub workspace_id: Option<Seq<char>>,
    pub query: Option<Seq<char>>,
    pub status: Option<ProjectStatus>,
}

impl SearchFilter {
    /// `conditions` with one more: the first follows ` WHERE `, each
    /// further one ` AND `.
    pub open spec fn and(conditions: Seq<char>, condition: Seq<char>) -> Seq<char> {
        if conditions.len() == 0 {
            " WHERE "@ + condition
        } else {
            conditions + " AND "@ + condition
        }
    }

    /// The conditions up to the one on the workspace.
    pub open spec fn workspace_clause(self) -> Seq<char> {
        if self.workspace_id is Some {
            Self::and(Seq::empty(), IN_WORKSPACE@)
        } else {
            Seq::empty()
        }
    }

    /// The conditions up to the one on name and description.
    pub open spec fn query_clause(self) -> Seq<char> {
        if self.query is Some {
            Self::and(self.workspace_clause(), LIKE_TEXT@)
        } else {
            self.workspace_clause()
        }
    }

    /// The `WHERE` clause, empty where nothing is asked.
    pub open spec fn clause(self) -> Seq<char> {
        if self.status is Some {
            Self::and(self.query_clause(), HAS_STATUS@)
        } else {
            self.query_clause()
        }
    }

    /// The pattern that finds `query` anywhere in a text: `query` itself,
    /// its special characters escaped, between two `%`.
    pub open spec fn pattern(query: Seq<char>) -> Seq<char> {
        containing(query)
    }

    /// The values for the placeholders of the `WHERE` clause.
    pub open spec fn params(self) -> Seq<ParamView> {
        (match self.workspace_id {
            Some(id) => seq![ParamView::Text(id)],
            None => Seq::empty(),
        }) + (match self.query {
            Some(query) => seq![
                ParamView::Text(Self::pattern(query)),
                ParamView::Text(Self::pattern(query)),
            ],
            None => Seq::empty(),
        }) + (match self.status {
            Some(status) => seq![ParamView::Text(status.stored())],
            None => Seq::empty(),
        })
    }
}

/// Tells whether `order` is `ASC` in upper or lower case.
pub open spec fn is_ascending(order: Seq<char>) -> bool {
    &&& order.len() == 3
    &&& (order[0] == 'A' || order[0] == 'a')
    &&& (order[1] == 'S' || order[1] == 's')
    &&& (order[2] == 'C' || order[2] == 'c')
}

/// The `ORDER BY` clause of a search. Only `name` and `created_at` can be
/// asked for, in either direction; anything else is the instant of the last
/// change, the latest first.
pub open spec fn search_order(sort: Option<Seq<char>>, order: Option<Seq<char>>) -> Seq<char> {
    let ascending = order is Some && is_ascending(order.unwrap());
    if sort == Some("name"@) {
        if ascending {
            " ORDER BY name ASC"@
        } else {
            " ORDER BY name DESC"@
        }
    } else if sort == Some("created_at"@) {
        if ascending {
            " ORDER BY created_at ASC"@
        } else {
            " ORDER BY created_at DESC"@
        }
    } else {
        " ORDER BY updated_at DESC"@
    }
}

/// The rows of a page: the page size, but at least one.
pub open spec fn search_limit(page_size: u32) -> int {
    if page_size < 1 {
        1
    } else {
        page_size as int
    }
}

/// The rows before a page: pages are counted from one, and a page number
/// of zero is taken for one. An offset beyond the range of `i64` is the
/// largest `i64`.
pub open spec fn search_offset(page: u32, page_size: u32) -> int {
    let rows = ((if page < 1 {
        1
    } else {
        page as int
    }) - 1) * search_limit(page_size);
    if rows > i64::MAX {
        i64::MAX as int
    } else {
        rows
    }
}

/// Reads the filter from what a caller gives. A status is asked for by
/// its name; a name that no status has is no condition.
pub open spec fn search_filter(
    workspace_id: Option<&str>,
    query: Option<&str>,
    status: Option<&str>,
) -> SearchFilter {
    SearchFilter {
        workspace_id: characters(workspace_id),
        query: characters(query),
        status: match status {
            Some(name) => ProjectStatus::named(name@),
            None => None,
        },
    }
}

/// Whatever a caller asks for, the order of a search is one of five: no
/// text of the caller's ever gets into it.
pub proof fn lemma_order_is_listed(sort: Option<Seq<char>>, order: Option<Seq<char>>)
    ensures
        search_order(sort, order) == " ORDER BY name ASC"@ || search_order(sort, order)
            == " ORDER BY name DESC"@ || search_order(sort, order) == " ORDER BY created_at ASC"@
            || search_order(sort, order) == " ORDER BY created_at DESC"@ || search_order(
            sort,
            order,
        ) == " ORDER BY updated_at DESC"@,
{
}

/// A search by name is sorted by the store on the column `name`:
/// ascending where `ASC` is asked for in any case of letters, descending
/// otherwise. The store compares texts byte by byte, so in ascending
/// order an upper-case letter comes before every lower-case one.
pub proof fn lemma_order_by_name(order: Seq<char>)
    ensures
        is_ascending(order) ==> search_order(Some("name"@), Some(order)) == " ORDER BY name ASC"@,
        !is_ascending(order) ==> search_order(Some("name"@), Some(order))
            == " ORDER BY name DESC"@,
        is_ascending("ASC"@),
{
    reveal_strlit("ASC");
    assert("ASC"@.len() == 3 && "ASC"@[0] == 'A' && "ASC"@[1] == 'S' && "ASC"@[2] == 'C');
}

/// The count of a search and its page ask the same of the same projects:
/// the page has the conditions of the count and the values bound to them,
/// and after them only the order and the cut. So the total does not depend
/// on the page asked for, and a page beyond the last leaves it as it is.
pub proof fn lemma_page_shares_filter(
    filter: SearchFilter,
    sort: Option<Seq<char>>,
    order: Option<Seq<char>>,
    page: u32,
    page_size: u32,
)
    ensures
        Database::search_count(filter).sql == COUNT_PROJECTS@ + filter.clause(),
        Database::search_list(filter, sort, order, page, page_size).sql == SEARCH_LIST@
            + filter.clause() + search_order(sort, order) + PAGE@,
        Database::search_list(filter, sort, order, page, page_size).params.take(
            filter.params().len() as int,
        ) == Database::search_count(filter).params,
        Database::search_list(filter, sort, order, page, page_size).params.skip(
            filter.params().len() as int,
        ) == seq![
            ParamView::Integer(search_limit(page_size)),
            ParamView::Integer(search_offset(page, page_size)),
        ],
{
    let list = Database::search_list(filter, sort, order, page, page_size);
    assert(list.params.take(filter.params().len() as int) =~= filter.params());
    assert(list.params.skip(filter.params().len() as int) =~= seq![
        ParamView::Integer(search_limit(page_size)),
        ParamView::Integer(search_offset(page, page_size)),
    ]);
}

/// The cut of a page: at least one row, none skipped on the first page,
/// and on each further page as many more as a page holds.
pub proof fn lemma_pages_follow(page: u32, page_size: u32)
    ensures
        search_limit(page_size) >= 1,
        search_offset(0, page_size) == 0,
        search_offset(1, page_size) == 0,
        1 <= page < u32::MAX && search_offset((page + 1) as u32, page_size) < i64::MAX
            ==> search_offset((page + 1) as u32, page_size) == search_offset(page, page_size)
            + search_limit(page_size),
{
    if 1 <= page < u32::MAX {
        let l = search_limit(page_size);
        assert(((page + 1) - 1) * l == (page - 1) * l + l) by (nonlinear_arith);
    }
}

fn ascending(order: Option<&str>) -> (r: bool)
    ensures
        r == (order is Some && is_ascending(order.unwrap()@)),
{
    match order {
        None => false,
        Some(order) => {
            if order.unicode_len() != 3 {
                return false;
            }
            let a = order.get_char(0);
            let s = order.get_char(1);
            let c = order.get_char(2);
            (a == 'A' || a == 'a') && (s == 'S' || s == 's') && (c == 'C' || c == 'c')
        },
    }
}

fn order_clause(sort: Option<&str>, order: Option<&str>) -> (r: &'static str)
    ensures
        r@ == search_order(characters(sort), characters(order)),
{
    let up = ascending(order);
    match sort {
        Some(sort) => {
            if str_eq(sort, "name") {
                if up {
                    " ORDER BY name ASC"
                } else {
                    " ORDER BY name DESC"
                }
            } else if str_eq(sort, "created_at") {
                if up {
                    " ORDER BY created_at ASC"
                } else {
                    " ORDER BY created_at DESC"
                }
            } else {
                " ORDER BY updated_at DESC"
            }
        },
        None => " ORDER BY updated_at DESC",
    }
}

fn add_condition(conditions: &mut String, condition: &str)
    ensures
        final(conditions)@ == SearchFilter::and(old(conditions)@, condition@),
{
    if conditions.as_str().is_empty() {
        conditions.append(" WHERE ");
    } else {
        conditions.append(" AND ");
    }
    conditions.append(condition);
}

impl Database {
    /// The statement that stores the project `p`.
    pub open spec fn project_insert(p: Project) -> StatementView {
        StatementView {
            sql: INSERT_PROJECT@,
            params: seq![
                ParamView::Text(p.id@),
                ParamView::Text(p.name@),
                ParamView::Text(p.description@),
                ParamView::Text(p.icon@),
                ParamView::Text(p.color@),
                ParamView::Text(p.status.stored()),
                ParamView::Integer(p.progress as int),
                ParamView::Integer(p.documents_count as int),
                ParamView::Integer(p.words_count as int),
                ParamView::Text(p.workspace_id@),
                instant(p.created_at),
                instant(p.updated_at),
            ],
        }
    }

    /// The statement that writes name, description, icon, colour, status
    /// and progress of `p` over those of the project `id`, changed at
    /// `now`. Counters, workspace and instant of creation stay.
    pub open spec fn project_update(id: Seq<char>, p: Project, now: Timestamp) -> StatementView {
        StatementView {
            sql: UPDATE_PROJECT@,
            params: seq![
                ParamView::Text(p.name@),
                ParamView::Text(p.description@),
                ParamView::Text(p.icon@),
                ParamView::Text(p.color@),
                ParamView::Text(p.status.stored()),
                ParamView::Integer(p.progress as int),
                instant(now),
                ParamView::Text(id),
            ],
        }
    }

    /// The statements that remove the project `id`: first its documents,
    /// then the project.
    pub open spec fn project_removal(id: Seq<char>) -> Seq<StatementView> {
        seq![
            Database::by_id(DELETE_DOCUMENTS_OF_PROJECT@, id),
            Database::by_id(DELETE_PROJECT@, id),
        ]
    }

    /// The five counts of the project statistics: all projects, those of
    /// each status, and those made after `since`.
    pub open spec fn project_counts(since: Timestamp) -> Seq<StatementView> {
        seq![
            plain(COUNT_PROJECTS@),
            Database::by_id(COUNT_PROJECTS_OF_STATUS@, ProjectStatus::Active.stored()),
            Database::by_id(COUNT_PROJECTS_OF_STATUS@, ProjectStatus::Completed.stored()),
            Database::by_id(COUNT_PROJECTS_OF_STATUS@, ProjectStatus::Archived.stored()),
            StatementView { sql: COUNT_PROJECTS_SINCE@, params: seq![instant(since)] },
        ]
    }

    /// The query that counts the projects that `filter` lets through.
    pub open spec fn search_count(filter: SearchFilter) -> StatementView {
        StatementView { sql: COUNT_PROJECTS@ + filter.clause(), params: filter.params() }
    }

    /// The query for one page of the projects that `filter` lets through.
    pub open spec fn search_list(
        filter: SearchFilter,
        sort: Option<Seq<char>>,
        order: Option<Seq<char>>,
        page: u32,
        page_size: u32,
    ) -> StatementView {
        StatementView {
            sql: SEARCH_LIST@ + filter.clause() + search_order(sort, order) + PAGE@,
            params: filter.params() + seq![
                ParamView::Integer(search_limit(page_size)),
                ParamView::Integer(search_offset(page, page_size)),
            ],
        }
    }

    /// The statement that stores `p`.
    pub fn insert_project(p: &Project) -> (s: Statement)
        ensures
            s@ == Database::project_insert(*p),
    {
        let mut params: Vec<Param> = Vec::new();
        params.push(Param::text(p.id.as_str()));
        params.push(Param::text(p.name.as_str()));
        params.push(Param::text(p.description.as_str()));
        params.push(Param::text(p.icon.as_str()));
        params.push(Param::text(p.color.as_str()));
        params.push(Param::Text(p.status.to_stored()));
        params.push(Param::count(p.progress));
        params.push(Param::count(p.documents_count));
        params.push(Param::count(p.words_count));
        params.push(Param::text(p.workspace_id.as_str()));
        params.push(Param::Text(p.created_at.to_stored()));
        params.push(Param::Text(p.updated_at.to_stored()));
        let s = Statement::new(INSERT_PROJECT, params);
        assert(s@.params =~= Database::project_insert(*p).params);
        s
    }

    /// The statements that store `p` and count it in its workspace.
    pub fn store_project(p: &Project) -> (statements: Vec<Statement>)
        ensures
            statements@.map_values(|s: Statement| s@) == seq![
                Database::project_insert(*p),
                Database::by_id(COUNT_PROJECT_IN_WORKSPACE@, p.workspace_id@),
            ],
    {
        let mut statements: Vec<Statement> = Vec::new();
        statements.push(Database::insert_project(p));
        statements.push(
            Database::statement_by_id(COUNT_PROJECT_IN_WORKSPACE, p.workspace_id.as_str()),
        );
        assert(statements@.map_values(|s: Statement| s@) =~= seq![
            Database::project_insert(*p),
            Database::by_id(COUNT_PROJECT_IN_WORKSPACE@, p.workspace_id@),
        ]);
        statements
    }

    /// Makes a project from `data`, under a fresh identifier and stamped
    /// with the current instant, and the statements that store it and add
    /// one to the project count of its workspace.
    pub fn create_project(&self, data: CreateProjectData) -> (plan: Plan<Project>)
        ensures
            plan.value == Project::fresh(data, plan.value.id, plan.value.created_at),
            is_random_uuid_text(plan.value.id@),
            plan.statements@.map_values(|s: Statement| s@) == seq![
                Database::project_insert(plan.value),
                Database::by_id(COUNT_PROJECT_IN_WORKSPACE@, data.workspace_id@),
            ],
    {
        let project = Project::new(data);
        let statements = Database::store_project(&project);
        Plan { value: project, statements }
    }

    /// The query for the projects of the workspace `workspace_id`, the one
    /// changed last first.
    pub fn get_projects_by_workspace(&self, workspace_id: &str) -> (s: Statement)
        ensures
            s@ == Database::by_id(SELECT_PROJECTS_OF_WORKSPACE@, workspace_id@),
    {
        Database::statement_by_id(SELECT_PROJECTS_OF_WORKSPACE, workspace_id)
    }

    /// The query for all projects, the one changed last first.
    pub fn get_projects(&self) -> (s: Statement)
        ensures
            s@ == plain(SELECT_PROJECTS@),
    {
        Statement::plain(SELECT_PROJECTS)
    }

    /// Reads the rows of a query for projects, in their order. The first
    /// row that cannot be read fails the whole.
    pub fn read_projects(rows: &Vec<ProjectRow>) -> (r: Result<Vec<Project>, StoreError>)
        ensures
            all_decoded(rows@, r),
    {
        read_all(rows)
    }

    /// The query for the project `project_id`.
    pub fn get_project_by_id(&self, project_id: &str) -> (s: Statement)
        ensures
            s@ == Database::by_id(SELECT_PROJECT@, project_id@),
    {
        Database::statement_by_id(SELECT_PROJECT, project_id)
    }

    /// Reads the answer to [`Database::get_project_by_id`]: no row is no
    /// project, and a row that cannot be read is a failure.
    pub fn read_project(row: Option<&ProjectRow>) -> (r: Result<Option<Project>, StoreError>)
        ensures
            r == match row {
                None => Ok::<Option<Project>, StoreError>(None),
                Some(row) => match row.fault() {
                    None => Ok(Some(row.project())),
                    Some(e) => Err(e),
                },
            },
    {
        match row {
            None => Ok(None),
            Some(row) => match row.decode() {
                Ok(p) => Ok(Some(p)),
                Err(e) => Err(e),
            },
        }
    }

    /// The statement that writes the changeable fields of `project` over
    /// those of the project `project_id`, changed at `now` whatever
    /// instant `project` itself carries.
    pub fn update_project_at(project_id: &str, project: &Project, now: Timestamp) -> (s: Statement)
        ensures
            s@ == Database::project_update(project_id@, *project, now),
    {
        let mut params: Vec<Param> = Vec::new();
        params.push(Param::text(project.name.as_str()));
        params.push(Param::text(project.description.as_str()));
        params.push(Param::text(project.icon.as_str()));
        params.push(Param::text(project.color.as_str()));
        params.push(Param::Text(project.status.to_stored()));
        params.push(Param::count(project.progress));
        params.push(Param::Text(now.to_stored()));
        params.push(Param::text(project_id));
        let s = Statement::new(UPDATE_PROJECT, params);
        assert(s@.params =~= Database::project_update(project_id@, *project, now).params);
        s
    }

    /// The statement that writes the changeable fields of `project` over
    /// those of the project `project_id`, changed at the current instant.
    pub fn update_project(&self, project_id: &str, project: Project) -> (s: Statement)
        ensures
            exists|now: Timestamp| s@ == Database::project_update(project_id@, project, now),
    {
        Database::update_project_at(project_id, &project, Timestamp::now())
    }

    /// The statements that remove the project `project_id` and, before it,
    /// every document of it. The project count of the workspace is left as
    /// it is.
    pub fn delete_project(&self, project_id: &str) -> (statements: Vec<Statement>)
        ensures
            statements@.map_values(|s: Statement| s@) == Database::project_removal(project_id@),
    {
        let mut statements: Vec<Statement> = Vec::new();
        statements.push(Database::statement_by_id(DELETE_DOCUMENTS_OF_PROJECT, project_id));
        statements.push(Database::statement_by_id(DELETE_PROJECT, project_id));
        assert(statements@.map_values(|s: Statement| s@) =~= Database::project_removal(
            project_id@,
        ));
        statements
    }

    /// The five counts of the project statistics, where "this week" starts
    /// at `since`.
    pub fn project_stats_since(since: Timestamp) -> (statements: Vec<Statement>)
        ensures
            statements@.map_values(|s: Statement| s@) == Database::project_counts(since),
    {
        let mut statements: Vec<Statement> = Vec::new();
        statements.push(Statement::plain(COUNT_PROJECTS));
        statements.push(
            Database::statement_by_id(
                COUNT_PROJECTS_OF_STATUS,
                ProjectStatus::Active.to_stored().as_str(),
            ),
        );
        statements.push(
            Database::statement_by_id(
                COUNT_PROJECTS_OF_STATUS,
                ProjectStatus::Completed.to_stored().as_str(),
            ),
        );
        statements.push(
            Database::statement_by_id(
                COUNT_PROJECTS_OF_STATUS,
                ProjectStatus::Archived.to_stored().as_str(),
            ),
        );
        let mut params: Vec<Param> = Vec::new();
        params.push(Param::Text(since.to_stored()));
        let recent = Statement::new(COUNT_PROJECTS_SINCE, params);
        assert(recent@.params =~= seq![instant(since)]);
        statements.push(recent);
        assert(statements@.map_values(|s: Statement| s@) =~= Database::project_counts(since));
        statements
    }

    /// The five counts of the project statistics as of the instant `now`:
    /// "this week" starts one week before it.
    pub fn project_stats_at(now: Timestamp) -> (statements: Vec<Statement>)
        ensures
            statements@.map_values(|s: Statement| s@) == Database::project_counts(
                now.a_week_before(),
            ),
    {
        Database::project_stats_since(now.week_earlier())
    }

    /// The five counts of the project statistics as of the current
    /// instant: "this week" starts one week before the clock's reading.
    pub fn get_project_stats(&self) -> (statements: Vec<Statement>)
        ensures
            exists|now: Timestamp|
                statements@.map_values(|s: Statement| s@) == Database::project_counts(
                    now.a_week_before(),
                ),
    {
        Database::project_stats_at(Timestamp::now())
    }

    /// The statistics from the answers to the five counts, in the order of
    /// the counts. A count beyond the range of `u32` keeps its low 32 bits.
    pub fn read_project_stats(
        total: i64,
        active: i64,
        completed: i64,
        archived: i64,
        this_week: i64,
    ) -> (stats: ProjectStats)
        ensures
            stats == (ProjectStats {
                total: total as u32,
                active: active as u32,
                completed: completed as u32,
                archived: archived as u32,
                this_week: this_week as u32,
            }),
    {
        ProjectStats {
            total: #[verifier::truncate] (total as u32),
            active: #[verifier::truncate] (active as u32),
            completed: #[verifier::truncate] (completed as u32),
            archived: #[verifier::truncate] (archived as u32),
            this_week: #[verifier::truncate] (this_week as u32),
        }
    }

    /// The two queries of a search: the count of the projects that pass
    /// the filter, and one page of them in the order asked for. Both have
    /// the same conditions; the page is cut out by limit and offset.
    pub fn search_projects(
        &self,
        workspace_id: Option<&str>,
        query: Option<&str>,
        status: Option<&str>,
        sort: Option<&str>,
        order: Option<&str>,
        page: u32,
        page_size: u32,
    ) -> (search: ProjectSearch)
        ensures
            search.count@ == Database::search_count(search_filter(workspace_id, query, status)),
            search.list@ == Database::search_list(
                search_filter(workspace_id, query, status),
                characters(sort),
                characters(order),
                page,
                page_size,
            ),
    {
        let ghost filter = search_filter(workspace_id, query, status);
        let mut conditions = String::new();
        let mut count_params: Vec<Param> = Vec::new();
        let mut list_params: Vec<Param> = Vec::new();
        if let Some(id) = workspace_id {
            add_condition(&mut conditions, IN_WORKSPACE);
            count_params.push(Param::text(id));
            list_params.push(Param::text(id));
        }
        if let Some(q) = query {
            add_condition(&mut conditions, LIKE_TEXT);
            let pattern = pattern_containing(q);
            count_params.push(Param::text(pattern.as_str()));
            count_params.push(Param::text(pattern.as_str()));
            list_params.push(Param::text(pattern.as_str()));
            list_params.push(Param::text(pattern.as_str()));
        }
        if let Some(name) = status {
            if let Some(wanted) = ProjectStatus::from_name(name) {
                add_condition(&mut conditions, HAS_STATUS);
                count_params.push(Param::Text(wanted.to_stored()));
                list_params.push(Param::Text(wanted.to_stored()));
            }
        }
        assert(conditions@ == filter.clause());
        assert(count_params@.map_values(|p: Param| p@) =~= filter.params());
        assert(list_params@.map_values(|p: Param| p@) =~= filter.params());

        let limit: u64 = if page_size < 1 {
            1
        } else {
            page_size as u64
        };
        let pages_before: u64 = if page < 1 {
            0
        } else {
            page as u64 - 1
        };
        assert(0 <= pages_before * limit <= 0xFFFF_FFFF * 0xFFFF_FFFF) by (nonlinear_arith)
            requires
                0 <= pages_before <= 0xFFFF_FFFF,
                1 <= limit <= 0xFFFF_FFFF,
        ;
        let rows_before: u64 = pages_before * limit;
        let offset: i64 = if rows_before > i64::MAX as u64 {
            i64::MAX
        } else {
            rows_before as i64
        };
        list_params.push(Param::Integer(limit as i64));
        list_params.push(Param::Integer(offset));

        let mut count_sql = owned(COUNT_PROJECTS);
        count_sql.append(conditions.as_str());
        let mut list_sql = owned(SEARCH_LIST);
        list_sql.append(conditions.as_str());
        list_sql.append(order_clause(sort, order));
        list_sql.append(PAGE);

        let count = Statement::new(count_sql.as_str(), count_params);
        let list = Statement::new(list_sql.as_str(), list_params);
        assert(list@.params =~= Database::search_list(
            filter,
            characters(sort),
            characters(order),
            page,
            page_size,
        ).params);
        ProjectSearch { count, list }
    }

    /// The result of a search from the answers to its two queries. A count
    /// beyond the range of `u32` keeps its low 32 bits; a row that cannot
    /// be read fails the whole.
    pub fn read_search(total: i64, rows: &Vec<ProjectRow>) -> (r: Result<
        ProjectListResult,
        StoreError,
    >)
        ensures
            match r {
                Ok(found) => found.total == total as u32 && all_decoded(
                    rows@,
                    Ok::<Vec<Project>, StoreError>(found.items),
                ),
                Err(e) => all_decoded(rows@, Err::<Vec<Project>, StoreError>(e)),
            },
    {
        match read_all(rows) {
            Ok(items) => Ok(ProjectListResult { items, total: #[verifier::truncate] (total as u32) }),
            Err(e) => Err(e),
        }
    }
}

} // verus!
