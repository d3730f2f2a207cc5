use writeflow_studio::error::StoreError;
use writeflow_studio::models::agent::{AgentModel, InstallAgentInput};
use writeflow_studio::models::document::{
    CreateDocumentData, Document, DocumentMetadata, DocumentStatus, DocumentType,
};
use writeflow_studio::models::project::{
    CreateProjectData, Project, ProjectListResult, ProjectStats, ProjectStatus,
};
use writeflow_studio::models::provider::{AIProvider, CreateAIProviderInput};
use writeflow_studio::models::workspace::{CreateWorkspaceData, Workspace, WorkspaceStatus};
use writeflow_studio::services::database::agents::AgentRow;
use writeflow_studio::services::database::documents::DocumentRow;
use writeflow_studio::services::database::like::{escape, pattern_containing};
use writeflow_studio::services::database::projects::ProjectRow;
use writeflow_studio::services::database::workspaces::WorkspaceRow;
use writeflow_studio::services::database::{read_all, Database, StoredRow, DATABASE_FILE, DATA_DIRECTORY};
use writeflow_studio::sql::{Param, Statement};
use writeflow_studio::time::Timestamp;

fn at(secs: i64) -> Timestamp {
    Timestamp::new(secs, 0).expect("a representable instant")
}

fn text(s: &str) -> Param {
    Param::Text(s.to_string())
}

const T0: &str = "1970-01-01T00:00:00+00:00";
const T100: &str = "1970-01-01T00:01:40+00:00";
const T200: &str = "1970-01-01T00:03:20+00:00";

fn project(id: &str) -> Project {
    Project {
        id: id.to_string(),
        name: "Novel".to_string(),
        description: "Long".to_string(),
        icon: "book".to_string(),
        color: "#fff".to_string(),
        status: ProjectStatus::Completed,
        progress: 40,
        documents_count: 2,
        words_count: 900,
        workspace_id: "w-1".to_string(),
        created_at: at(0),
        updated_at: at(100),
    }
}

fn project_row(id: &str) -> ProjectRow {
    ProjectRow {
        id: id.to_string(),
        name: "Novel".to_string(),
        description: "Long".to_string(),
        icon: "book".to_string(),
        color: "#fff".to_string(),
        status: "\"Completed\"".to_string(),
        progress: 40,
        documents_count: 2,
        words_count: 900,
        workspace_id: "w-1".to_string(),
        created_at: T0.to_string(),
        updated_at: T100.to_string(),
    }
}

fn metadata() -> DocumentMetadata {
    DocumentMetadata {
        author: Some("me".to_string()),
        language: "en".to_string(),
        reading_time: 1,
        export_formats: vec!["pdf".to_string()],
        version: 3,
    }
}

fn document(id: &str) -> Document {
    Document {
        id: id.to_string(),
        title: "Chapter".to_string(),
        content: "one two three".to_string(),
        content_type: DocumentType::RichText,
        status: DocumentStatus::Review,
        word_count: 3,
        char_count: 13,
        project_id: "p-1".to_string(),
        folder_path: None,
        tags: vec!["a".to_string(), "b\"c".to_string()],
        metadata: metadata(),
        created_at: at(0),
        updated_at: at(100),
        last_accessed: at(200),
    }
}

fn document_row(id: &str) -> DocumentRow {
    DocumentRow {
        id: id.to_string(),
        title: "Chapter".to_string(),
        content: "one two three".to_string(),
        content_type: "\"RichText\"".to_string(),
        status: "\"Review\"".to_string(),
        word_count: 3,
        char_count: 13,
        project_id: "p-1".to_string(),
        folder_path: None,
        tags: "[\"a\",\"b\\\"c\"]".to_string(),
        metadata: Some(metadata()),
        created_at: T0.to_string(),
        updated_at: T100.to_string(),
        last_accessed: T200.to_string(),
    }
}

fn workspace_row() -> WorkspaceRow {
    WorkspaceRow {
        id: "w-1".to_string(),
        name: "Books".to_string(),
        description: "All".to_string(),
        projects_count: 3,
        status: "\"Inactive\"".to_string(),
        created_at: T0.to_string(),
        updated_at: T100.to_string(),
        last_accessed: T200.to_string(),
    }
}

fn workspace() -> Workspace {
    Workspace {
        id: "w-1".to_string(),
        name: "Books".to_string(),
        description: "All".to_string(),
        projects_count: 3,
        status: WorkspaceStatus::Inactive,
        created_at: at(0),
        updated_at: at(100),
        last_accessed: at(200),
    }
}

#[test]
fn the_store_lives_in_the_data_directory() {
    assert_eq!(DATA_DIRECTORY, "writeflow-studio");
    assert_eq!(DATABASE_FILE, "writeflow.db");
    assert_eq!(
        Database::database_url("/home/u/.local/share/writeflow-studio/writeflow.db"),
        "sqlite:/home/u/.local/share/writeflow-studio/writeflow.db?mode=rwc"
    );
}

#[test]
fn tables_are_made_only_where_absent() {
    let statements = Database::new().init_tables();
    assert_eq!(statements.len(), 6);
    let tables = ["workspaces", "projects", "documents", "config", "agents", "ai_providers"];
    for (statement, table) in statements.iter().zip(tables) {
        let start = format!("CREATE TABLE IF NOT EXISTS {} (", table);
        assert!(statement.sql.starts_with(&start), "{}", statement.sql);
        assert!(statement.sql.ends_with(')'));
        assert!(statement.params.is_empty());
    }
}

#[test]
fn tables_have_one_definition_per_column() {
    let statements = Database::new().init_tables();
    let columns = [8, 12, 14, 3, 7, 15];
    for (statement, n) in statements.iter().zip(columns) {
        let inner = &statement.sql[statement.sql.find('(').unwrap() + 1..statement.sql.len() - 1];
        let definitions = inner
            .split(", ")
            .filter(|d| !d.starts_with("FOREIGN KEY"))
            .count();
        assert_eq!(definitions, n, "{}", statement.sql);
    }
    assert_eq!(
        Database::create_table("t", "id TEXT"),
        Statement { sql: "CREATE TABLE IF NOT EXISTS t (id TEXT)".to_string(), params: vec![] }
    );
}

#[test]
fn a_workspace_is_stored_with_all_columns() {
    let s = Database::insert_workspace(&workspace());
    assert_eq!(
        s.sql,
        "INSERT INTO workspaces (id, name, description, projects_count, status, created_at, updated_at, last_accessed) VALUES (?1, ?2, ?3, ?4, ?5, ?6, ?7, ?8)"
    );
    assert_eq!(
        s.params,
        vec![
            text("w-1"),
            text("Books"),
            text("All"),
            Param::Integer(3),
            text("\"Inactive\""),
            text(T0),
            text(T100),
            text(T200),
        ]
    );
}

#[test]
fn creating_a_workspace_stores_what_it_returns() {
    let data = CreateWorkspaceData { name: "Books".to_string(), description: "All".to_string() };
    let plan = Database::new().create_workspace(data);
    assert_eq!(plan.value.name, "Books");
    assert_eq!(plan.value.status, WorkspaceStatus::Active);
    assert_eq!(plan.statements, vec![Database::insert_workspace(&plan.value)]);
    assert_eq!(plan.statements[0].params[0], text(&plan.value.id));
}

#[test]
fn workspaces_are_listed_latest_first() {
    let s = Database::new().get_workspaces();
    assert_eq!(s, Statement { sql: "SELECT * FROM workspaces ORDER BY updated_at DESC".to_string(), params: vec![] });
}

#[test]
fn workspace_rows_are_read_in_order() {
    let mut second = workspace_row();
    second.id = "w-2".to_string();
    second.projects_count = (1i64 << 32) + 5;
    let read = Database::read_workspaces(&vec![workspace_row(), second]).unwrap();
    assert_eq!(read.len(), 2);
    assert_eq!(read[0], workspace());
    assert_eq!(read[1].id, "w-2");
    assert_eq!(read[1].projects_count, 5);
    assert_eq!(Database::read_workspaces(&vec![]), Ok(vec![]));
}

#[test]
fn a_workspace_row_with_a_bad_status_fails_strictly() {
    let mut row = workspace_row();
    row.status = "Inactive".to_string();
    assert_eq!(row.decode_strictly(), Err(StoreError::InvalidStatus("Inactive".to_string())));
    assert_eq!(row.decode(), Err(StoreError::InvalidStatus("Inactive".to_string())));
    assert_eq!(
        Database::read_workspaces(&vec![workspace_row(), row]),
        Err(StoreError::InvalidStatus("Inactive".to_string()))
    );
}

#[test]
fn a_workspace_row_with_a_bad_status_is_active_leniently() {
    let mut row = workspace_row();
    row.status = "?".to_string();
    let w = row.decode_leniently().unwrap();
    assert_eq!(w, Workspace { status: WorkspaceStatus::Active, ..workspace() });
    assert_eq!(Database::read_workspace(Some(&row)), Ok(Some(w)));
    assert_eq!(Database::read_workspace(Some(&workspace_row())), Ok(Some(workspace())));
    assert_eq!(Database::read_workspace(None), Ok(None));
}

#[test]
fn a_workspace_row_with_a_bad_instant_fails_either_way() {
    let mut row = workspace_row();
    row.updated_at = "soon".to_string();
    row.last_accessed = "later".to_string();
    let e = StoreError::InvalidTimestamp("soon".to_string());
    assert_eq!(row.decode_strictly(), Err(e.clone()));
    assert_eq!(row.decode_leniently(), Err(e.clone()));
    assert_eq!(Database::read_workspace(Some(&row)), Err(e));
    row.status = "bad".to_string();
    assert_eq!(row.decode_strictly(), Err(StoreError::InvalidStatus("bad".to_string())));
}

#[test]
fn a_workspace_is_found_changed_and_removed_by_id() {
    let db = Database::new();
    assert_eq!(
        db.get_workspace_by_id("w-1"),
        Statement { sql: "SELECT * FROM workspaces WHERE id = ?1".to_string(), params: vec![text("w-1")] }
    );
    assert_eq!(
        db.delete_workspace("w-1"),
        Statement { sql: "DELETE FROM workspaces WHERE id = ?1".to_string(), params: vec![text("w-1")] }
    );
    assert_eq!(
        Database::update_workspace_at("w-1", "New", "Text", at(100)),
        Statement {
            sql: "UPDATE workspaces SET name = ?2, description = ?3, updated_at = ?4 WHERE id = ?1".to_string(),
            params: vec![text("w-1"), text("New"), text("Text"), text(T100)],
        }
    );
    let now = db.update_workspace("w-1", "New", "Text");
    assert_eq!(now.params.len(), 4);
    assert_eq!(&now.params[..3], &[text("w-1"), text("New"), text("Text")]);
    assert!(matches!(&now.params[3], Param::Text(t) if Timestamp::from_stored(t).is_some()));
}

#[test]
fn a_changed_workspace_must_still_be_there() {
    assert_eq!(Database::updated_workspace("w-1", Some(&workspace_row())), Ok(workspace()));
    assert_eq!(
        Database::updated_workspace("w-9", None),
        Err(StoreError::WorkspaceNotFound("w-9".to_string()))
    );
}

#[test]
fn a_project_is_stored_and_counted_in_its_workspace() {
    let statements = Database::store_project(&project("p-1"));
    assert_eq!(statements.len(), 2);
    assert_eq!(
        statements[0].sql,
        "INSERT INTO projects (id, name, description, icon, color, status, progress, documents_count, words_count, workspace_id, created_at, updated_at) VALUES (?1, ?2, ?3, ?4, ?5, ?6, ?7, ?8, ?9, ?10, ?11, ?12)"
    );
    assert_eq!(
        statements[0].params,
        vec![
            text("p-1"),
            text("Novel"),
            text("Long"),
            text("book"),
            text("#fff"),
            text("\"Completed\""),
            Param::Integer(40),
            Param::Integer(2),
            Param::Integer(900),
            text("w-1"),
            text(T0),
            text(T100),
        ]
    );
    assert_eq!(statements[0], Database::insert_project(&project("p-1")));
    assert_eq!(
        statements[1],
        Statement {
            sql: "UPDATE workspaces SET projects_count = projects_count + 1 WHERE id = ?1".to_string(),
            params: vec![text("w-1")],
        }
    );
}

#[test]
fn creating_a_project_stores_what_it_returns() {
    let data = CreateProjectData {
        name: "Novel".to_string(),
        description: "Long".to_string(),
        icon: "book".to_string(),
        color: "#fff".to_string(),
        workspace_id: "w-7".to_string(),
        template_id: None,
    };
    let plan = Database::new().create_project(data);
    assert_eq!(plan.value.workspace_id, "w-7");
    assert_eq!(plan.value.status, ProjectStatus::Active);
    assert_eq!(plan.value.documents_count, 0);
    assert_eq!(plan.statements, Database::store_project(&plan.value));
    assert_eq!(plan.statements[1].params, vec![text("w-7")]);
}

#[test]
fn projects_are_queried() {
    let db = Database::new();
    assert_eq!(db.get_projects().sql, "SELECT * FROM projects ORDER BY updated_at DESC");
    assert!(db.get_projects().params.is_empty());
    assert_eq!(
        db.get_projects_by_workspace("w-1"),
        Statement {
            sql: "SELECT * FROM projects WHERE workspace_id = ?1 ORDER BY updated_at DESC".to_string(),
            params: vec![text("w-1")],
        }
    );
    assert_eq!(
        db.get_project_by_id("p-1"),
        Statement { sql: "SELECT * FROM projects WHERE id = ?1".to_string(), params: vec![text("p-1")] }
    );
}

#[test]
fn project_rows_are_read() {
    assert_eq!(project_row("p-1").decode(), Ok(project("p-1")));
    assert_eq!(
        Database::read_projects(&vec![project_row("p-1"), project_row("p-2")]),
        Ok(vec![project("p-1"), project("p-2")])
    );
    assert_eq!(read_all(&vec![project_row("p-3")]), Ok(vec![project("p-3")]));
    assert_eq!(Database::read_project(Some(&project_row("p-1"))), Ok(Some(project("p-1"))));
    assert_eq!(Database::read_project(None), Ok(None));
}

#[test]
fn counts_out_of_range_keep_their_low_bits() {
    let mut row = project_row("p-1");
    row.progress = -1;
    row.documents_count = 1 << 32;
    row.words_count = (1 << 32) + 7;
    let p = row.decode().unwrap();
    assert_eq!(p.progress, u32::MAX);
    assert_eq!(p.documents_count, 0);
    assert_eq!(p.words_count, 7);
}

#[test]
fn the_first_fault_of_a_project_row_is_reported() {
    let mut row = project_row("p-1");
    row.updated_at = "u".to_string();
    assert_eq!(row.decode(), Err(StoreError::InvalidTimestamp("u".to_string())));
    row.created_at = "c".to_string();
    assert_eq!(row.decode(), Err(StoreError::InvalidTimestamp("c".to_string())));
    row.status = "s".to_string();
    assert_eq!(row.decode(), Err(StoreError::InvalidStatus("s".to_string())));
    assert_eq!(Database::read_project(Some(&row)), Err(StoreError::InvalidStatus("s".to_string())));
}

#[test]
fn the_first_unreadable_row_fails_the_list() {
    let mut bad = project_row("p-2");
    bad.created_at = "never".to_string();
    let mut worse = project_row("p-3");
    worse.status = "none".to_string();
    assert_eq!(
        Database::read_projects(&vec![project_row("p-1"), bad, worse]),
        Err(StoreError::InvalidTimestamp("never".to_string()))
    );
}

#[test]
fn a_project_update_ignores_the_instant_given() {
    let s = Database::update_project_at("p-9", &project("p-1"), at(200));
    assert_eq!(
        s.sql,
        "UPDATE projects SET name = ?1, description = ?2, icon = ?3, color = ?4, status = ?5, progress = ?6, updated_at = ?7 WHERE id = ?8"
    );
    assert_eq!(
        s.params,
        vec![
            text("Novel"),
            text("Long"),
            text("book"),
            text("#fff"),
            text("\"Completed\""),
            Param::Integer(40),
            text(T200),
            text("p-9"),
        ]
    );
    let now = Database::new().update_project("p-9", project("p-1"));
    assert_eq!(now.sql, s.sql);
    assert_eq!(&now.params[..6], &s.params[..6]);
    assert_ne!(now.params[6], text(T100));
    assert_eq!(now.params[7], text("p-9"));
}

#[test]
fn deleting_a_project_deletes_its_documents_first() {
    let statements = Database::new().delete_project("p-1");
    assert_eq!(
        statements,
        vec![
            Statement { sql: "DELETE FROM documents WHERE project_id = ?1".to_string(), params: vec![text("p-1")] },
            Statement { sql: "DELETE FROM projects WHERE id = ?1".to_string(), params: vec![text("p-1")] },
        ]
    );
}

#[test]
fn project_statistics_are_five_counts() {
    let statements = Database::project_stats_since(at(100));
    let by_status = "SELECT COUNT(*) as count FROM projects WHERE status = ?1";
    assert_eq!(
        statements,
        vec![
            Statement { sql: "SELECT COUNT(*) as count FROM projects".to_string(), params: vec![] },
            Statement { sql: by_status.to_string(), params: vec![text("\"Active\"")] },
            Statement { sql: by_status.to_string(), params: vec![text("\"Completed\"")] },
            Statement { sql: by_status.to_string(), params: vec![text("\"Archived\"")] },
            Statement {
                sql: "SELECT COUNT(*) as count FROM projects WHERE created_at > ?1".to_string(),
                params: vec![text(T100)],
            },
        ]
    );
    assert_eq!(Database::project_stats_at(at(100 + 604_800)), statements);
    assert_eq!(
        Database::project_stats_at(at(1_000_000)),
        Database::project_stats_since(at(1_000_000 - 604_800))
    );
    let now = Database::new().get_project_stats();
    assert_eq!(now.len(), 5);
    assert_eq!(&now[..4], &statements[..4]);
    let since = match &now[4].params[0] {
        Param::Text(t) => Timestamp::from_stored(t).expect("RFC 3339"),
        other => panic!("{:?}", other),
    };
    let week_ago = Timestamp::now().secs() - 604_800;
    assert!((since.secs() - week_ago).abs() < 60);
}

#[test]
fn project_statistics_are_read_from_the_counts() {
    assert_eq!(
        Database::read_project_stats(10, 4, 3, 3, 2),
        ProjectStats { total: 10, active: 4, completed: 3, archived: 3, this_week: 2 }
    );
    assert_eq!(Database::read_project_stats((1 << 32) + 1, 0, 0, 0, -1).total, 1);
    assert_eq!(Database::read_project_stats(0, 0, 0, 0, -1).this_week, u32::MAX);
}

#[test]
fn a_search_without_conditions_has_no_where() {
    let search = Database::new().search_projects(None, None, None, None, None, 1, 9);
    assert_eq!(search.count, Statement { sql: "SELECT COUNT(*) as count FROM projects".to_string(), params: vec![] });
    assert_eq!(
        search.list,
        Statement {
            sql: "SELECT * FROM projects ORDER BY updated_at DESC LIMIT ? OFFSET ?".to_string(),
            params: vec![Param::Integer(9), Param::Integer(0)],
        }
    );
}

#[test]
fn a_search_with_all_conditions() {
    let search = Database::new().search_projects(
        Some("w-1"),
        Some("dra%ft"),
        Some("Archived"),
        Some("created_at"),
        Some("asc"),
        3,
        20,
    );
    let conditions = " WHERE workspace_id = ? AND (name LIKE ? ESCAPE '\\' OR description LIKE ? ESCAPE '\\') AND status = ?";
    let filter = vec![text("w-1"), text("%dra\\%ft%"), text("%dra\\%ft%"), text("\"Archived\"")];
    assert_eq!(search.count.sql, format!("SELECT COUNT(*) as count FROM projects{}", conditions));
    assert_eq!(search.count.params, filter);
    assert_eq!(
        search.list.sql,
        format!("SELECT * FROM projects{} ORDER BY created_at ASC LIMIT ? OFFSET ?", conditions)
    );
    let mut params = filter;
    params.push(Param::Integer(20));
    params.push(Param::Integer(40));
    assert_eq!(search.list.params, params);
}

#[test]
fn a_search_with_single_conditions() {
    let db = Database::new();
    let q = db.search_projects(None, Some("x"), None, None, None, 1, 9);
    assert_eq!(
        q.count.sql,
        "SELECT COUNT(*) as count FROM projects WHERE (name LIKE ? ESCAPE '\\' OR description LIKE ? ESCAPE '\\')"
    );
    assert_eq!(q.count.params, vec![text("%x%"), text("%x%")]);
    let s = db.search_projects(None, None, Some("Active"), None, None, 1, 9);
    assert_eq!(s.count.sql, "SELECT COUNT(*) as count FROM projects WHERE status = ?");
    assert_eq!(s.count.params, vec![text("\"Active\"")]);
    let w = db.search_projects(Some("w"), None, Some("Completed"), None, None, 1, 9);
    assert_eq!(w.count.sql, "SELECT COUNT(*) as count FROM projects WHERE workspace_id = ? AND status = ?");
    assert_eq!(w.count.params, vec![text("w"), text("\"Completed\"")]);
}

#[test]
fn an_unknown_status_is_no_condition() {
    let search = Database::new().search_projects(None, None, Some("active"), None, None, 1, 9);
    assert_eq!(search.count.sql, "SELECT COUNT(*) as count FROM projects");
    assert!(search.count.params.is_empty());
    assert_eq!(search.list.params, vec![Param::Integer(9), Param::Integer(0)]);
}

#[test]
fn a_search_by_name_ascending_is_ordered_by_name() {
    let db = Database::new();
    for order in ["ASC", "asc", "Asc", "aSC"] {
        let search = db.search_projects(None, None, None, Some("name"), Some(order), 1, 9);
        assert_eq!(search.list.sql, "SELECT * FROM projects ORDER BY name ASC LIMIT ? OFFSET ?");
    }
    for order in [Some("DESC"), Some("ascending"), Some(""), Some("AS"), None] {
        let search = db.search_projects(None, None, None, Some("name"), order, 1, 9);
        assert_eq!(search.list.sql, "SELECT * FROM projects ORDER BY name DESC LIMIT ? OFFSET ?");
    }
}

#[test]
fn only_listed_columns_can_be_sorted_on() {
    let db = Database::new();
    let by = |sort: Option<&str>, order: Option<&str>| db.search_projects(None, None, None, sort, order, 1, 9).list.sql;
    assert_eq!(by(Some("created_at"), None), "SELECT * FROM projects ORDER BY created_at DESC LIMIT ? OFFSET ?");
    assert_eq!(by(Some("created_at"), Some("ASC")), "SELECT * FROM projects ORDER BY created_at ASC LIMIT ? OFFSET ?");
    assert_eq!(by(Some("updated_at"), Some("ASC")), "SELECT * FROM projects ORDER BY updated_at DESC LIMIT ? OFFSET ?");
    assert_eq!(by(Some("id; DROP TABLE projects"), Some("ASC")), "SELECT * FROM projects ORDER BY updated_at DESC LIMIT ? OFFSET ?");
    assert_eq!(by(Some("Name"), Some("ASC")), "SELECT * FROM projects ORDER BY updated_at DESC LIMIT ? OFFSET ?");
    assert_eq!(by(None, Some("ASC")), "SELECT * FROM projects ORDER BY updated_at DESC LIMIT ? OFFSET ?");
}

#[test]
fn pages_are_clamped_to_one() {
    let db = Database::new();
    let cut = |page: u32, size: u32| db.search_projects(None, None, None, None, None, page, size).list.params;
    assert_eq!(cut(0, 0), vec![Param::Integer(1), Param::Integer(0)]);
    assert_eq!(cut(0, 9), vec![Param::Integer(9), Param::Integer(0)]);
    assert_eq!(cut(1, 9), vec![Param::Integer(9), Param::Integer(0)]);
    assert_eq!(cut(2, 9), vec![Param::Integer(9), Param::Integer(9)]);
    assert_eq!(cut(5, 0), vec![Param::Integer(1), Param::Integer(4)]);
    assert_eq!(cut(1000, 25), vec![Param::Integer(25), Param::Integer(24_975)]);
}

#[test]
fn huge_pages_do_not_overflow() {
    let db = Database::new();
    let cut = |page: u32, size: u32| db.search_projects(None, None, None, None, None, page, size).list.params;
    assert_eq!(
        cut(u32::MAX, 2),
        vec![Param::Integer(2), Param::Integer((u32::MAX as i64 - 1) * 2)]
    );
    assert_eq!(
        cut(u32::MAX, u32::MAX),
        vec![Param::Integer(u32::MAX as i64), Param::Integer(i64::MAX)]
    );
}

#[test]
fn a_page_beyond_the_last_is_empty_with_the_total() {
    let found = Database::read_search(17, &vec![]).unwrap();
    assert_eq!(found, ProjectListResult { items: vec![], total: 17 });
}

#[test]
fn a_page_holds_the_rows_in_their_order() {
    let found = Database::read_search(2, &vec![project_row("a"), project_row("B")]).unwrap();
    assert_eq!(found.total, 2);
    assert_eq!(found.items, vec![project("a"), project("B")]);
    let mut bad = project_row("c");
    bad.status = "x".to_string();
    assert_eq!(
        Database::read_search(3, &vec![project_row("a"), bad]),
        Err(StoreError::InvalidStatus("x".to_string()))
    );
}

#[test]
fn a_document_is_stored_and_counted_in_its_project() {
    let statements = Database::store_document(&document("d-1"));
    assert_eq!(statements.len(), 2);
    assert_eq!(
        statements[0].sql,
        "INSERT INTO documents (id, title, content, content_type, status, word_count, char_count, project_id, folder_path, tags, metadata, created_at, updated_at, last_accessed) VALUES (?1, ?2, ?3, ?4, ?5, ?6, ?7, ?8, ?9, ?10, ?11, ?12, ?13, ?14)"
    );
    assert_eq!(
        statements[0].params,
        vec![
            text("d-1"),
            text("Chapter"),
            text("one two three"),
            text("\"RichText\""),
            text("\"Review\""),
            Param::Integer(3),
            Param::Integer(13),
            text("p-1"),
            Param::Null,
            text("[\"a\",\"b\\\"c\"]"),
            Param::Metadata(metadata()),
            text(T0),
            text(T100),
            text(T200),
        ]
    );
    assert_eq!(statements[0], Database::insert_document(&document("d-1")));
    assert_eq!(
        statements[1],
        Statement {
            sql: "UPDATE projects SET documents_count = documents_count + 1, words_count = words_count + ?1 WHERE id = ?2".to_string(),
            params: vec![Param::Integer(3), text("p-1")],
        }
    );
}

#[test]
fn a_folder_is_bound_as_text() {
    let mut d = document("d-1");
    d.folder_path = Some("notes/2024".to_string());
    assert_eq!(Database::insert_document(&d).params[8], text("notes/2024"));
}

fn document_data(project_id: &str) -> CreateDocumentData {
    CreateDocumentData {
        title: "Chapter".to_string(),
        content: Some("one two three four five".to_string()),
        content_type: DocumentType::Markdown,
        project_id: project_id.to_string(),
        folder_path: None,
        tags: None,
        template_id: None,
    }
}

#[test]
fn a_document_in_no_project_is_not_made() {
    let r = Database::new().create_document(document_data("p-404"), None);
    assert_eq!(r.unwrap_err(), StoreError::ProjectNotFound("p-404".to_string()));
    let r = Database::create_document_as(document_data("p-404"), None, "d".to_string(), at(0));
    let e = r.unwrap_err();
    assert_eq!(e, StoreError::ProjectNotFound("p-404".to_string()));
    assert_eq!(e.message(), "Project not found: p-404");
}

#[test]
fn a_document_in_a_project_is_made_and_counted() {
    let parent = project("p-1");
    let plan = Database::create_document_as(document_data("p-1"), Some(&parent), "d-1".to_string(), at(100))
        .unwrap();
    assert_eq!(plan.value.id, "d-1");
    assert_eq!(plan.value.word_count, 5);
    assert_eq!(plan.value.status, DocumentStatus::Draft);
    assert_eq!(plan.value.created_at, at(100));
    assert_eq!(plan.statements, Database::store_document(&plan.value));
    assert_eq!(plan.statements[1].params, vec![Param::Integer(5), text("p-1")]);
    assert!(plan.statements[1].sql.contains("documents_count = documents_count + 1"));
    assert!(plan.statements[1].sql.contains("words_count = words_count + ?1"));

    let plan = Database::new().create_document(document_data("p-1"), Some(&parent)).unwrap();
    assert_eq!(plan.value.id.len(), 36);
    assert_eq!(plan.statements, Database::store_document(&plan.value));
    assert_eq!(plan.statements[1].params, vec![Param::Integer(5), text("p-1")]);
}

#[test]
fn documents_are_queried() {
    let db = Database::new();
    assert_eq!(
        db.get_documents_by_project("p-1"),
        Statement {
            sql: "SELECT * FROM documents WHERE project_id = ?1 ORDER BY updated_at DESC".to_string(),
            params: vec![text("p-1")],
        }
    );
    assert_eq!(
        db.get_document_by_id("d-1"),
        Statement { sql: "SELECT * FROM documents WHERE id = ?1".to_string(), params: vec![text("d-1")] }
    );
    assert_eq!(
        db.delete_document("d-1"),
        Statement { sql: "DELETE FROM documents WHERE id = ?1".to_string(), params: vec![text("d-1")] }
    );
}

#[test]
fn document_rows_are_read() {
    assert_eq!(document_row("d-1").decode(), Ok(document("d-1")));
    assert_eq!(document_row("d-1").decode_leniently(), Ok(document("d-1")));
    assert_eq!(
        Database::read_documents(&vec![document_row("d-1"), document_row("d-2")]),
        Ok(vec![document("d-1"), document("d-2")])
    );
    assert_eq!(Database::read_document(Some(&document_row("d-1"))), Ok(Some(document("d-1"))));
    assert_eq!(Database::read_document(None), Ok(None));
}

#[test]
fn the_first_fault_of_a_document_row_is_reported() {
    let mut row = document_row("d-1");
    row.last_accessed = "l".to_string();
    assert_eq!(row.decode(), Err(StoreError::InvalidTimestamp("l".to_string())));
    row.updated_at = "u".to_string();
    assert_eq!(row.decode(), Err(StoreError::InvalidTimestamp("u".to_string())));
    row.created_at = "c".to_string();
    assert_eq!(row.decode(), Err(StoreError::InvalidTimestamp("c".to_string())));
    row.metadata = None;
    assert_eq!(row.decode(), Err(StoreError::InvalidMetadata));
    row.tags = "{}".to_string();
    assert_eq!(row.decode(), Err(StoreError::InvalidTags("{}".to_string())));
    row.status = "s".to_string();
    assert_eq!(row.decode(), Err(StoreError::InvalidStatus("s".to_string())));
    row.content_type = "t".to_string();
    assert_eq!(row.decode(), Err(StoreError::InvalidDocumentType("t".to_string())));
    assert_eq!(
        Database::read_documents(&vec![document_row("d-0"), row]),
        Err(StoreError::InvalidDocumentType("t".to_string()))
    );
}

#[test]
fn a_single_document_is_read_with_defaults() {
    let mut row = document_row("d-1");
    row.content_type = "t".to_string();
    row.status = "s".to_string();
    row.tags = "not json".to_string();
    row.metadata = None;
    let d = Database::read_document(Some(&row)).unwrap().unwrap();
    assert_eq!(
        d,
        Document {
            content_type: DocumentType::Markdown,
            status: DocumentStatus::Draft,
            tags: vec![],
            metadata: DocumentMetadata::default(),
            ..document("d-1")
        }
    );
    row.created_at = "c".to_string();
    assert_eq!(Database::read_document(Some(&row)), Err(StoreError::InvalidTimestamp("c".to_string())));
}

#[test]
fn a_document_update_binds_the_changeable_fields() {
    let s = Database::update_document_at("d-9", &document("d-1"), at(200));
    assert_eq!(
        s.sql,
        "UPDATE documents SET title = ?2, content = ?3, status = ?4, word_count = ?5, char_count = ?6, tags = ?7, metadata = ?8, updated_at = ?9 WHERE id = ?1"
    );
    assert_eq!(
        s.params,
        vec![
            text("d-9"),
            text("Chapter"),
            text("one two three"),
            text("\"Review\""),
            Param::Integer(3),
            Param::Integer(13),
            text("[\"a\",\"b\\\"c\"]"),
            Param::Metadata(metadata()),
            text(T200),
        ]
    );
    let now = Database::new().update_document("d-9", document("d-1"));
    assert_eq!(now.sql, s.sql);
    assert_eq!(&now.params[..8], &s.params[..8]);
    assert_ne!(now.params[8], text(T100));
}

#[test]
fn a_search_text_is_escaped_for_like() {
    let db = Database::new();
    let pattern = |q: &str| db.search_projects(None, Some(q), None, None, None, 1, 9).count.params;
    assert_eq!(pattern("%"), vec![text("%\\%%"), text("%\\%%")]);
    assert_eq!(pattern("_"), vec![text("%\\_%"), text("%\\_%")]);
    assert_eq!(pattern("\\"), vec![text("%\\\\%"), text("%\\\\%")]);
    assert_eq!(pattern(""), vec![text("%%"), text("%%")]);
    assert_eq!(pattern("50%_off\\now"), vec![text("%50\\%\\_off\\\\now%"), text("%50\\%\\_off\\\\now%")]);
    assert_eq!(escape("plain text"), "plain text");
    assert_eq!(escape("a%b_c\\d"), "a\\%b\\_c\\\\d");
    assert_eq!(pattern_containing("100%"), "%100\\%%");
}

#[test]
fn saving_content_writes_counts_reading_time_and_version() {
    let row = document_row("d-1");
    let content = "w ".repeat(201);
    let statements =
        Database::save_document_content_at("d-1", &content, Some(&row), at(100)).unwrap();
    assert_eq!(
        statements,
        vec![Statement {
            sql: "UPDATE documents SET content = ?2, word_count = ?3, char_count = ?4, metadata = ?5, updated_at = ?6, last_accessed = ?7 WHERE id = ?1".to_string(),
            params: vec![
                text("d-1"),
                text(&content),
                Param::Integer(201),
                Param::Integer(402),
                Param::Metadata(DocumentMetadata { reading_time: 2, version: 4, ..metadata() }),
                text(T100),
                text(T100),
            ],
        }]
    );
    let now = Database::new().save_document_content("d-1", "naïve text\there", Some(&row)).unwrap();
    assert_eq!(now.len(), 1);
    assert_eq!(
        &now[0].params[..5],
        &[
            text("d-1"),
            text("naïve text\there"),
            Param::Integer(3),
            Param::Integer(15),
            Param::Metadata(DocumentMetadata { reading_time: 1, version: 4, ..metadata() }),
        ]
    );
    assert_eq!(now[0].params[5], now[0].params[6]);
}

#[test]
fn saving_content_of_no_document_writes_nothing() {
    assert_eq!(Database::save_document_content_at("d-1", "a b", None, at(100)), Ok(vec![]));
    assert_eq!(Database::new().save_document_content("d-1", "a b", None), Ok(vec![]));
}

#[test]
fn saving_content_over_unreadable_metadata_starts_from_blank() {
    let mut row = document_row("d-1");
    row.metadata = None;
    let statements = Database::save_document_content_at("d-1", "", Some(&row), at(100)).unwrap();
    assert_eq!(
        statements[0].params[4],
        Param::Metadata(DocumentMetadata { reading_time: 0, version: 1, ..DocumentMetadata::default() })
    );
    assert_eq!(row.read_metadata(), DocumentMetadata::default());
    assert_eq!(document_row("d-1").read_metadata(), metadata());
}

#[test]
fn a_version_that_cannot_rise_fails_the_save() {
    let mut row = document_row("d-1");
    row.metadata = Some(DocumentMetadata { version: u32::MAX, ..metadata() });
    let r = Database::save_document_content_at("d-1", "a b", Some(&row), at(100));
    assert_eq!(r, Err(StoreError::VersionExhausted("d-1".to_string())));
    row.metadata = Some(DocumentMetadata { version: u32::MAX - 1, ..metadata() });
    let statements = Database::save_document_content_at("d-1", "a b", Some(&row), at(100)).unwrap();
    assert_eq!(
        statements[0].params[4],
        Param::Metadata(DocumentMetadata { reading_time: 1, version: u32::MAX, ..metadata() })
    );
}

#[test]
fn agents_are_listed_and_read() {
    assert_eq!(Database::new().list_agents().sql, "SELECT * FROM agents ORDER BY name ASC");
    let rows = vec![
        AgentRow {
            id: "agent-1".to_string(),
            name: "Writer".to_string(),
            category: "text".to_string(),
            version: "1.0".to_string(),
            enabled: 1,
            description: Some("writes".to_string()),
            tags: "[\"x\",\"y\"]".to_string(),
        },
        AgentRow {
            id: "agent-2".to_string(),
            name: "Reader".to_string(),
            category: "text".to_string(),
            version: "2.0".to_string(),
            enabled: 2,
            description: None,
            tags: "oops".to_string(),
        },
    ];
    let agents = Database::read_agents(&rows);
    assert_eq!(
        agents,
        vec![
            AgentModel {
                id: "agent-1".to_string(),
                name: "Writer".to_string(),
                category: "text".to_string(),
                version: "1.0".to_string(),
                enabled: true,
                description: Some("writes".to_string()),
                tags: vec!["x".to_string(), "y".to_string()],
            },
            AgentModel {
                id: "agent-2".to_string(),
                name: "Reader".to_string(),
                category: "text".to_string(),
                version: "2.0".to_string(),
                enabled: false,
                description: None,
                tags: vec![],
            },
        ]
    );
    assert_eq!(rows[0].decode(), agents[0]);
}

fn agent_input() -> InstallAgentInput {
    InstallAgentInput {
        name: "Writer".to_string(),
        category: "text".to_string(),
        version: "1.0".to_string(),
        description: None,
        tags: vec!["fast".to_string(), "新".to_string()],
    }
}

#[test]
fn an_agent_is_installed_enabled() {
    let plan = Database::install_agent_as(agent_input(), "agent-7".to_string());
    assert_eq!(
        plan.value,
        AgentModel {
            id: "agent-7".to_string(),
            name: "Writer".to_string(),
            category: "text".to_string(),
            version: "1.0".to_string(),
            enabled: true,
            description: None,
            tags: vec!["fast".to_string(), "新".to_string()],
        }
    );
    assert_eq!(
        plan.statements,
        vec![Statement {
            sql: "INSERT INTO agents (id, name, category, version, enabled, description, tags) VALUES (?1, ?2, ?3, ?4, 1, ?5, ?6)".to_string(),
            params: vec![
                text("agent-7"),
                text("Writer"),
                text("text"),
                text("1.0"),
                Param::Null,
                text("[\"fast\",\"新\"]"),
            ],
        }]
    );
    let fresh = Database::new().install_agent(agent_input());
    assert!(fresh.value.id.starts_with("agent-"));
    assert_eq!(fresh.value.id.len(), 42);
    assert_eq!(fresh.statements[0].params[0], text(&fresh.value.id));
}

#[test]
fn agents_are_switched_removed_and_updated() {
    let db = Database::new();
    assert_eq!(
        db.set_agent_enabled("agent-1", true),
        Statement {
            sql: "UPDATE agents SET enabled = ?2 WHERE id = ?1".to_string(),
            params: vec![text("agent-1"), Param::Integer(1)],
        }
    );
    assert_eq!(db.set_agent_enabled("agent-1", false).params, vec![text("agent-1"), Param::Integer(0)]);
    assert_eq!(
        db.uninstall_agent("agent-1"),
        Statement { sql: "DELETE FROM agents WHERE id = ?1".to_string(), params: vec![text("agent-1")] }
    );
    assert_eq!(
        db.update_agent_version("agent-1", "3.1"),
        Statement {
            sql: "UPDATE agents SET version = ?2 WHERE id = ?1".to_string(),
            params: vec![text("agent-1"), text("3.1")],
        }
    );
}

fn provider_input() -> CreateAIProviderInput {
    CreateAIProviderInput {
        name: "Local".to_string(),
        model_name: "m".to_string(),
        api_key: "k".to_string(),
        base_url: Some("http://localhost".to_string()),
        icon: "i".to_string(),
        bg_color: "#000".to_string(),
        max_tokens: 4096,
        context_length: -1,
        description: None,
        priority: 2,
        model_pointer: Some("main".to_string()),
    }
}

fn provider(id: &str) -> AIProvider {
    AIProvider {
        id: id.to_string(),
        name: "Local".to_string(),
        model_name: "m".to_string(),
        api_key: "k".to_string(),
        base_url: Some("http://localhost".to_string()),
        icon: "i".to_string(),
        bg_color: "#000".to_string(),
        status: "testing".to_string(),
        status_text: "测试中...".to_string(),
        max_tokens: 4096,
        context_length: -1,
        last_tested: "从未".to_string(),
        description: None,
        priority: 2,
        model_pointer: Some("main".to_string()),
    }
}

fn provider_params(id: &str) -> Vec<Param> {
    vec![
        text(id),
        text("Local"),
        text("m"),
        text("k"),
        text("http://localhost"),
        text("i"),
        text("#000"),
        text("testing"),
        text("测试中..."),
        Param::Integer(4096),
        Param::Integer(-1),
        text("从未"),
        Param::Null,
        Param::Integer(2),
        text("main"),
    ]
}

#[test]
fn a_provider_is_added_in_testing() {
    let plan = Database::create_ai_provider_as(provider_input(), "prov-1".to_string());
    assert_eq!(plan.value, provider("prov-1"));
    assert_eq!(
        plan.statements,
        vec![Statement {
            sql: "INSERT INTO ai_providers (id, name, model_name, api_key, base_url, icon, bg_color, status, status_text, max_tokens, context_length, last_tested, description, priority, model_pointer) VALUES (?1, ?2, ?3, ?4, ?5, ?6, ?7, ?8, ?9, ?10, ?11, ?12, ?13, ?14, ?15)".to_string(),
            params: provider_params("prov-1"),
        }]
    );
    let fresh = Database::new().create_ai_provider(provider_input());
    assert!(fresh.value.id.starts_with("prov-"));
    assert_eq!(fresh.value.id.len(), 41);
    assert_eq!(fresh.statements[0].params, provider_params(&fresh.value.id));
}

#[test]
fn providers_are_listed_changed_and_removed() {
    let db = Database::new();
    assert_eq!(db.list_ai_providers().sql, "SELECT * FROM ai_providers ORDER BY priority ASC, name ASC");
    assert_eq!(
        db.delete_ai_provider("prov-1"),
        Statement { sql: "DELETE FROM ai_providers WHERE id = ?1".to_string(), params: vec![text("prov-1")] }
    );
    assert_eq!(
        db.update_ai_provider(&provider("prov-1")),
        Statement {
            sql: "UPDATE ai_providers SET name=?2, model_name=?3, api_key=?4, base_url=?5, icon=?6, bg_color=?7, status=?8, status_text=?9, max_tokens=?10, context_length=?11, last_tested=?12, description=?13, priority=?14, model_pointer=?15 WHERE id=?1".to_string(),
            params: provider_params("prov-1"),
        }
    );
}

#[test]
fn errors_describe_themselves() {
    assert_eq!(StoreError::ProjectNotFound("p".to_string()).message(), "Project not found: p");
    assert_eq!(StoreError::WorkspaceNotFound("w".to_string()).message(), "Workspace not found: w");
    assert_eq!(StoreError::InvalidStatus("s".to_string()).message(), "invalid status: s");
    assert_eq!(StoreError::InvalidDocumentType("t".to_string()).message(), "invalid document type: t");
    assert_eq!(StoreError::InvalidTimestamp("x".to_string()).message(), "invalid timestamp: x");
    assert_eq!(StoreError::InvalidTags("[".to_string()).message(), "invalid tags: [");
    assert_eq!(StoreError::InvalidMetadata.message(), "invalid document metadata");
    assert_eq!(
        StoreError::VersionExhausted("d".to_string()).message(),
        "document version cannot rise: d"
    );
}
