use writeflow_studio::commands::{document_creation_failure, page_arguments, switch_workspace};
use writeflow_studio::error::ServiceError;
use writeflow_studio::models::workspace::{CreateWorkspaceData, Workspace};
use writeflow_studio::time::Timestamp;
use writeflow_studio::models::environment::{EnvComponent, EnvironmentStatus, InstallationResult};
use writeflow_studio::services::backup::BackupService;
use writeflow_studio::services::environment::{get_version, trim, EnvironmentService};
use writeflow_studio::services::export::ExportService;
use writeflow_studio::services::writeflow::WriteFlowService;
use writeflow_studio::utils::{get_file_extension, sanitize_filename};

#[test]
fn forbidden_characters_become_underscores() {
    assert_eq!(sanitize_filename("a/b\\c<d>e:f\"g|h?i*j"), "a_b_c_d_e_f_g_h_i_j");
    assert_eq!(sanitize_filename("plain name.md"), "plain name.md");
    assert_eq!(sanitize_filename(""), "");
    assert_eq!(sanitize_filename("名前?.txt"), "名前_.txt");
    assert_eq!(sanitize_filename("///"), "___");
}

#[test]
fn sanitizing_keeps_the_number_of_characters() {
    let name = "wh*t <is> th|s: a \"file\"?";
    let clean = sanitize_filename(name);
    assert_eq!(clean.chars().count(), name.chars().count());
    assert_eq!(sanitize_filename(&clean), clean);
}

#[test]
fn the_extension_follows_the_last_dot() {
    assert_eq!(get_file_extension("notes.md"), Some("md"));
    assert_eq!(get_file_extension("archive.tar.gz"), Some("gz"));
    assert_eq!(get_file_extension("dir.d/file.txt"), Some("txt"));
    assert_eq!(get_file_extension("notes"), None);
    assert_eq!(get_file_extension(".hidden"), None);
    assert_eq!(get_file_extension(""), None);
    assert_eq!(get_file_extension("trailing."), Some(""));
    assert_eq!(get_file_extension(".."), None);
}

fn extension_of_plain_name(name: &str) -> Option<&str> {
    match name.rfind('.') {
        Some(i) if i > 0 => Some(&name[i + 1..]),
        _ => None,
    }
}

#[test]
fn the_extension_of_a_plain_name_follows_its_last_dot() {
    let alphabet = ['.', 'a', 'b', ' ', '-'];
    let mut names = vec![String::new()];
    let mut start = 0;
    for _ in 0..5 {
        let end = names.len();
        for i in start..end {
            for c in alphabet {
                let mut longer = names[i].clone();
                longer.push(c);
                names.push(longer);
            }
        }
        start = end;
    }
    assert_eq!(names.len(), 1 + 5 + 25 + 125 + 625 + 3125);
    for name in &names {
        if name != ".." {
            assert_eq!(get_file_extension(name), extension_of_plain_name(name), "{:?}", name);
        }
    }
    assert_eq!(get_file_extension(".."), None);
    assert_eq!(get_file_extension("..."), Some(""));
    assert_eq!(get_file_extension(".a.b"), Some("b"));
    assert_eq!(get_file_extension("名前.テキスト"), Some("テキスト"));
}

#[test]
fn trimming_cuts_whitespace_at_both_ends() {
    assert_eq!(trim("  v18.0.0\n"), "v18.0.0");
    assert_eq!(trim("a b"), "a b");
    assert_eq!(trim(" \t\r\n"), "");
    assert_eq!(trim(""), "");
    assert_eq!(trim("\u{3000}宽 空格\u{00A0}"), "宽 空格");
    assert_eq!(trim("x"), "x");
    for s in ["", " ", " a", "a ", " a b  ", "\u{2003}é\u{2003}", "\n\n"] {
        assert_eq!(trim(s), s.trim(), "{:?}", s);
    }
}

#[test]
fn a_version_is_what_the_program_wrote() {
    assert_eq!(get_version(true, "v18.0.0\n", ""), Some("v18.0.0".to_string()));
    assert_eq!(get_version(true, "  \n", " 1.2.3 "), Some("1.2.3".to_string()));
    assert_eq!(get_version(true, "out", "err"), Some("out".to_string()));
    assert_eq!(get_version(true, "", ""), None);
    assert_eq!(get_version(true, " ", "\t"), None);
    assert_eq!(get_version(false, "v18.0.0", "warning"), None);
}

#[test]
fn each_missing_program_costs_twenty_points() {
    let service = EnvironmentService::new();
    let v = |s: &str| Some(s.to_string());
    let all = service.get_summary(v("v18"), v("9.0"), v("1.0"));
    assert_eq!(all.health, 100);
    assert_eq!(all.issues, 0);
    assert_eq!(all.node, EnvComponent { installed: true, version: v("v18") });
    assert_eq!(all.npm, EnvComponent { installed: true, version: v("9.0") });
    assert_eq!(all.writeflow, EnvComponent { installed: true, version: v("1.0") });
    let one = service.get_summary(v("v18"), None, v("1.0"));
    assert_eq!((one.health, one.issues), (80, 1));
    assert_eq!(one.npm, EnvComponent { installed: false, version: None });
    let two = service.get_summary(None, None, v("1.0"));
    assert_eq!((two.health, two.issues), (60, 2));
    let none = service.get_summary(None, None, None);
    assert_eq!((none.health, none.issues), (40, 3));
}

#[test]
fn the_environment_is_always_ready() {
    assert_eq!(EnvironmentService::new().check_environment(), Ok(EnvironmentStatus::Ready));
}

#[test]
fn installations_answer_with_fixed_values() {
    let service = EnvironmentService::new();
    assert_eq!(
        service.install_nodejs(),
        Ok(InstallationResult {
            tool: "nodejs".to_string(),
            success: true,
            message: "Node.js installation placeholder".to_string(),
            installed_version: Some("18.0.0".to_string()),
        })
    );
    assert_eq!(
        service.install_writeflow_cli(),
        Ok(InstallationResult {
            tool: "writeflow-cli".to_string(),
            success: true,
            message: "WriteFlow CLI installation placeholder".to_string(),
            installed_version: Some("1.0.0".to_string()),
        })
    );
    assert_eq!(
        service.repair_environment(),
        Ok(InstallationResult {
            tool: "environment".to_string(),
            success: true,
            message: "Environment repair placeholder".to_string(),
            installed_version: None,
        })
    );
}

#[test]
fn backups_answer_with_a_placeholder() {
    let service = BackupService::new();
    assert_eq!(service.create_backup(), Ok("backup-placeholder".to_string()));
    assert_eq!(service.restore_backup("backup-placeholder"), Ok(()));
}

#[test]
fn exports_are_empty() {
    let service = ExportService::new();
    assert_eq!(service.export_to_pdf("# Title"), Ok(vec![]));
    assert_eq!(service.export_to_html("# Title"), Ok(String::new()));
    assert_eq!(service.export_to_markdown("# Title"), Ok(String::new()));
}

#[test]
fn the_companion_is_never_installed() {
    let service = WriteFlowService::new();
    assert_eq!(service.check_cli_installation(), Ok(false));
    assert_eq!(service.install_cli(), Ok(()));
    assert_eq!(service.sync_project("p-1"), Ok(()));
}

#[test]
fn service_errors_describe_themselves() {
    assert_eq!(ServiceError::Failed("no disk".to_string()).message(), "no disk");
}

#[test]
fn a_search_starts_at_the_first_page_of_nine() {
    assert_eq!(page_arguments(None, None), (1, 9));
    assert_eq!(page_arguments(Some(4), None), (4, 9));
    assert_eq!(page_arguments(None, Some(50)), (1, 50));
    assert_eq!(page_arguments(Some(0), Some(0)), (0, 0));
}

#[test]
fn a_failure_to_make_a_document_says_so() {
    assert_eq!(document_creation_failure("Project not found: p-1"), "创建文档失败: Project not found: p-1");
    assert_eq!(document_creation_failure(""), "创建文档失败: ");
}

#[test]
fn switching_needs_a_workspace() {
    let data = CreateWorkspaceData { name: "n".to_string(), description: "d".to_string() };
    let w = Workspace::with_identity(data, "w-1".to_string(), Timestamp::new(0, 0).unwrap());
    assert_eq!(switch_workspace(Some(w.clone())), Ok(w));
    assert_eq!(switch_workspace(None), Err("Workspace not found".to_string()));
}
