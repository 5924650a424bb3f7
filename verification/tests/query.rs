use blackarch_hyprland_tui::error::AppError;
use blackarch_hyprland_tui::pacman::command::{run_pacman, run_pacman_owned, CommandRun};
use blackarch_hyprland_tui::pacman::query::{
    build_tool, get_executables, get_package_info, is_installed, list_all_blackarch_tools,
    list_blackarch_categories, list_tools_by_category, package_categories, PackageOutputs,
};
use blackarch_hyprland_tui::models::ToolStatus;

const SI: &str = "Repository      : blackarch\nName            : sqlmap\nVersion         : 1.7.11-1\nDescription     : Automatic SQL injection\nGroups          : blackarch-webapp  blackarch-scanner  base\n";
const QL: &str = "sqlmap /usr/\nsqlmap /usr/bin/\nsqlmap /usr/bin/sqlmap\n";

fn failed(stderr: &str) -> AppError {
    AppError::CommandFailed { command: "pacman -Q x".to_string(), status: "1".to_string(), stderr: stderr.to_string() }
}

fn outputs(installed: Result<String, AppError>) -> PackageOutputs {
    PackageOutputs { info: Ok(SI.to_string()), installed, files: Ok(QL.to_string()) }
}

#[test]
fn pacman_missing_is_reported_first() {
    let run = CommandRun::Exited { success: true, status: "0".into(), stdout: "x".into(), stderr: String::new() };
    assert_eq!(run_pacman(&["-Sg"], false, run), Err(AppError::PacmanNotFound));
}

#[test]
fn pacman_failure_names_command_and_trims_stderr() {
    let run = CommandRun::Exited {
        success: false,
        status: "exit status: 1".into(),
        stdout: String::new(),
        stderr: "  error: target not found: nope \n".into(),
    };
    let error = run_pacman_owned(vec!["-Si".to_string(), "nope".to_string()], true, run).unwrap_err();
    assert_eq!(
        error,
        AppError::CommandFailed {
            command: "pacman -Si nope".to_string(),
            status: "exit status: 1".to_string(),
            stderr: "error: target not found: nope".to_string(),
        }
    );
}

#[test]
fn pacman_that_cannot_start_is_an_io_error() {
    let error = run_pacman(&["-Q"], true, CommandRun::NotStarted("denied".into())).unwrap_err();
    assert_eq!(error, AppError::Io("denied".to_string()));
    let ok = run_pacman(&["-Q"], true, CommandRun::Exited { success: true, status: "0".into(), stdout: "out".into(), stderr: "warn".into() });
    assert_eq!(ok.unwrap(), "out");
}

#[test]
fn categories_need_a_blackarch_group() {
    assert_eq!(list_blackarch_categories(Ok("base bash\n".to_string())), Err(AppError::BlackArchRepoNotFound));
    assert_eq!(
        list_blackarch_categories(Ok("blackarch-a x\nblackarch-b y\n".to_string())).unwrap(),
        vec!["blackarch-a", "blackarch-b"]
    );
    assert_eq!(list_blackarch_categories(Err(AppError::PacmanNotFound)), Err(AppError::PacmanNotFound));
}

#[test]
fn tools_by_category_check_the_name_first() {
    assert_eq!(
        list_tools_by_category("webapp", Err(AppError::PacmanNotFound)),
        Err(AppError::InvalidCategoryName("webapp".to_string()))
    );
    assert_eq!(
        list_tools_by_category("blackarch-webapp", Ok("blackarch-webapp a\nblackarch-webapp b\n".into())).unwrap(),
        vec!["a", "b"]
    );
}

#[test]
fn all_tools_keep_the_first_group() {
    let categories = vec!["blackarch-a".to_string(), "blackarch-b".to_string()];
    let listed = vec![Ok(vec!["x".to_string(), "y".to_string()]), Ok(vec!["y".to_string(), "z".to_string()])];
    assert_eq!(
        list_all_blackarch_tools(&categories, listed).unwrap(),
        vec![
            ("x".to_string(), "blackarch-a".to_string()),
            ("y".to_string(), "blackarch-a".to_string()),
            ("z".to_string(), "blackarch-b".to_string()),
        ]
    );
    let failing = vec![Ok(vec!["x".to_string()]), Err(AppError::PacmanNotFound)];
    assert_eq!(list_all_blackarch_tools(&categories, failing), Err(AppError::PacmanNotFound));
}

#[test]
fn package_categories_collect_every_group() {
    let categories = vec!["blackarch-a".to_string(), "blackarch-b".to_string()];
    let listed = vec![Ok(vec!["x".to_string(), "y".to_string()]), Ok(vec!["y".to_string()])];
    assert_eq!(
        package_categories(&categories, listed).unwrap(),
        vec![
            ("x".to_string(), vec!["blackarch-a".to_string()]),
            ("y".to_string(), vec!["blackarch-a".to_string(), "blackarch-b".to_string()]),
        ]
    );
}

#[test]
fn installed_when_query_succeeds_not_when_unknown() {
    assert_eq!(is_installed("sqlmap", Ok(String::new())), Ok(true));
    assert_eq!(is_installed("sqlmap", Err(failed("error: package 'sqlmap' was not found"))), Ok(false));
    assert_eq!(is_installed("sqlmap", Err(failed("boom"))), Err(failed("boom")));
    assert_eq!(is_installed("bad name", Ok(String::new())), Err(AppError::InvalidPackageName("bad name".into())));
}

#[test]
fn executables_of_unknown_package_are_none() {
    assert_eq!(get_executables("sqlmap", Ok(QL.to_string())).unwrap(), vec!["sqlmap"]);
    assert!(get_executables("sqlmap", Err(failed("not found"))).unwrap().is_empty());
    assert_eq!(get_executables("sqlmap", Err(AppError::PacmanNotFound)), Err(AppError::PacmanNotFound));
}

#[test]
fn package_info_combines_three_queries() {
    let info = get_package_info("sqlmap", outputs(Ok(String::new()))).unwrap();
    assert!(info.installed);
    assert_eq!(info.executables, vec!["sqlmap"]);
    assert_eq!(info.groups, vec!["blackarch-webapp", "blackarch-scanner", "base"]);
    let missing = get_package_info("sqlmap", outputs(Err(failed("was not found")))).unwrap();
    assert!(!missing.installed);
    assert_eq!(get_package_info("x/y", outputs(Ok(String::new()))).unwrap_err(), AppError::InvalidPackageName("x/y".into()));
}

#[test]
fn build_tool_uses_the_given_group() {
    let tool = build_tool("sqlmap", "blackarch-webapp", outputs(Ok(String::new()))).unwrap();
    assert_eq!(tool.name, "sqlmap");
    assert_eq!(tool.category.as_deref(), Some("blackarch-webapp"));
    assert_eq!(tool.categories, vec!["blackarch-webapp"]);
    assert_eq!(tool.executable.as_deref(), Some("sqlmap"));
    assert_eq!(tool.status, ToolStatus::Installed);
    assert_eq!(
        build_tool("sqlmap", "webapp", outputs(Ok(String::new()))).unwrap_err(),
        AppError::InvalidCategoryName("webapp".into())
    );
}
