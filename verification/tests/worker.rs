use blackarch_hyprland_tui::actions::package_installer::{install_command, install_package, InstallResult};
use blackarch_hyprland_tui::actions::package_remover::{remove_command, remove_package, RemoveResult};
use blackarch_hyprland_tui::actions::terminal_runner::run_in_terminal;
use blackarch_hyprland_tui::error::AppError;
use blackarch_hyprland_tui::models::{TerminalConfig, ToolStatus};
use blackarch_hyprland_tui::pacman::command::CommandRun;
use blackarch_hyprland_tui::services::tool_service::minimal_available_tool;
use blackarch_hyprland_tui::worker::message::{WorkerCommand, WorkerEvent};
use blackarch_hyprland_tui::worker::tasks::{
    categories_from_tools, finish_successful_remove, install_packages, load_initial_data,
    mark_tool_removed, remove_package as remove_report, removed_tool_fallback, run_tool,
    run_tool_args, search_packages, sync_basic_cache,
    started_report,
};

#[test]
fn removed_tool_loses_executables() {
    let mut tool = minimal_available_tool("sqlmap".into(), vec![]);
    tool.status = ToolStatus::Installed;
    tool.executable = Some("sqlmap".into());
    tool.executables = vec!["sqlmap".into()];
    mark_tool_removed(&mut tool);
    assert_eq!(tool.status, ToolStatus::NotInstalled);
    assert!(tool.executable.is_none() && tool.executables.is_empty());
    let fallback = removed_tool_fallback("nmap");
    assert_eq!(fallback.description.as_deref(), Some("Package removed; details could not be refreshed"));
}

#[test]
fn categories_from_tools_are_sorted_and_unique() {
    let mut a = minimal_available_tool("a".into(), vec!["blackarch-z".into(), "blackarch-b".into()]);
    a.category = Some("blackarch-m".into());
    let b = minimal_available_tool("b".into(), vec!["blackarch-b".into()]);
    assert_eq!(categories_from_tools(&[a, b]), vec!["blackarch-b", "blackarch-m", "blackarch-z"]);
}

#[test]
fn initial_data_falls_back_to_tool_categories() {
    let tools = vec![minimal_available_tool("a".into(), vec!["blackarch-x".into()])];
    match load_initial_data(Ok(tools), Err(AppError::PacmanNotFound)) {
        WorkerEvent::InitialDataLoaded { categories, tools } => {
            assert_eq!(categories, vec!["blackarch-x"]);
            assert_eq!(tools.len(), 1);
        }
        other => panic!("unexpected {other:?}"),
    }
    match load_initial_data(Err(AppError::PacmanNotFound), Ok(vec![])) {
        WorkerEvent::TaskFailed { label, error } => {
            assert_eq!(label, "initial data");
            assert_eq!(error, "pacman was not found in PATH");
        }
        other => panic!("unexpected {other:?}"),
    }
}

#[test]
fn cache_sync_reports_categories_failure_first() {
    match sync_basic_cache(Err(AppError::BlackArchRepoNotFound), Err(AppError::PacmanNotFound)) {
        WorkerEvent::TaskFailed { label, error } => {
            assert_eq!(label, "sync cache");
            assert!(error.starts_with("BlackArch repository groups were not found"));
        }
        other => panic!("unexpected {other:?}"),
    }
    assert!(matches!(sync_basic_cache(Ok(vec![]), Ok(vec![])), WorkerEvent::BasicCacheSynced { .. }));
}

#[test]
fn search_failure_is_labelled_with_the_query() {
    match search_packages("nm".into(), 4, Err(AppError::Config("off".into()))) {
        WorkerEvent::TaskFailed { label, error } => {
            assert_eq!(label, "search nm");
            assert_eq!(error, "config error: off");
        }
        other => panic!("unexpected {other:?}"),
    }
}

#[test]
fn tool_launch_needs_terminal_and_record() {
    let config = TerminalConfig { program: "kitty".into(), runner_class: "runner".into(), hold_after_run: true };
    assert_eq!(
        run_tool_args(&config, "sqlmap").unwrap_err(),
        AppError::Config("hold_after_run is not supported without shell wrapping yet".into())
    );
    let config = TerminalConfig { hold_after_run: false, ..config };
    assert_eq!(run_tool_args(&config, "sqlmap").unwrap(), vec!["--class", "runner", "-e", "sqlmap"]);
    assert_eq!(
        run_in_terminal("foot", "runner", "sqlmap", false).unwrap_err(),
        AppError::Config("terminal program not found in PATH: foot".into())
    );
    assert!(matches!(
        run_tool("p".into(), "e".into(), 1, Ok(()), Err(AppError::Io("disk".into()))),
        WorkerEvent::ToolRunFailed { error, .. } if error == "I/O error: disk"
    ));
    assert!(matches!(run_tool("p".into(), "e".into(), 1, Ok(()), Ok(())), WorkerEvent::ToolRunStarted { .. }));
}

#[test]
fn install_reports_follow_the_outcome() {
    assert_eq!(
        install_command(&["sqlmap".to_string()], false).unwrap_err().message(),
        "config error: pkexec not found. Install polkit and make sure a polkit authentication agent is running."
    );
    let result = install_package("sqlmap", CommandRun::Exited { success: false, status: "1".into(), stdout: String::new(), stderr: "x".into() }).unwrap();
    assert!(!result.success);
    match install_packages(vec!["sqlmap".into()], 3, Ok(result), vec![]) {
        WorkerEvent::PackagesInstallFailed { error, request_id, .. } => {
            assert_eq!(error, "Install failed");
            assert_eq!(request_id, 3);
        }
        other => panic!("unexpected {other:?}"),
    }
    let ok = InstallResult { packages: vec!["a".into()], stdout: String::new(), stderr: String::new(), success: true };
    let refreshed = vec![Ok(minimal_available_tool("a".into(), vec![])), Err(AppError::PacmanNotFound)];
    match install_packages(vec!["a".into(), "b".into()], 5, Ok(ok), refreshed) {
        WorkerEvent::PackagesInstallFinished { refreshed_tools, .. } => assert_eq!(refreshed_tools.len(), 1),
        other => panic!("unexpected {other:?}"),
    }
}

#[test]
fn remove_reports_follow_the_outcome() {
    let args = remove_command("cai", true).unwrap();
    assert_eq!(args, vec!["pacman", "-Rns", "--noconfirm", "cai"]);
    let error = remove_package(
        "cai",
        &args,
        CommandRun::Exited { success: false, status: "exit status: 127".into(), stdout: String::new(), stderr: " Request dismissed \n".into() },
    )
    .unwrap_err();
    assert_eq!(
        error,
        AppError::CommandFailed {
            command: "pkexec pacman -Rns --noconfirm cai".into(),
            status: "exit status: 127".into(),
            stderr: "Remove cancelled or authentication failed".into(),
        }
    );
    let failed = RemoveResult { package_name: "cai".into(), stdout: String::new(), stderr: "  \n".into(), success: false };
    assert!(matches!(
        remove_report("cai".into(), 2, Ok(failed), Err(AppError::PacmanNotFound)),
        WorkerEvent::PackageRemoveFailed { error, .. } if error == "Remove failed"
    ));
    match finish_successful_remove("cai".into(), 2, Err(AppError::PacmanNotFound)) {
        WorkerEvent::PackageRemoveFinished { refreshed, refreshed_tool, .. } => {
            assert!(!refreshed);
            assert_eq!(refreshed_tool.package_name, "cai");
        }
        other => panic!("unexpected {other:?}"),
    }
}

#[test]
fn installs_and_removals_report_their_start() {
    let started = started_report(&WorkerCommand::InstallPackage {
        package_name: "sqlmap".to_string(),
        request_id: 4,
    });
    assert!(matches!(
        started,
        Some(WorkerEvent::PackagesInstallStarted { ref package_names, request_id: 4 })
            if package_names == &vec!["sqlmap".to_string()]
    ));
    let started = started_report(&WorkerCommand::RemovePackage {
        package_name: "nmap".to_string(),
        request_id: 5,
    });
    assert!(matches!(
        started,
        Some(WorkerEvent::PackageRemoveStarted { ref package_name, request_id: 5 }) if package_name == "nmap"
    ));
    assert!(started_report(&WorkerCommand::SyncBasicCache).is_none());
}
