use blackarch_hyprland_tui::actions::privilege::PrivilegeStatus;
use blackarch_hyprland_tui::app::App;
use blackarch_hyprland_tui::error::AppError;
use blackarch_hyprland_tui::models::{ActionMenuItem, BlackArchTool, RecentTool, ToolStatus};
use blackarch_hyprland_tui::worker::message::WorkerCommand;

fn app_with_tools(tools: Vec<BlackArchTool>) -> App {
    let mut app = App::new();
    app.set_backend_data(vec!["blackarch-webapp".to_string()], tools);
    app
}

fn tool(package_name: &str) -> BlackArchTool {
    BlackArchTool {
        name: package_name.to_string(),
        package_name: package_name.to_string(),
        category: Some("blackarch-webapp".to_string()),
        categories: vec!["blackarch-webapp".to_string()],
        version: None,
        description: None,
        executable: None,
        executables: Vec::new(),
        status: ToolStatus::NotInstalled,
        favorite: false,
    }
}

fn ready_privileges() -> PrivilegeStatus {
    PrivilegeStatus {
        pkexec_found: true,
        polkit_agent_detected: true,
        detected_agent: Some("test-agent".to_string()),
        warnings: vec![],
    }
}

#[test]
fn stale_detail_result_is_ignored() {
    let mut app = app_with_tools(vec![tool("sqlmap"), tool("nmap")]);
    app.current_detail_request_id = 2;
    app.detail_loading = true;

    let mut stale = tool("sqlmap");
    stale.version = Some("1.0".to_string());
    app.apply_tool_detail_result("sqlmap", 1, stale);

    assert!(app.detail_loading);
    assert_eq!(app.selected_tool().unwrap().version, None);
}

#[test]
fn current_detail_result_is_applied() {
    let mut app = app_with_tools(vec![tool("sqlmap")]);
    app.current_detail_request_id = 7;
    app.detail_loading = true;

    let mut detail = tool("sqlmap");
    detail.version = Some("1.7.11-1".to_string());
    app.apply_tool_detail_result("sqlmap", 7, detail);

    assert!(!app.detail_loading);
    assert_eq!(app.selected_tool().unwrap().version.as_deref(), Some("1.7.11-1"));
}

#[test]
fn selection_change_sets_pending_detail_package() {
    let mut app = app_with_tools(vec![tool("sqlmap"), tool("nmap")]);

    app.select_next_tool();

    assert_eq!(app.selected_tool().unwrap().package_name, "nmap");
    assert_eq!(app.pending_detail_package.as_deref(), Some("nmap"));
    assert!(app.detail_loading);
    assert!(app.last_selection_change.is_some());
}

#[test]
fn apply_filters_uses_in_memory_data() {
    let mut app = app_with_tools(vec![tool("sqlmap"), tool("nmap")]);
    app.search_query = "sql".to_string();

    app.apply_filters();

    assert_eq!(app.filtered_tools.len(), 1);
    assert_eq!(app.filtered_tools[0].package_name, "sqlmap");
}

#[test]
fn detail_error_marks_selected_tool_without_crashing() {
    let mut app = app_with_tools(vec![tool("sqlmap")]);
    app.current_detail_request_id = 3;
    app.detail_loading = true;

    app.apply_tool_detail_error("sqlmap", 3, "pacman failed".to_string());

    assert!(!app.detail_loading);
    assert!(app.selected_tool().unwrap().description.as_deref().is_some_and(
        |description| description.contains("Package info unavailable")
            && description.contains("pacman failed")
    ));
}

#[test]
fn favorites_filter_returns_only_favorite_tools() {
    let mut app = app_with_tools(vec![tool("sqlmap"), tool("nmap")]);
    app.user_state.favorites = vec!["sqlmap".to_string()];
    app.apply_user_state_to_tools();
    app.selected_category_index =
        app.categories.iter().position(|category| category == "Favorites").unwrap();

    app.apply_filters();

    assert_eq!(app.filtered_tools.len(), 1);
    assert_eq!(app.filtered_tools[0].package_name, "sqlmap");
}

#[test]
fn recent_filter_uses_recent_order() {
    let mut app = app_with_tools(vec![tool("sqlmap"), tool("nmap"), tool("amass")]);
    app.user_state.recent = vec![
        RecentTool {
            package_name: "nmap".to_string(),
            executable: Some("nmap".to_string()),
            last_used: "2".to_string(),
        },
        RecentTool {
            package_name: "sqlmap".to_string(),
            executable: Some("sqlmap".to_string()),
            last_used: "1".to_string(),
        },
    ];
    app.selected_category_index =
        app.categories.iter().position(|category| category == "Recent").unwrap();

    app.apply_filters();

    assert_eq!(
        app.filtered_tools.iter().map(|tool| tool.package_name.as_str()).collect::<Vec<_>>(),
        vec!["nmap", "sqlmap"]
    );
}

#[test]
fn open_install_confirmation_creates_modal_state() {
    let mut app = app_with_tools(vec![tool("sqlmap")]);

    app.open_install_confirmation(ready_privileges());

    assert!(app.confirm_modal.visible);
    assert_eq!(app.confirm_modal.title, "Install Package");
    assert!(!app.confirm_modal.selected_confirm);
    assert_eq!(
        app.confirm_modal.command_preview.as_deref(),
        Some("pkexec pacman -S --needed --noconfirm sqlmap")
    );
}

#[test]
fn cancel_confirmation_closes_modal() {
    let mut app = app_with_tools(vec![tool("sqlmap")]);
    app.open_install_confirmation(ready_privileges());

    let command = app.confirm_modal_action(ready_privileges()).unwrap();

    assert!(command.is_none());
    assert!(!app.confirm_modal.visible);
    assert_eq!(app.status_message, "Install cancelled");
}

#[test]
fn confirmation_toggle_switches_selected_button() {
    let mut app = app_with_tools(vec![tool("sqlmap")]);
    app.open_install_confirmation(ready_privileges());

    app.toggle_confirmation_selection();

    assert!(app.confirm_modal.selected_confirm);
}

#[test]
fn confirmation_sends_install_when_confirm_selected() {
    let mut app = app_with_tools(vec![tool("sqlmap")]);
    app.open_install_confirmation(ready_privileges());
    app.toggle_confirmation_selection();

    let command = app.confirm_modal_action(ready_privileges()).unwrap().unwrap();

    assert!(matches!(
        command,
        WorkerCommand::InstallPackages { package_names, .. } if package_names == vec!["sqlmap".to_string()]
    ));
}

#[test]
fn invalid_install_package_is_rejected() {
    let app = app_with_tools(vec![tool("sqlmap")]);
    let error = app.validate_install_package("bad/name").unwrap_err();
    assert!(matches!(error, AppError::InvalidPackageName(_)));
}

#[test]
fn unavailable_install_package_is_rejected() {
    let app = app_with_tools(vec![tool("sqlmap")]);
    let error = app.validate_install_package("nmap").unwrap_err().message();
    assert!(error.contains("Package is not available"));
}

#[test]
fn duplicate_install_is_blocked() {
    let mut app = app_with_tools(vec![tool("sqlmap")]);
    app.install_in_progress = true;

    app.start_install_package("sqlmap".to_string(), ready_privileges()).unwrap();

    assert_eq!(app.status_message, "Another package operation is already in progress");
}

#[test]
fn install_success_updates_tool_status() {
    let mut app = app_with_tools(vec![tool("sqlmap")]);

    app.apply_install_success("sqlmap", None);

    assert_eq!(app.selected_tool().unwrap().status, ToolStatus::Installed);
    assert_eq!(app.status_message, "Installed packages, but some details could not be refreshed");
}

#[test]
fn install_failure_sets_error_status() {
    let mut app = app_with_tools(vec![tool("sqlmap")]);
    app.install_in_progress = true;

    app.apply_install_failure("sqlmap", "auth failed".to_string());

    assert!(!app.install_in_progress);
    assert_eq!(app.status_message, "Failed to install sqlmap");
    assert_eq!(app.error_message.as_deref(), Some("auth failed"));
}

#[test]
fn successful_batch_install_clears_installed_queue_items() {
    let mut app = app_with_tools(vec![tool("sqlmap"), tool("nmap")]);
    app.install_queue.add("sqlmap".to_string());
    app.install_queue.add("nmap".to_string());

    app.apply_batch_install_success(&["sqlmap".to_string()], Vec::new());

    assert!(!app.install_queue.contains("sqlmap"));
    assert!(app.install_queue.contains("nmap"));
}

#[test]
fn failed_batch_install_keeps_queue() {
    let mut app = app_with_tools(vec![tool("sqlmap")]);
    app.install_queue.add("sqlmap".to_string());
    app.install_in_progress = true;

    app.apply_batch_install_failure(&["sqlmap".to_string()], "auth failed".to_string());

    assert!(app.install_queue.contains("sqlmap"));
    assert_eq!(app.status_message, "Failed to install sqlmap");
}

#[test]
fn remove_modal_opens_only_for_installed_package() {
    let mut installed = tool("sqlmap");
    installed.status = ToolStatus::Installed;
    let mut app = app_with_tools(vec![installed]);

    app.open_remove_confirmation_for_selected_package(ready_privileges());

    assert!(app.confirm_modal.visible);
    assert_eq!(app.confirm_modal.title, "Remove Package");
    assert_eq!(app.confirm_modal.confirm_label, "Remove");
    assert_eq!(
        app.confirm_modal.command_preview.as_deref(),
        Some("pkexec pacman -Rns --noconfirm sqlmap")
    );
}

#[test]
fn remove_modal_does_not_open_for_not_installed_package() {
    let mut app = app_with_tools(vec![tool("sqlmap")]);

    app.open_remove_confirmation_for_selected_package(ready_privileges());

    assert!(!app.confirm_modal.visible);
    assert_eq!(app.status_message, "Package is not installed");
}

#[test]
fn remove_confirmation_defaults_to_cancel() {
    let mut installed = tool("sqlmap");
    installed.status = ToolStatus::Installed;
    let mut app = app_with_tools(vec![installed]);

    app.open_remove_confirmation_for_selected_package(ready_privileges());

    assert!(!app.confirm_modal.selected_confirm);
}

#[test]
fn cancel_remove_confirmation_closes_modal() {
    let mut installed = tool("sqlmap");
    installed.status = ToolStatus::Installed;
    let mut app = app_with_tools(vec![installed]);
    app.open_remove_confirmation_for_selected_package(ready_privileges());

    app.confirm_modal_action(ready_privileges()).unwrap();

    assert!(!app.confirm_modal.visible);
    assert_eq!(app.status_message, "Remove cancelled");
}

#[test]
fn confirm_remove_sends_worker_command() {
    let mut installed = tool("sqlmap");
    installed.status = ToolStatus::Installed;
    let mut app = app_with_tools(vec![installed]);
    app.open_remove_confirmation_for_selected_package(ready_privileges());
    app.toggle_confirmation_selection();

    let command = app.confirm_modal_action(ready_privileges()).unwrap().unwrap();

    assert!(matches!(
        command,
        WorkerCommand::RemovePackage { package_name, .. } if package_name == "sqlmap"
    ));
}

#[test]
fn confirm_remove_uses_pkexec_without_polkit_agent() {
    let mut installed = tool("sqlmap");
    installed.status = ToolStatus::Installed;
    let mut app = app_with_tools(vec![installed]);
    app.open_remove_confirmation_for_selected_package(ready_privileges());
    app.toggle_confirmation_selection();
    let without_agent = PrivilegeStatus {
        pkexec_found: true,
        polkit_agent_detected: false,
        detected_agent: None,
        warnings: vec![],
    };

    let command = app.confirm_modal_action(without_agent).unwrap().unwrap();

    assert!(matches!(
        command,
        WorkerCommand::RemovePackage { package_name, .. } if package_name == "sqlmap"
    ));
}

#[test]
fn remove_success_updates_status_and_clears_executables() {
    let mut installed = tool("sqlmap");
    installed.status = ToolStatus::Installed;
    installed.executable = Some("sqlmap".to_string());
    installed.executables = vec!["sqlmap".to_string()];
    let mut app = app_with_tools(vec![installed]);
    app.install_in_progress = true;
    app.current_remove_request_id = Some(1);
    let mut refreshed = tool("sqlmap");
    refreshed.status = ToolStatus::NotInstalled;

    app.apply_remove_success("sqlmap", refreshed, true);

    let selected = app.selected_tool().unwrap();
    assert_eq!(selected.status, ToolStatus::NotInstalled);
    assert_eq!(selected.executable, None);
    assert!(selected.executables.is_empty());
    assert!(!app.install_in_progress);
}

#[test]
fn remove_failure_keeps_status_unchanged() {
    let mut installed = tool("sqlmap");
    installed.status = ToolStatus::Installed;
    let mut app = app_with_tools(vec![installed]);
    app.install_in_progress = true;

    app.apply_remove_failure("sqlmap", "auth failed".to_string());

    assert_eq!(app.selected_tool().unwrap().status, ToolStatus::Installed);
    assert_eq!(app.status_message, "Failed to remove sqlmap");
    assert_eq!(app.error_message.as_deref(), Some("auth failed"));
}

#[test]
fn package_remains_visible_after_remove() {
    let mut installed = tool("sqlmap");
    installed.status = ToolStatus::Installed;
    let mut app = app_with_tools(vec![installed]);
    let refreshed = tool("sqlmap");

    app.apply_remove_success("sqlmap", refreshed, true);

    assert!(app.tools.iter().any(|tool| tool.package_name == "sqlmap"));
    assert!(app.filtered_tools.iter().any(|tool| tool.package_name == "sqlmap"));
}

#[test]
fn package_operation_blocks_duplicate_remove() {
    let mut installed = tool("sqlmap");
    installed.status = ToolStatus::Installed;
    let mut app = app_with_tools(vec![installed]);
    app.install_in_progress = true;

    app.start_remove_package("sqlmap".to_string(), ready_privileges()).unwrap();

    assert_eq!(app.status_message, "Another package operation is already in progress");
}

#[test]
fn action_menu_selection_wraps() {
    let mut app = app_with_tools(vec![tool("sqlmap")]);
    app.open_action_menu();

    app.select_previous_action();

    assert_eq!(app.selected_action(), Some(ActionMenuItem::Cancel));

    app.select_next_action();
    assert_eq!(app.selected_action(), Some(ActionMenuItem::RunInTerminal));
}

#[test]
fn selected_command_uses_executable_then_package_fallback() {
    let mut with_executable = tool("sqlmap");
    with_executable.executables = vec!["sqlmap".to_string()];
    let app = app_with_tools(vec![with_executable]);
    assert_eq!(app.selected_command().as_deref(), Some("sqlmap"));

    let fallback = app_with_tools(vec![tool("nmap")]);
    assert_eq!(fallback.selected_command().as_deref(), Some("nmap"));
}

#[test]
fn not_installed_package_cannot_run() {
    let app = app_with_tools(vec![tool("sqlmap")]);
    let error = app.selected_tool_executable().unwrap_err().message();
    assert!(error.contains("Package is not installed"));
}

#[test]
fn installed_package_with_executable_can_run() {
    let mut installed = tool("sqlmap");
    installed.status = ToolStatus::Installed;
    installed.version = Some("1".to_string());
    installed.executables = vec!["sqlmap".to_string()];
    let app = app_with_tools(vec![installed]);

    assert_eq!(app.selected_tool_executable().unwrap(), "sqlmap");
}

#[test]
fn installed_package_without_executable_returns_error() {
    let mut installed = tool("sqlmap");
    installed.status = ToolStatus::Installed;
    installed.version = Some("1".to_string());
    let app = app_with_tools(vec![installed]);

    let error = app.selected_tool_executable().unwrap_err().message();
    assert!(error.contains("No executable found for this package"));
}

#[test]
fn installed_package_with_unloaded_details_returns_error() {
    let mut installed = tool("sqlmap");
    installed.status = ToolStatus::Installed;
    let app = app_with_tools(vec![installed]);

    let error = app.selected_tool_executable().unwrap_err().message();
    assert!(error.contains("Package details are not loaded yet"));
}
