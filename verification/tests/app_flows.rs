use blackarch_hyprland_tui::app::categories::{
    capitalize_with, display_category_name, group_from_lowercase, normalize_category_filter,
};
use blackarch_hyprland_tui::app::filters::matches_lowered;
use blackarch_hyprland_tui::actions::privilege::{check_privilege_status, PrivilegeStatus};
use blackarch_hyprland_tui::app::keys::{Key, KeyAction};
use blackarch_hyprland_tui::app::menu::MenuEffect;
use blackarch_hyprland_tui::app::{App, FocusPane};
use blackarch_hyprland_tui::cache::paths::{
    package_detail_cache_path, package_detail_cache_target, tools_cache_path,
};
use blackarch_hyprland_tui::config::paths::config_path;
use blackarch_hyprland_tui::models::{BlackArchTool, ToolStatus};
use blackarch_hyprland_tui::ui::{
    activity_text, display_tool_category, pane_titles, repo_status, status_label, tool_details,
    tool_row_cells, truncate,
};
use blackarch_hyprland_tui::user_state::paths::favorites_path;
use blackarch_hyprland_tui::worker::message::{WorkerCommand, WorkerEvent};

fn tool(package_name: &str) -> BlackArchTool {
    BlackArchTool {
        name: package_name.to_string(),
        package_name: package_name.to_string(),
        category: Some("blackarch-webapp".to_string()),
        categories: vec!["blackarch-webapp".to_string()],
        version: None,
        description: None,
        executable: None,
        executables: Vec::new(),
        status: ToolStatus::NotInstalled,
        favorite: false,
    }
}

fn pkexec_found() -> PrivilegeStatus {
    check_privilege_status(true, None)
}

fn app_with(tools: Vec<BlackArchTool>) -> App {
    let mut app = App::new();
    app.set_backend_data(vec!["blackarch-webapp".to_string(), "blackarch-scanner".to_string()], tools);
    app
}

#[test]
fn category_names_are_shown_capitalized() {
    assert_eq!(display_category_name("blackarch-web_app"), "Web App");
    assert_eq!(display_category_name("All Tools"), "All Tools");
    assert_eq!(display_category_name("blackarch-"), "");
}

#[test]
fn chosen_categories_are_normalized() {
    assert_eq!(normalize_category_filter("Web App"), "blackarch-web-app");
    assert_eq!(normalize_category_filter("blackarch-webapp"), "blackarch-webapp");
    assert_eq!(normalize_category_filter("Recent"), "Recent");
}

#[test]
fn search_ignores_case() {
    let mut app = app_with(vec![tool("sqlmap"), tool("nmap")]);
    app.set_search_query("SQL".to_string());
    assert_eq!(app.filtered_tools.len(), 1);
    assert_eq!(app.filtered_tools[0].package_name, "sqlmap");
    app.pop_search_char();
    app.pop_search_char();
    app.pop_search_char();
    assert_eq!(app.search_query, "");
    assert_eq!(app.filtered_tools.len(), 2);
    app.push_search_char('n');
    assert_eq!(app.search_query, "n");
}

#[test]
fn category_choice_filters_and_wraps() {
    let mut scanner = tool("nmap");
    scanner.category = Some("blackarch-scanner".to_string());
    scanner.categories = vec!["blackarch-scanner".to_string()];
    let mut app = app_with(vec![tool("sqlmap"), scanner]);
    assert_eq!(app.categories.len(), 6);
    app.select_previous_category();
    assert_eq!(app.selected_category_index, 5);
    assert_eq!(app.filtered_tools.len(), 1);
    assert_eq!(app.filtered_tools[0].package_name, "nmap");
    app.select_next_category();
    assert_eq!(app.selected_category_index, 0);
    assert_eq!(app.filtered_tools.len(), 2);
}

#[test]
fn selection_stays_on_its_package_when_filters_change() {
    let mut app = app_with(vec![tool("amass"), tool("nmap"), tool("sqlmap")]);
    app.select_next_tool();
    app.select_next_tool();
    assert_eq!(app.selected_tool().unwrap().package_name, "sqlmap");
    app.set_search_query("map".to_string());
    assert_eq!(app.selected_tool().unwrap().package_name, "sqlmap");
    assert_eq!(app.selected_tool_index, 1);
    app.set_search_query("zzz".to_string());
    assert_eq!(app.selected_tool_index, 0);
    assert!(app.selected_tool().is_none());
}

#[test]
fn focus_and_search_mode() {
    let mut app = App::new();
    assert_eq!(app.focus, FocusPane::Tools);
    app.focus_next();
    assert_eq!(app.focus, FocusPane::Details);
    app.enter_search();
    assert_eq!(app.status_message, "Search mode • Esc/Enter/Tab to exit");
    app.focus_next();
    assert_eq!(app.focus, FocusPane::Categories);
    app.enter_search();
    app.exit_search();
    assert_eq!(app.focus, FocusPane::Tools);
    assert_eq!(app.status_message, "Ready");
}

#[test]
fn toggling_a_favorite_rewrites_the_file_and_marks_the_tool() {
    let mut app = app_with(vec![tool("sqlmap")]);
    let mut file = vec!["nmap".to_string()];
    app.toggle_selected_favorite(&mut file).unwrap();
    assert_eq!(file, vec!["nmap", "sqlmap"]);
    assert!(app.is_selected_tool_favorite());
    assert_eq!(app.status_message, "Added sqlmap to favorites");
    app.toggle_selected_favorite(&mut file).unwrap();
    assert_eq!(file, vec!["nmap"]);
    assert!(!app.is_selected_tool_favorite());
    assert_eq!(app.status_message, "Removed sqlmap from favorites");
}

#[test]
fn loading_user_state_marks_favorites() {
    let mut app = app_with(vec![tool("sqlmap"), tool("nmap")]);
    app.load_user_state(vec!["nmap".to_string()], Vec::new()).unwrap();
    assert!(app.tools.iter().any(|t| t.package_name == "nmap" && t.favorite));
    assert!(app.load_user_state(vec!["bad name".to_string()], Vec::new()).is_err());
    assert_eq!(app.user_state.favorites, vec!["nmap"]);
    let (favorites, recent) = app.save_user_state().unwrap();
    assert_eq!(favorites, vec!["nmap"]);
    assert!(recent.is_empty());
}

#[test]
fn queue_toggle_twice_restores_it() {
    let mut app = app_with(vec![tool("sqlmap"), tool("nmap")]);
    app.install_queue.add("nmap".to_string());
    app.toggle_selected_package_in_queue().unwrap();
    assert_eq!(app.install_queue.packages, vec!["nmap", "sqlmap"]);
    assert_eq!(app.status_message, "Added sqlmap to install queue");
    app.toggle_selected_package_in_queue().unwrap();
    assert_eq!(app.install_queue.packages, vec!["nmap"]);
    assert_eq!(app.status_message, "Removed sqlmap from install queue");
    app.add_selected_package_to_queue().unwrap();
    app.add_selected_package_to_queue().unwrap();
    assert_eq!(app.status_message, "sqlmap is already queued");
    app.remove_selected_package_from_queue().unwrap();
    app.remove_selected_package_from_queue().unwrap();
    assert_eq!(app.status_message, "sqlmap is not queued");
}

#[test]
fn queue_modal_lists_and_removes() {
    let mut app = app_with(vec![tool("sqlmap"), tool("nmap")]);
    app.open_install_queue_modal();
    assert_eq!(app.status_message, "Install queue is empty");
    app.install_queue.add("sqlmap".to_string());
    app.install_queue.add("nmap".to_string());
    app.open_install_queue_modal();
    assert!(app.install_queue_modal_visible);
    app.select_previous_queue_item();
    assert_eq!(app.install_queue_selected_index, 1);
    app.remove_selected_queue_item();
    assert_eq!(app.install_queue.packages, vec!["sqlmap"]);
    assert_eq!(app.install_queue_selected_index, 0);
    app.open_install_confirmation_for_queue(pkexec_found());
    assert_eq!(app.confirm_modal.title, "Install Package");
}

#[test]
fn batch_confirmation_counts_packages() {
    let mut app = app_with(vec![tool("sqlmap"), tool("nmap")]);
    app.install_queue.add("sqlmap".to_string());
    app.install_queue.add("nmap".to_string());
    app.open_install_confirmation_for_queue(pkexec_found());
    assert_eq!(app.confirm_modal.title, "Install Packages");
    assert!(app.confirm_modal.message.starts_with("Packages: 2\n\n"));
    assert_eq!(
        app.confirm_modal.command_preview.as_deref(),
        Some("pkexec pacman -S --needed --noconfirm sqlmap nmap")
    );
}

#[test]
fn install_without_pkexec_fails_and_starts_nothing() {
    let mut app = app_with(vec![tool("sqlmap")]);
    let error = app.start_install_package("sqlmap".to_string(), check_privilege_status(false, None)).unwrap_err();
    assert!(error.message().contains("pkexec not found"));
    assert!(!app.install_in_progress);
    assert!(matches!(app.privilege_status, Some(ref p) if !p.pkexec_found));
}

#[test]
fn one_operation_at_a_time() {
    let mut installed = tool("sqlmap");
    installed.status = ToolStatus::Installed;
    let mut app = app_with(vec![installed, tool("nmap")]);
    let command = app.start_install_package("nmap".to_string(), pkexec_found()).unwrap().unwrap();
    assert!(matches!(command, WorkerCommand::InstallPackages { request_id: 1, .. }));
    assert!(app.install_in_progress);
    assert_eq!(app.current_install_request_id, Some(1));
    assert!(app.start_remove_package("sqlmap".to_string(), pkexec_found()).unwrap().is_none());
    assert_eq!(app.status_message, "Another package operation is already in progress");
}

#[test]
fn worker_reports_update_the_state() {
    let mut app = App::new();
    let command = app.begin_initial_load(check_privilege_status(true, None));
    assert!(matches!(command, WorkerCommand::LoadInitialData));
    assert!(app.loading);
    app.handle_worker_event(WorkerEvent::InitialDataLoaded {
        tools: vec![tool("sqlmap")],
        categories: vec!["blackarch-webapp".to_string()],
    });
    assert!(!app.loading);
    assert_eq!(app.status_message, "Ready • 1 tools loaded");
    assert_eq!(app.pending_detail_package.as_deref(), Some("sqlmap"));
    app.handle_worker_event(WorkerEvent::ToolRunStarted {
        package_name: "sqlmap".into(),
        executable: "sqlmap".into(),
        request_id: 9,
    });
    assert_eq!(app.status_message, "Launched sqlmap");
    assert_eq!(app.user_state.recent[0].package_name, "sqlmap");
    app.handle_worker_event(WorkerEvent::SearchCompleted { query: "x".into(), request_id: 12, results: vec![] });
    assert_eq!(app.status_message, "Search x (12): 0 result(s)");
    app.handle_worker_event(WorkerEvent::PackagesInstallFinished {
        package_names: vec!["sqlmap".into()],
        request_id: 40,
        refreshed_tools: vec![],
    });
    assert_eq!(app.tools[0].status, ToolStatus::NotInstalled);
    app.handle_worker_event(WorkerEvent::TaskFailed { label: "sync cache".into(), error: "boom".into() });
    assert_eq!(app.status_message, "sync cache failed");
    assert_eq!(app.error_message.as_deref(), Some("boom"));
}

#[test]
fn detail_dispatch_waits_for_the_selection_to_settle() {
    let mut app = app_with(vec![tool("sqlmap"), tool("nmap")]);
    app.pending_detail_package = Some("nmap".to_string());
    app.last_selection_change = None;
    assert!(app.dispatch_debounced_after(500).is_none());
    app.last_selection_change = Some(std::time::Instant::now());
    assert_eq!(app.detail_debounce_ms, 200);
    assert!(app.dispatch_debounced_after(199).is_none());
    assert!(app.maybe_dispatch_debounced_tasks().is_none());
    assert!(app.pending_detail_package.is_some());
    let command = app.dispatch_debounced_after(200).unwrap();
    assert!(matches!(command, WorkerCommand::LoadToolDetail { request_id: 1, .. }));
    assert_eq!(app.current_detail_request_id, 1);
    assert!(app.pending_detail_package.is_none());
    assert!(app.last_selection_change.is_none());
    assert_eq!(app.status_message, "Loading details for nmap...");
    assert!(app.maybe_dispatch_debounced_tasks().is_none());
}

#[test]
fn action_menu_defers_outside_work() {
    let mut app = app_with(vec![tool("sqlmap")]);
    app.open_action_menu();
    for _ in 0..3 {
        app.select_next_action();
    }
    assert!(matches!(app.execute_selected_action(pkexec_found()).unwrap(), MenuEffect::ToggleFavorite));
    assert!(!app.action_menu.visible);
    app.open_action_menu();
    for _ in 0..5 {
        app.select_next_action();
    }
    match app.execute_selected_action(pkexec_found()).unwrap() {
        MenuEffect::Send(WorkerCommand::RefreshToolDetail { package_name, .. }) => assert_eq!(package_name, "sqlmap"),
        other => panic!("unexpected {other:?}"),
    }
}

#[test]
fn copying_needs_a_clipboard_program() {
    let mut app = app_with(vec![tool("sqlmap")]);
    let error = app.copy_selected_command(false, Ok(())).unwrap_err();
    assert_eq!(error.message(), "config error: No clipboard tool found. Install wl-clipboard.");
    app.copy_selected_command(true, Ok(())).unwrap();
    assert_eq!(app.status_message, "Copied command: sqlmap");
}

#[test]
fn running_a_tool_requests_its_executable() {
    let mut installed = tool("sqlmap");
    installed.status = ToolStatus::Installed;
    installed.executable = Some("sqlmap-run".to_string());
    let mut app = app_with(vec![installed]);
    let command = app.run_selected_tool().unwrap().unwrap();
    assert!(matches!(command, WorkerCommand::RunTool { ref executable, .. } if executable == "sqlmap-run"));
    assert_eq!(app.status_message, "Launching sqlmap-run...");
}

#[test]
fn tool_texts() {
    assert_eq!(status_label(&ToolStatus::UpdateAvailable), "update");
    assert_eq!(truncate("abcdef", 3), "abc…");
    assert_eq!(truncate("abc", 3), "abc");
    let mut t = tool("x");
    assert_eq!(display_tool_category(&t), "Webapp");
    t.category = None;
    t.categories = vec![];
    assert_eq!(display_tool_category(&t), "-");
}

#[test]
fn details_pane_texts() {
    let mut t = tool("sqlmap");
    let d = tool_details(&t);
    assert_eq!(d.name, "sqlmap");
    assert_eq!(d.package, "sqlmap");
    assert_eq!(d.category, "Webapp");
    assert_eq!(d.version, "-");
    assert_eq!(d.executable, "-");
    assert_eq!(d.status, "not installed");
    assert_eq!(d.description, "Loading package details...");
    assert_eq!(d.executables, "-");

    t.version = Some("1.8-1".to_string());
    assert_eq!(tool_details(&t).description, "No description available.");

    t.description = Some("SQL injection tool".to_string());
    t.executable = Some("sqlmap".to_string());
    t.executables = vec!["sqlmap".to_string(), "sqlmapapi".to_string()];
    t.status = ToolStatus::Installed;
    let d = tool_details(&t);
    assert_eq!(d.version, "1.8-1");
    assert_eq!(d.executable, "sqlmap");
    assert_eq!(d.status, "installed");
    assert_eq!(d.description, "SQL injection tool");
    assert_eq!(d.executables, "sqlmap, sqlmapapi");
}

#[test]
fn tools_table_row_cells() {
    let mut t = tool("nmap");
    assert_eq!(tool_row_cells(&t, false), vec![" ", "nmap", "Webapp", "-", "not installed"]);
    t.version = Some("7.95-1".to_string());
    t.status = ToolStatus::UpdateAvailable;
    assert_eq!(tool_row_cells(&t, true), vec![">", "nmap", "Webapp", "7.95-1", "update"]);
}

#[test]
fn header_and_status_bar_texts() {
    let mut app = App::new();
    app.loading = false;
    app.status_message = "Ready".to_string();
    assert_eq!(repo_status(&app), "synced");
    assert_eq!(activity_text(&app), "Ready");
    app.loading = true;
    assert_eq!(repo_status(&app), "loading");
    app.error_message = Some("pacman failed: exit status 1 while querying the sync database".to_string());
    assert_eq!(repo_status(&app), "error");
    assert_eq!(activity_text(&app), "pacman failed: exit status 1 while queryi…");
}

#[test]
fn pane_titles_mark_the_focus() {
    assert_eq!(pane_titles(FocusPane::Categories), ("Categories *", "Tools", "Details"));
    assert_eq!(pane_titles(FocusPane::Tools), ("Categories", "Tools *", "Details"));
    assert_eq!(pane_titles(FocusPane::Search), ("Categories", "Tools *", "Details"));
    assert_eq!(pane_titles(FocusPane::Details), ("Categories", "Tools", "Details *"));
}

#[test]
fn storage_paths_end_in_their_files() {
    if let Ok(path) = tools_cache_path() {
        assert!(path.ends_with("/blackarch-hypr-tui/tools.json"));
    }
    if let Ok(path) = config_path() {
        assert!(path.ends_with("/blackarch-hypr-tui/config.toml"));
    }
    if let Ok(path) = favorites_path() {
        assert!(path.ends_with("/blackarch-hypr-tui/favorites.json"));
    }
    if let Ok(path) = package_detail_cache_path("sqlmap") {
        assert!(path.ends_with("/blackarch-hypr-tui/packages/sqlmap.json"));
        assert_eq!(package_detail_cache_target("sqlmap").unwrap(), path);
    }
    assert!(matches!(
        package_detail_cache_target("../sqlmap"),
        Err(blackarch_hyprland_tui::error::AppError::InvalidPackageName(ref name)) if name == "../sqlmap"
    ));
}

#[test]
fn keys_of_the_main_view() {
    let mut app = app_with(vec![tool("sqlmap")]);
    app.focus = FocusPane::Tools;
    assert_eq!(app.key_action(Key::Char('q')), KeyAction::Quit);
    assert_eq!(app.key_action(Key::Up), KeyAction::PreviousTool);
    assert_eq!(app.key_action(Key::Enter), KeyAction::OpenActionMenu);
    assert_eq!(app.key_action(Key::Char('I')), KeyAction::OpenQueue);
    assert_eq!(app.key_action(Key::Char('i')), KeyAction::Install);
    assert_eq!(app.key_action(Key::Char('z')), KeyAction::Ignore);
    app.focus = FocusPane::Categories;
    assert_eq!(app.key_action(Key::Down), KeyAction::NextCategory);
}

#[test]
fn search_field_takes_characters() {
    let mut app = app_with(vec![tool("sqlmap")]);
    app.enter_search();
    assert_eq!(app.key_action(Key::Char('q')), KeyAction::PushSearchChar('q'));
    assert_eq!(app.key_action(Key::Backspace), KeyAction::PopSearchChar);
    assert_eq!(app.key_action(Key::Tab), KeyAction::ExitSearch);
}

#[test]
fn open_dialogs_take_keys_first() {
    let mut app = app_with(vec![tool("sqlmap")]);
    app.toggle_selected_package_in_queue().unwrap();
    app.open_install_queue_modal();
    assert!(app.install_queue_modal_visible);
    assert_eq!(app.key_action(Key::Char('x')), KeyAction::RemoveQueueItem);
    assert_eq!(app.key_action(Key::Enter), KeyAction::InstallQueue);
    app.open_action_menu();
    assert_eq!(app.key_action(Key::Enter), KeyAction::ExecuteAction);
    assert_eq!(app.key_action(Key::Char('q')), KeyAction::CloseActionMenu);
    app.confirm_modal.visible = true;
    assert_eq!(app.key_action(Key::Left), KeyAction::ToggleConfirmation);
    assert_eq!(app.key_action(Key::Esc), KeyAction::CloseConfirmation);
}

#[test]
fn help_key_shows_help() {
    let mut app = app_with(vec![tool("sqlmap")]);
    app.show_help();
    assert_eq!(
        app.status_message,
        "Help: ↑↓ move • Tab focus • / search • Enter menu • a queue • I queue • s sync • q quit"
    );
}

fn chars(s: &str) -> Vec<char> {
    s.chars().collect()
}

#[test]
fn search_over_lowercase_texts() {
    let lowered = vec![chars("sqlmap"), chars("sqlmap"), chars("blackarch-webapp"), chars("")];
    assert!(matches_lowered(&lowered, &chars("sql")));
    assert!(matches_lowered(&lowered, &chars("webapp")));
    assert!(!matches_lowered(&lowered, &chars("nmap")));
    assert!(matches_lowered(&lowered, &chars("")));
    assert!(!matches_lowered(&vec![], &chars("a")));
}

#[test]
fn capitalizing_with_the_uppercase_letter() {
    assert_eq!(capitalize_with("W", &chars("web")), "Web");
    assert_eq!(capitalize_with("SS", &chars("ßcan")), "SScan");
    assert_eq!(capitalize_with("X", &[]), "");
}

#[test]
fn group_from_a_lowercase_name() {
    assert_eq!(group_from_lowercase(&chars("web app")), "blackarch-web-app");
    assert_eq!(group_from_lowercase(&chars("")), "blackarch-");
}
