use blackarch_hyprland_tui::app::App;
use blackarch_hyprland_tui::models::{BlackArchTool, InstallQueue, ToolStatus};
use blackarch_hyprland_tui::actions::privilege::PrivilegeStatus;
use blackarch_hyprland_tui::error::AppError;
use blackarch_hyprland_tui::user_state::store::{
    load_favorites, remove_favorite, save_favorites, toggle_favorite,
};
use blackarch_hyprland_tui::worker::message::WorkerCommand;

fn tool(package_name: &str) -> BlackArchTool {
    BlackArchTool {
        name: package_name.to_string(),
        package_name: package_name.to_string(),
        category: Some("blackarch-webapp".to_string()),
        categories: vec!["blackarch-webapp".to_string()],
        version: None,
        description: None,
        executable: None,
        executables: Vec::new(),
        status: ToolStatus::NotInstalled,
        favorite: false,
    }
}

#[test]
fn saved_favorites_load_back_unchanged() {
    let saved = save_favorites(&vec!["b".to_string(), "a".to_string(), "b".to_string()]).unwrap();
    assert_eq!(saved, vec!["a", "b"]);
    assert_eq!(load_favorites(saved.clone()).unwrap(), saved);
}

#[test]
fn toggling_a_favorite_twice_restores_the_favorites() {
    let mut file = vec!["sqlmap".to_string(), "amass".to_string()];
    let first = toggle_favorite(&mut file, "nmap").unwrap();
    let second = toggle_favorite(&mut file, "nmap").unwrap();
    assert!(first && !second);
    assert_eq!(file, vec!["amass", "sqlmap"]);
    let first = toggle_favorite(&mut file, "amass").unwrap();
    let second = toggle_favorite(&mut file, "amass").unwrap();
    assert!(!first && second);
    assert_eq!(file, vec!["amass", "sqlmap"]);
}

#[test]
fn queue_stays_valid_and_unique() {
    let mut queue = InstallQueue::new();
    assert!(queue.add("nmap".to_string()));
    assert!(!queue.add("nmap".to_string()));
    assert!(!queue.add("bad name".to_string()));
    assert!(queue.toggle("sqlmap".to_string()));
    assert!(!queue.toggle("sqlmap".to_string()));
    assert_eq!(queue.packages, vec!["nmap"]);
    queue.clear();
    assert!(queue.is_empty());
}

#[test]
fn request_identifiers_increase() {
    let mut app = App::new();
    let first = app.next_request_id();
    let second = app.next_request_id();
    assert!(second > first);
    app.next_request_id = u64::MAX;
    assert_eq!(app.next_request_id(), u64::MAX);
    assert_eq!(app.next_request_id, u64::MAX);
}

#[test]
fn installed_packages_leave_the_queue_once() {
    let mut app = App::new();
    app.set_backend_data(vec![], vec![tool("a"), tool("b"), tool("c")]);
    app.install_queue.add("a".to_string());
    app.install_queue.add("b".to_string());
    app.install_queue.add("c".to_string());
    app.install_queue_modal_visible = true;
    app.install_queue_selected_index = 2;
    app.apply_batch_install_success(&["a".to_string(), "c".to_string()], vec![]);
    assert_eq!(app.install_queue.packages, vec!["b"]);
    assert_eq!(app.install_queue_selected_index, 0);
    assert!(app.install_queue_modal_visible);
    assert!(app.tools.iter().filter(|t| t.package_name != "b").all(|t| t.status == ToolStatus::Installed));
    assert_eq!(app.status_message, "Installed packages, but some details could not be refreshed");
    app.apply_batch_install_success(&["b".to_string()], vec![tool("b")]);
    assert!(app.install_queue.is_empty());
    assert!(!app.install_queue_modal_visible);
    assert_eq!(app.status_message, "Installed 1 package(s) successfully");
}

#[test]
fn stale_detail_errors_are_ignored() {
    let mut app = App::new();
    app.set_backend_data(vec![], vec![tool("sqlmap")]);
    app.current_detail_request_id = 5;
    app.apply_tool_detail_error("sqlmap", 4, "late".to_string());
    assert_eq!(app.selected_tool().unwrap().description, None);
    app.apply_tool_detail_error("nmap", 5, "other".to_string());
    assert_eq!(app.selected_tool().unwrap().description, None);
}

#[test]
fn removed_favorite_is_gone() {
    let mut file = vec!["nmap".to_string(), "sqlmap".to_string()];
    remove_favorite(&mut file, "nmap").unwrap();
    assert!(!file.contains(&"nmap".to_string()));
    assert_eq!(file, vec!["sqlmap"]);
}

fn pkexec(found: bool) -> PrivilegeStatus {
    PrivilegeStatus {
        pkexec_found: found,
        polkit_agent_detected: false,
        detected_agent: None,
        warnings: vec![],
    }
}

#[test]
fn requests_are_issued_only_after_their_checks() {
    let mut installed = tool("sqlmap");
    installed.status = ToolStatus::Installed;
    let mut app = App::new();
    app.set_backend_data(vec!["blackarch-webapp".to_string()], vec![installed, tool("nmap")]);

    assert!(matches!(
        app.start_install_package("nmap".to_string(), pkexec(false)),
        Err(AppError::Config(_))
    ));
    assert!(!app.install_in_progress);

    assert!(matches!(
        app.start_install_package("amass".to_string(), pkexec(true)),
        Err(AppError::Config(_))
    ));
    assert!(matches!(
        app.start_install_package("bad name".to_string(), pkexec(true)),
        Err(AppError::InvalidPackageName(_))
    ));
    assert!(matches!(
        app.start_remove_package("nmap".to_string(), pkexec(true)),
        Err(AppError::Config(_))
    ));
    assert!(matches!(
        app.start_remove_package("sqlmap".to_string(), pkexec(false)),
        Err(AppError::Config(_))
    ));
    assert!(!app.install_in_progress);

    let command = app.start_remove_package("sqlmap".to_string(), pkexec(true)).unwrap().unwrap();
    assert!(matches!(command, WorkerCommand::RemovePackage { ref package_name, .. } if package_name == "sqlmap"));
    assert!(app.install_in_progress);
}
