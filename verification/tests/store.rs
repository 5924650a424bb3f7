use blackarch_hyprland_tui::error::AppError;
use blackarch_hyprland_tui::models::RecentTool;
use blackarch_hyprland_tui::user_state::store::{
    add_recent_tool, add_recent_tool_to_vec, dedup, is_favorite, load_favorites, load_recent,
    load_user_state, save_favorites, save_recent, toggle_favorite, toggle_favorite_in_vec,
    remove_favorite,
};

#[test]
fn missing_files_load_empty_state() {
    let favorites = load_favorites(Vec::new()).unwrap();
    let recent = load_recent(Vec::new()).unwrap();
    assert!(favorites.is_empty());
    assert!(recent.is_empty());
}

#[test]
fn saving_and_loading_favorites_works() {
    let written = save_favorites(&vec!["sqlmap".to_string(), "nmap".to_string()]).unwrap();
    assert_eq!(load_favorites(written).unwrap(), vec!["nmap", "sqlmap"]);
}

#[test]
fn toggle_favorite_adds_and_removes_without_duplicates() {
    let mut favorites = Vec::new();
    assert!(toggle_favorite_in_vec(&mut favorites, "sqlmap"));
    assert!(!toggle_favorite_in_vec(&mut favorites, "sqlmap"));
    assert!(favorites.is_empty());

    assert!(toggle_favorite_in_vec(&mut favorites, "sqlmap"));
    assert!(toggle_favorite_in_vec(&mut favorites, "nmap"));
    assert_eq!(dedup(favorites), vec!["nmap", "sqlmap"]);
}

#[test]
fn invalid_package_name_is_rejected() {
    let error = save_favorites(&vec!["bad/name".to_string()]).unwrap_err();
    assert!(matches!(error, AppError::InvalidPackageName(_)));
}

#[test]
fn add_recent_tool_adds_entry() {
    let mut recent = Vec::new();
    add_recent_tool_to_vec(&mut recent, "sqlmap", Some("sqlmap"), "1".to_string());
    assert_eq!(recent.len(), 1);
    assert_eq!(recent[0].package_name, "sqlmap");
    assert_eq!(recent[0].executable.as_deref(), Some("sqlmap"));
}

#[test]
fn add_recent_tool_moves_existing_entry_to_top() {
    let mut recent = vec![RecentTool {
        package_name: "nmap".to_string(),
        executable: Some("nmap".to_string()),
        last_used: "1".to_string(),
    }];
    add_recent_tool_to_vec(&mut recent, "sqlmap", Some("sqlmap"), "2".to_string());
    add_recent_tool_to_vec(&mut recent, "nmap", Some("nmap"), "3".to_string());

    assert_eq!(recent.len(), 2);
    assert_eq!(recent[0].package_name, "nmap");
    assert_eq!(recent[0].last_used, "3");
}

#[test]
fn recent_list_is_capped_at_50() {
    let mut recent = Vec::new();
    for index in 0..60 {
        add_recent_tool_to_vec(&mut recent, &format!("tool-{index}"), None, index.to_string());
    }

    assert_eq!(recent.len(), 50);
    assert_eq!(recent[0].package_name, "tool-59");
}

#[test]
fn invalid_recent_executable_is_rejected() {
    let recent = vec![RecentTool {
        package_name: "sqlmap".to_string(),
        executable: Some("bad/exec".to_string()),
        last_used: "1".to_string(),
    }];

    let error = save_recent(&recent).unwrap_err();
    assert!(matches!(error, AppError::InvalidPackageName(_)));
}

#[test]
fn toggle_favorite_rewrites_the_file() {
    let mut file = vec!["sqlmap".to_string(), "nmap".to_string(), "nmap".to_string()];
    assert_eq!(toggle_favorite(&mut file, "amass").unwrap(), true);
    assert_eq!(file, vec!["amass", "nmap", "sqlmap"]);
    assert_eq!(toggle_favorite(&mut file, "nmap").unwrap(), false);
    assert_eq!(file, vec!["amass", "sqlmap"]);
    assert!(is_favorite(&file, "amass").unwrap());
    assert!(!is_favorite(&file, "nmap").unwrap());
}

#[test]
fn toggle_favorite_keeps_an_invalid_file() {
    let mut file = vec!["ok".to_string(), "bad name".to_string()];
    let error = toggle_favorite(&mut file, "nmap").unwrap_err();
    assert_eq!(error, AppError::InvalidPackageName("bad name".to_string()));
    assert_eq!(file, vec!["ok", "bad name"]);
}

#[test]
fn add_recent_tool_stamps_and_stores() {
    let mut file = Vec::new();
    add_recent_tool(&mut file, "sqlmap", Some("sqlmap")).unwrap();
    assert_eq!(file.len(), 1);
    assert!(file[0].last_used.chars().all(|c| c.is_ascii_digit()));
    assert!(add_recent_tool(&mut file, "bad/name", None).is_err());
    assert_eq!(file.len(), 1);
}

#[test]
fn user_state_loads_both_files() {
    let state = load_user_state(
        vec!["b".to_string(), "a".to_string()],
        vec![RecentTool { package_name: "a".to_string(), executable: None, last_used: "1".to_string() }],
    )
    .unwrap();
    assert_eq!(state.favorites, vec!["a", "b"]);
    assert_eq!(state.recent.len(), 1);
}

#[test]
fn remove_favorite_drops_the_name() {
    let mut file = vec!["sqlmap".to_string(), "nmap".to_string(), "sqlmap".to_string()];
    remove_favorite(&mut file, "sqlmap").unwrap();
    assert_eq!(file, vec!["nmap".to_string()]);
    remove_favorite(&mut file, "amass").unwrap();
    assert_eq!(file, vec!["nmap".to_string()]);
}

#[test]
fn remove_favorite_keeps_an_invalid_file() {
    let mut file = vec!["nmap".to_string(), "bad name".to_string()];
    let error = remove_favorite(&mut file, "nmap").unwrap_err();
    assert!(matches!(error, AppError::InvalidPackageName(ref name) if name == "bad name"));
    assert_eq!(file, vec!["nmap".to_string(), "bad name".to_string()]);
}
