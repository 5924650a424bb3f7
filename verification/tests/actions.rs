use blackarch_hyprland_tui::actions::package_installer::build_install_args;
use blackarch_hyprland_tui::actions::package_remover::build_remove_args;
use blackarch_hyprland_tui::actions::privilege::{check_privilege_status, PrivilegeStatus};
use blackarch_hyprland_tui::actions::terminal_runner::build_terminal_args;
use blackarch_hyprland_tui::error::AppError;

#[test]
fn builds_batch_install_args() {
    assert_eq!(
        build_install_args(&["sqlmap".to_string(), "nmap".to_string()]).unwrap(),
        vec!["pacman", "-S", "--needed", "--noconfirm", "sqlmap", "nmap"]
    );
}

#[test]
fn rejects_empty_package_list() {
    assert!(build_install_args(&[]).is_err());
}

#[test]
fn deduplicates_package_names_while_preserving_order() {
    assert_eq!(
        build_install_args(&["sqlmap".to_string(), "nmap".to_string(), "sqlmap".to_string()])
            .unwrap(),
        vec!["pacman", "-S", "--needed", "--noconfirm", "sqlmap", "nmap"]
    );
}

#[test]
fn ignore_unknown_lines() {}

#[test]
fn builds_remove_args_for_one_package() {
    assert_eq!(build_remove_args("cai").unwrap(), vec!["pacman", "-Rns", "--noconfirm", "cai"]);
}

#[test]
fn rejects_invalid_package_with_semicolon() {
    assert!(build_remove_args("bad;name").is_err());
}

#[test]
fn rejects_invalid_package_with_slash() {
    assert!(build_remove_args("bad/name").is_err());
}

#[test]
fn rejects_invalid_package_with_space() {
    assert!(build_remove_args("bad name").is_err());
}

#[test]
fn rejects_empty_package_name() {
    assert!(build_remove_args("").is_err());
}

#[test]
fn remove_args_do_not_contain_forbidden_tokens() {
    let args = build_remove_args("cai").unwrap();
    for forbidden in ["sudo", "pkexec", "sh", "bash", "-S", "--overwrite"] {
        assert!(!args.iter().any(|arg| arg == forbidden));
    }
}

#[test]
fn remove_args_contain_required_tokens_once() {
    let args = build_remove_args("cai").unwrap();
    assert_eq!(args.iter().filter(|arg| arg.as_str() == "pacman").count(), 1);
    assert_eq!(args.iter().filter(|arg| arg.as_str() == "-Rns").count(), 1);
    assert!(args.iter().any(|arg| arg == "--noconfirm"));
}

#[test]
fn missing_agent_status_contains_warning() {
    let status = PrivilegeStatus {
        pkexec_found: false,
        polkit_agent_detected: false,
        detected_agent: None,
        warnings: vec![
            "No polkit authentication agent detected. pkexec may not show a password prompt."
                .to_string(),
        ],
    };

    assert!(!status.pkexec_found);
    assert!(!status.polkit_agent_detected);
    assert!(!status.warnings.is_empty());
}

#[test]
fn builds_kitty_args() {
    assert_eq!(
        build_terminal_args("kitty", "blackarch-tool-runner", "sqlmap").unwrap(),
        vec!["--class", "blackarch-tool-runner", "-e", "sqlmap"]
    );
}

#[test]
fn builds_foot_args() {
    assert_eq!(
        build_terminal_args("foot", "blackarch-tool-runner", "sqlmap").unwrap(),
        vec!["--app-id", "blackarch-tool-runner", "sqlmap"]
    );
}

#[test]
fn builds_alacritty_args() {
    assert_eq!(
        build_terminal_args("alacritty", "blackarch-tool-runner", "sqlmap").unwrap(),
        vec!["--class", "blackarch-tool-runner", "-e", "sqlmap"]
    );
}

#[test]
fn builds_wezterm_args() {
    assert_eq!(
        build_terminal_args("wezterm", "blackarch-tool-runner", "sqlmap").unwrap(),
        vec!["start", "--class", "blackarch-tool-runner", "--", "sqlmap"]
    );
}

#[test]
fn rejects_unsupported_terminal() {
    assert!(build_terminal_args("xterm", "runner", "sqlmap").is_err());
}

#[test]
fn install_args_name_the_first_invalid_package() {
    let error = build_install_args(&["nmap".to_string(), "bad/name".to_string(), "x;y".to_string()])
        .unwrap_err();
    assert_eq!(error, AppError::InvalidPackageName("bad/name".to_string()));
}

#[test]
fn empty_install_list_error_message() {
    let error = build_install_args(&[]).unwrap_err();
    assert_eq!(error, AppError::Config("No packages selected for installation.".to_string()));
}

#[test]
fn terminal_class_is_checked_before_executable() {
    let error = build_terminal_args("kitty", "bad class", "bad/exe").unwrap_err();
    assert_eq!(error.message(), "config error: invalid terminal class/app-id: bad class");
    let error = build_terminal_args("kitty", "runner", "bad/exe").unwrap_err();
    assert_eq!(error, AppError::InvalidPackageName("bad/exe".to_string()));
}

#[test]
fn privilege_status_without_agent_warns() {
    let status = check_privilege_status(true, None);
    assert!(status.pkexec_found);
    assert!(!status.polkit_agent_detected);
    assert!(!status.warnings.is_empty());
    let ready = check_privilege_status(true, Some("hyprpolkitagent".to_string()));
    assert!(ready.polkit_agent_detected);
    assert!(ready.warnings.is_empty());
}
