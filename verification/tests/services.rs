use blackarch_hyprland_tui::error::AppError;
use blackarch_hyprland_tui::models::{BlackArchTool, ToolStatus};
use blackarch_hyprland_tui::pacman::query::PackageOutputs;
use blackarch_hyprland_tui::services::tool_service::{
    get_tool_detail, get_tool_detail_or_partial, load_categories, load_tools,
    minimal_available_tool, refresh_categories_cache, refresh_tools_cache,
};

const SI: &str = "Name : sqlmap\nVersion : 1.0\nGroups : base blackarch-webapp blackarch-scanner\n";

fn outputs() -> PackageOutputs {
    PackageOutputs { info: Ok(SI.to_string()), installed: Ok(String::new()), files: Ok("sqlmap /usr/bin/sqlmap\n".into()) }
}

fn broken() -> PackageOutputs {
    PackageOutputs { info: Err(AppError::PacmanNotFound), installed: Ok(String::new()), files: Ok(String::new()) }
}

#[test]
fn detail_keeps_blackarch_groups() {
    let tool = get_tool_detail("sqlmap", outputs()).unwrap();
    assert_eq!(tool.categories, vec!["blackarch-webapp", "blackarch-scanner"]);
    assert_eq!(tool.category.as_deref(), Some("blackarch-webapp"));
    assert_eq!(tool.status, ToolStatus::Installed);
    assert!(!tool.favorite);
}

#[test]
fn partial_detail_keeps_known_flags_and_marks_missing_details() {
    let mut known = minimal_available_tool("sqlmap".to_string(), vec!["blackarch-x".to_string()]);
    known.favorite = true;
    let detail = get_tool_detail_or_partial("sqlmap", outputs(), Some(&known));
    assert!(detail.favorite);
    assert_eq!(detail.category.as_deref(), Some("blackarch-webapp"));
    let partial = get_tool_detail_or_partial("sqlmap", broken(), Some(&known));
    assert_eq!(partial.description.as_deref(), Some("Package info unavailable"));
    assert_eq!(partial.categories, vec!["blackarch-x"]);
    let bare = get_tool_detail_or_partial("nmap", broken(), None);
    assert_eq!(bare.name, "nmap");
    assert_eq!(bare.status, ToolStatus::NotInstalled);
    assert_eq!(bare.description.as_deref(), Some("Package info unavailable"));
}

#[test]
fn cache_is_used_only_when_preferred() {
    let cached: Vec<BlackArchTool> = vec![minimal_available_tool("a".into(), vec![])];
    assert!(load_tools(false, Ok(Some(cached.clone()))).unwrap().is_none());
    assert_eq!(load_tools(true, Ok(Some(cached))).unwrap().unwrap().len(), 1);
    assert!(load_tools(true, Ok(None)).unwrap().is_none());
    assert_eq!(load_categories(true, Err(AppError::Json("bad".into()))), Err(AppError::Json("bad".into())));
    assert_eq!(load_categories(true, Ok(Some(vec!["c".to_string()]))).unwrap(), Some(vec!["c".to_string()]));
}

#[test]
fn refreshed_categories_are_parsed() {
    assert_eq!(
        refresh_categories_cache(Ok("blackarch-webapp a\n".into())).unwrap(),
        vec!["blackarch-webapp"]
    );
}

#[test]
fn refreshed_tools_take_groups_and_fall_back() {
    let memberships = vec![
        ("sqlmap".to_string(), vec!["blackarch-webapp".to_string(), "blackarch-x".to_string()]),
        ("nmap".to_string(), vec!["blackarch-scanner".to_string()]),
    ];
    let details = vec![get_tool_detail("sqlmap", outputs()), Err(AppError::PacmanNotFound)];
    let (tools, metadata) = refresh_tools_cache(memberships, details);
    assert_eq!(tools.len(), 2);
    assert_eq!(metadata.tool_count, 2);
    assert!(metadata.generated_at.chars().all(|c| c.is_ascii_digit()));
    assert_eq!(tools[0].categories, vec!["blackarch-webapp", "blackarch-x"]);
    assert_eq!(tools[0].version.as_deref(), Some("1.0"));
    assert_eq!(tools[1].name, "nmap");
    assert_eq!(tools[1].category.as_deref(), Some("blackarch-scanner"));
    assert_eq!(tools[1].version, None);
}
