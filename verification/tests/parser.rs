use blackarch_hyprland_tui::pacman::parser::{
    parse_blackarch_categories, parse_executables, parse_package_info, parse_tools_from_group,
};

const SG_SAMPLE: &str = "blackarch-webapp sqlmap\nblackarch-webapp nikto\nblackarch-scanner nmap\nblackarch-recon amass\n";

const SI_SAMPLE: &str = "Repository      : blackarch\nName            : sqlmap\nVersion         : 1.7.11-1\nDescription     : Automatic SQL injection and database takeover tool\nArchitecture    : any\nURL             : https://sqlmap.org\nGroups          : blackarch-webapp\nLicenses        : GPL\n";

const QL_SAMPLE: &str = "sqlmap /usr/\nsqlmap /usr/bin/\nsqlmap /usr/bin/sqlmap\nsqlmap /usr/share/\n";

#[test]
fn parses_categories() {
    assert_eq!(
        parse_blackarch_categories(SG_SAMPLE),
        vec!["blackarch-webapp", "blackarch-scanner", "blackarch-recon"]
    );
}

#[test]
fn parses_tools_from_group() {
    assert_eq!(parse_tools_from_group(SG_SAMPLE, "blackarch-webapp"), vec!["sqlmap", "nikto"]);
}

#[test]
fn parses_package_info() {
    let info = parse_package_info(SI_SAMPLE);
    assert_eq!(info.name, "sqlmap");
    assert_eq!(info.version.as_deref(), Some("1.7.11-1"));
    assert_eq!(
        info.description.as_deref(),
        Some("Automatic SQL injection and database takeover tool")
    );
    assert_eq!(info.url.as_deref(), Some("https://sqlmap.org"));
    assert_eq!(info.groups, vec!["blackarch-webapp"]);
}

#[test]
fn parses_executables() {
    assert_eq!(parse_executables(QL_SAMPLE), vec!["sqlmap"]);
}

#[test]
fn package_info_reads_repository_and_licenses() {
    let info = parse_package_info(SI_SAMPLE);
    assert_eq!(info.repository.as_deref(), Some("blackarch"));
    assert_eq!(info.licenses, vec!["GPL"]);
    assert!(!info.installed);
    assert!(info.executables.is_empty());
}

#[test]
fn package_info_treats_none_as_missing() {
    let info = parse_package_info("Name : x\nDescription : None\nGroups : None\n");
    assert_eq!(info.name, "x");
    assert_eq!(info.description, None);
    assert!(info.groups.is_empty());
}

#[test]
fn categories_ignore_other_groups_and_repeats() {
    assert_eq!(
        parse_blackarch_categories("base bash\nblackarch-misc a\nblackarch-misc b\n\n"),
        vec!["blackarch-misc"]
    );
    assert!(parse_blackarch_categories("").is_empty());
}
