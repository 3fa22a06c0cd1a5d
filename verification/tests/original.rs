use chrono::{Datelike, NaiveDate};

use youtrack_mcp::config::{Config, StrMap};
use youtrack_mcp::dates::{parse_dates, DateSet};
use youtrack_mcp::youtrack::{is_id, YouTrack};

fn cfg(default_project: Option<&str>) -> Config {
    let mut aliases = StrMap::new();
    aliases.insert("me".to_string(), "real".to_string());
    Config {
        base_url: "https://x".into(),
        token: "t".into(),
        timezone: "Europe/Moscow".into(),
        default_project: default_project.map(String::from),
        holidays: DateSet::new(),
        pre_holidays: DateSet::new(),
        user_aliases: aliases,
        download_dir: None,
    }
}

#[test]
fn expands_bare_numeric_only_with_default_project() {
    assert_eq!(cfg(Some("PROJ")).expand_issue_id("123"), "PROJ-123");
    assert_eq!(cfg(Some("PROJ")).expand_issue_id("OTHER-9"), "OTHER-9");
    assert_eq!(cfg(None).expand_issue_id("123"), "123");
}

#[test]
fn resolves_alias() {
    let c = cfg(None);
    assert_eq!(c.resolve_alias("me"), "real");
    assert_eq!(c.resolve_alias("someone"), "someone");
}

#[test]
fn parses_csv_dates() {
    let s = parse_dates("2026-01-01, 2026-05-09 ,bad");
    assert_eq!(s.len(), 2);
    assert!(s.contains(NaiveDate::from_ymd_opt(2026, 5, 9).unwrap().num_days_from_ce()));
}

#[test]
fn id_detection() {
    assert!(is_id("2-42310"));
    assert!(is_id("0-92"));
    assert!(!is_id("Culture-510"));
    assert!(!is_id("123"));
    assert!(!is_id("a-b"));
}

#[test]
fn b64_roundtrip() {
    let data = b"hello attach";
    let enc = YouTrack::b64_encode(data);
    assert_eq!(YouTrack::b64_decode(&enc).unwrap(), data);
}
