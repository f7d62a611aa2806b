use story_launcher::config::{load_config, ToolsConfig};

fn pair(id: &str, version: &str) -> (String, String) {
    (id.to_string(), version.to_string())
}

fn sorted(mut v: Vec<String>) -> Vec<String> {
    v.sort();
    v
}

#[test]
fn new_record_holds_nothing() {
    let c = ToolsConfig::new();
    assert!(!c.contains_key("resolve-sync"));
    assert_eq!(c.get("resolve-sync"), None);
    assert!(c.keys().is_empty());
    assert!(c.entries().is_empty());
}

#[test]
fn inserted_version_is_found_again() {
    let mut c = ToolsConfig::new();
    c.insert("x".to_string(), "2.3.0".to_string());
    assert!(c.contains_key("x"));
    assert_eq!(c.get("x"), Some("2.3.0".to_string()));
    assert!(!c.contains_key("y"));
    assert_eq!(c.get("y"), None);
}

#[test]
fn insert_replaces_the_version_of_the_same_tool() {
    let mut c = ToolsConfig::new();
    c.insert("x".to_string(), "2.3.0".to_string());
    c.insert("y".to_string(), "0.1".to_string());
    c.insert("x".to_string(), "2.4.0".to_string());
    assert_eq!(c.get("x"), Some("2.4.0".to_string()));
    assert_eq!(c.get("y"), Some("0.1".to_string()));
    assert_eq!(sorted(c.keys()), vec!["x".to_string(), "y".to_string()]);
    assert_eq!(c.entries().len(), 2);
}

#[test]
fn insert_of_the_same_version_changes_nothing() {
    let mut once = ToolsConfig::new();
    once.insert("x".to_string(), "2.3.0".to_string());
    let mut twice = once.clone();
    twice.insert("x".to_string(), "2.3.0".to_string());
    assert_eq!(once, twice);
    assert_eq!(twice.entries(), vec![pair("x", "2.3.0")]);
}

#[test]
fn keys_are_told_apart_exactly() {
    let mut c = ToolsConfig::new();
    c.insert("tool".to_string(), "1".to_string());
    assert!(!c.contains_key("Tool"));
    assert!(!c.contains_key("tool "));
    assert!(!c.contains_key("too"));
    assert!(!c.contains_key(""));
}

#[test]
fn empty_identifier_is_a_key_like_any_other() {
    let mut c = ToolsConfig::new();
    c.insert(String::new(), "1".to_string());
    assert_eq!(c.get(""), Some("1".to_string()));
    assert_eq!(c.keys(), vec![String::new()]);
}

#[test]
fn record_from_pairs_keeps_the_later_of_two_versions() {
    let c = ToolsConfig::from_entries(vec![
        pair("x", "1"),
        pair("y", "2"),
        pair("x", "3"),
    ]);
    assert_eq!(c.get("x"), Some("3".to_string()));
    assert_eq!(c.get("y"), Some("2".to_string()));
    assert_eq!(c.keys().len(), 2);
}

#[test]
fn record_from_no_pairs_is_empty() {
    assert_eq!(ToolsConfig::from_entries(Vec::new()), ToolsConfig::new());
}

#[test]
fn entries_give_the_record_back() {
    let c = ToolsConfig::from_entries(vec![pair("a", "1"), pair("b", "2"), pair("c", "3")]);
    let again = ToolsConfig::from_entries(c.entries());
    assert_eq!(c, again);
}

#[test]
fn records_are_equal_whatever_the_order_of_recording() {
    let ab = ToolsConfig::from_entries(vec![pair("a", "1"), pair("b", "2")]);
    let ba = ToolsConfig::from_entries(vec![pair("b", "2"), pair("a", "1")]);
    assert_eq!(ab, ba);
}

#[test]
fn records_differ_by_a_version_or_a_line() {
    let a1 = ToolsConfig::from_entries(vec![pair("a", "1")]);
    let a2 = ToolsConfig::from_entries(vec![pair("a", "2")]);
    let a1b = ToolsConfig::from_entries(vec![pair("a", "1"), pair("b", "1")]);
    assert_ne!(a1, a2);
    assert_ne!(a1, a1b);
    assert_ne!(a1b, a1);
    assert_ne!(a1, ToolsConfig::new());
}

#[test]
fn copy_of_a_record_is_equal_to_it() {
    let c = ToolsConfig::from_entries(vec![pair("a", "1"), pair("b", "2")]);
    assert_eq!(c.clone(), c);
}

#[test]
fn missing_record_loads_as_empty() {
    assert_eq!(load_config(None), ToolsConfig::new());
}

#[test]
fn stored_record_loads_with_its_lines() {
    let c = load_config(Some(vec![pair("resolve-sync", "2.3.0")]));
    assert_eq!(c.get("resolve-sync"), Some("2.3.0".to_string()));
    assert_eq!(c.keys(), vec!["resolve-sync".to_string()]);
}

#[test]
fn stored_record_without_lines_loads_as_empty() {
    assert_eq!(load_config(Some(Vec::new())), ToolsConfig::new());
}
