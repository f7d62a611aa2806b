use std::path::PathBuf;
use story_launcher::paths::{
    get_app_path, get_apps_dir, get_config_path, get_tools_dir, tools_dir_under, ToolPath,
    APPS_DIR_NAME, CONFIG_FILE_NAME, TOOLS_DIR_NAME,
};

fn names(p: &ToolPath) -> Vec<&str> {
    p.parts.iter().map(|s| s.as_str()).collect()
}

/// The path that `p` stands for.
fn on_disk(p: &ToolPath) -> PathBuf {
    let mut path = p.home.clone().unwrap_or_default();
    for part in &p.parts {
        path = path.join(part);
    }
    path
}

#[test]
fn names_of_the_layout() {
    assert_eq!(TOOLS_DIR_NAME, ".story-tools");
    assert_eq!(APPS_DIR_NAME, "apps");
    assert_eq!(CONFIG_FILE_NAME, "config.json");
}

#[test]
fn tools_directory_lies_below_the_home_directory() {
    let p = get_tools_dir();
    assert_eq!(names(&p), vec![".story-tools"]);
    assert_eq!(p.home, dirs::home_dir());
}

#[test]
fn bundles_lie_in_a_directory_of_their_own() {
    let p = get_apps_dir();
    assert_eq!(names(&p), vec![".story-tools", "apps"]);
    assert_eq!(p.home, dirs::home_dir());
}

#[test]
fn record_lies_beside_the_bundles() {
    let p = get_config_path();
    assert_eq!(names(&p), vec![".story-tools", "config.json"]);
    assert_eq!(p.home, dirs::home_dir());
}

#[test]
fn bundle_lies_under_its_name() {
    let p = get_app_path("Spellbook Resolve Sync.app");
    assert_eq!(
        names(&p),
        vec![".story-tools", "apps", "Spellbook Resolve Sync.app"]
    );
    assert_eq!(names(&get_app_path("")), vec![".story-tools", "apps", ""]);
}

#[test]
fn given_home_directory_is_kept() {
    let home = PathBuf::from("/Users/alice");
    let p = tools_dir_under(Some(home.clone()));
    assert_eq!(
        p,
        ToolPath {
            home: Some(home),
            parts: vec![".story-tools".to_string()]
        }
    );
    assert_eq!(on_disk(&p), PathBuf::from("/Users/alice/.story-tools"));
}

#[test]
fn unknown_home_directory_gives_a_relative_place() {
    let p = tools_dir_under(None);
    assert_eq!(p.home, None);
    assert_eq!(on_disk(&p), PathBuf::from(".story-tools"));
}

#[test]
fn join_descends_by_one_name() {
    let p = tools_dir_under(Some(PathBuf::from("/h"))).join("apps").join("Tool.app");
    assert_eq!(names(&p), vec![".story-tools", "apps", "Tool.app"]);
    assert_eq!(on_disk(&p), PathBuf::from("/h/.story-tools/apps/Tool.app"));
}
