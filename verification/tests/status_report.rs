use story_launcher::config::ToolsConfig;
use story_launcher::failure::{Failure, NetworkStage};
use story_launcher::release::{GitHubAsset, GitHubRelease};
use story_launcher::status::{
    check_tool_status, get_installed_tools, get_installed_version, is_tool_installed,
    launch_outcome, plan_launch, plan_status_check, ActionResult, InstalledBundles, ToolStatus,
};
use story_launcher::tools::Tool;

const ID: &str = "resolve-sync";

fn release(tag: &str) -> GitHubRelease {
    GitHubRelease {
        tag_name: tag.to_string(),
        assets: vec![GitHubAsset {
            name: format!("tool-{}.app.tar.gz", tag),
            browser_download_url: format!("https://example.test/{}", tag),
        }],
    }
}

fn record(lines: &[(&str, &str)]) -> ToolsConfig {
    let mut c = ToolsConfig::new();
    for (id, version) in lines {
        c.insert(id.to_string(), version.to_string());
    }
    c
}

fn bundle_present() -> InstalledBundles {
    let mut b = InstalledBundles::new();
    b.add(Tool::ResolveSync);
    b
}

fn no_bundle() -> InstalledBundles {
    InstalledBundles::new()
}

#[test]
fn absent_tool_is_not_installed_and_has_no_update() {
    let status = check_tool_status(ID, &ToolsConfig::new(), &no_bundle(), Ok(release("v9.9.9")));
    assert_eq!(
        status,
        ToolStatus {
            installed: false,
            installed_version: None,
            latest_version: Some("9.9.9".to_string()),
            has_update: false,
            error: None,
        }
    );
}

#[test]
fn absent_tool_has_no_update_when_the_registry_fails() {
    let status = check_tool_status(ID, &ToolsConfig::new(), &no_bundle(), Err(Failure::RateLimited));
    assert!(!status.installed);
    assert!(!status.has_update);
    assert_eq!(
        status.error,
        Some("GitHub API rate limit exceeded. Please try again later.".to_string())
    );
}

#[test]
fn installed_tool_at_the_latest_version_has_no_update() {
    let status = check_tool_status(
        ID,
        &record(&[(ID, "2.3.0")]),
        &bundle_present(),
        Ok(release("v2.3.0")),
    );
    assert_eq!(
        status,
        ToolStatus {
            installed: true,
            installed_version: Some("2.3.0".to_string()),
            latest_version: Some("2.3.0".to_string()),
            has_update: false,
            error: None,
        }
    );
}

#[test]
fn installed_tool_behind_the_latest_version_has_an_update() {
    let status = check_tool_status(
        ID,
        &record(&[(ID, "2.3.0")]),
        &bundle_present(),
        Ok(release("v2.4.0")),
    );
    assert_eq!(
        status,
        ToolStatus {
            installed: true,
            installed_version: Some("2.3.0".to_string()),
            latest_version: Some("2.4.0".to_string()),
            has_update: true,
            error: None,
        }
    );
}

#[test]
fn any_difference_of_versions_counts_as_an_update() {
    let status = check_tool_status(
        ID,
        &record(&[(ID, "3.0.0")]),
        &bundle_present(),
        Ok(release("v2.4.0")),
    );
    assert!(status.has_update);
}

#[test]
fn recorded_tool_without_its_bundle_is_not_installed() {
    let status = check_tool_status(
        ID,
        &record(&[(ID, "2.3.0")]),
        &no_bundle(),
        Ok(release("v2.4.0")),
    );
    assert_eq!(
        status,
        ToolStatus {
            installed: false,
            installed_version: Some("2.3.0".to_string()),
            latest_version: Some("2.4.0".to_string()),
            has_update: false,
            error: None,
        }
    );
}

#[test]
fn bundle_without_a_recorded_version_is_not_installed() {
    let status = check_tool_status(ID, &ToolsConfig::new(), &bundle_present(), Ok(release("v1")));
    assert!(!status.installed);
    assert!(!status.has_update);
    assert_eq!(status.installed_version, None);
}

#[test]
fn registry_failure_is_reported_with_what_is_known_locally() {
    let failure = Failure::NetworkError {
        stage: NetworkStage::ReleaseRequest,
        cause: "connection refused".to_string(),
    };
    let status = check_tool_status(ID, &record(&[(ID, "2.3.0")]), &bundle_present(), Err(failure));
    assert_eq!(
        status,
        ToolStatus {
            installed: true,
            installed_version: Some("2.3.0".to_string()),
            latest_version: None,
            has_update: false,
            error: Some("Failed to fetch release info: connection refused".to_string()),
        }
    );
}

#[test]
fn unknown_tool_is_reported_as_such() {
    let status = check_tool_status(
        "no-such-tool",
        &record(&[("no-such-tool", "1.0")]),
        &bundle_present(),
        Ok(release("v2")),
    );
    assert_eq!(
        status,
        ToolStatus {
            installed: false,
            installed_version: None,
            latest_version: None,
            has_update: false,
            error: Some("Unknown tool".to_string()),
        }
    );
}

#[test]
fn tag_without_v_is_compared_as_it_stands() {
    let status = check_tool_status(
        ID,
        &record(&[(ID, "2.3.0")]),
        &bundle_present(),
        Ok(release("2.3.0")),
    );
    assert!(!status.has_update);
    assert_eq!(status.latest_version, Some("2.3.0".to_string()));
}

#[test]
fn installed_needs_record_and_bundle() {
    let with = record(&[(ID, "1")]);
    let without = ToolsConfig::new();
    assert!(is_tool_installed(&with, &bundle_present(), ID));
    assert!(!is_tool_installed(&with, &no_bundle(), ID));
    assert!(!is_tool_installed(&without, &bundle_present(), ID));
    assert!(!is_tool_installed(&without, &no_bundle(), ID));
}

#[test]
fn unknown_identifier_is_never_installed() {
    let c = record(&[("other", "1")]);
    assert!(!is_tool_installed(&c, &bundle_present(), "other"));
}

#[test]
fn installed_version_is_read_from_the_record() {
    let c = record(&[(ID, "2.3.0"), ("other", "7")]);
    assert_eq!(get_installed_version(&c, ID), Some("2.3.0".to_string()));
    assert_eq!(get_installed_version(&c, "other"), Some("7".to_string()));
    assert_eq!(get_installed_version(&c, "missing"), None);
}

#[test]
fn installed_tools_are_those_recorded_with_a_bundle() {
    let c = record(&[("other", "7"), (ID, "2.3.0"), ("third", "1")]);
    assert_eq!(get_installed_tools(&c, &bundle_present()), vec![ID.to_string()]);
    assert!(get_installed_tools(&c, &no_bundle()).is_empty());
    assert!(get_installed_tools(&ToolsConfig::new(), &bundle_present()).is_empty());
}

#[test]
fn bundle_noted_twice_is_present_once() {
    let mut b = InstalledBundles::new();
    assert!(!b.contains(Tool::ResolveSync));
    b.add(Tool::ResolveSync);
    b.add(Tool::ResolveSync);
    assert!(b.contains(Tool::ResolveSync));
    assert_eq!(
        get_installed_tools(&record(&[(ID, "1")]), &b),
        vec![ID.to_string()]
    );
}

#[test]
fn launch_of_an_unknown_tool_is_refused() {
    assert_eq!(plan_launch("nope", &bundle_present()), Err(Failure::UnknownTool));
}

#[test]
fn launch_without_a_bundle_is_refused() {
    assert_eq!(plan_launch(ID, &no_bundle()), Err(Failure::NotInstalled));
}

#[test]
fn launch_with_a_bundle_names_the_tool() {
    assert_eq!(plan_launch(ID, &bundle_present()), Ok(Tool::ResolveSync));
}

#[test]
fn started_bundle_is_reported_as_launched() {
    assert_eq!(
        launch_outcome(Ok(())),
        ActionResult {
            success: true,
            message: "Launched app".to_string()
        }
    );
}

#[test]
fn bundle_that_did_not_start_is_reported_with_the_cause() {
    assert_eq!(
        launch_outcome(Err("No such file or directory".to_string())),
        ActionResult {
            success: false,
            message: "Failed to launch: No such file or directory".to_string()
        }
    );
}

#[test]
fn status_of_a_supported_tool_needs_the_registry() {
    assert_eq!(plan_status_check(ID), Ok(Tool::ResolveSync));
}

#[test]
fn status_of_an_unknown_tool_is_told_at_once() {
    let told = plan_status_check("no-such-tool").expect_err("nothing to ask");
    assert_eq!(
        told,
        ToolStatus {
            installed: false,
            installed_version: None,
            latest_version: None,
            has_update: false,
            error: Some("Unknown tool".to_string()),
        }
    );
    let asked_anyway = check_tool_status(
        "no-such-tool",
        &record(&[(ID, "1")]),
        &bundle_present(),
        Ok(release("v2")),
    );
    assert_eq!(told, asked_anyway);
}
