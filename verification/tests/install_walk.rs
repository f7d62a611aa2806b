use story_launcher::archive::ArchiveFormat;
use story_launcher::config::ToolsConfig;
use story_launcher::failure::{ExtractStage, Failure, IoStage, NetworkStage};
use story_launcher::install::{
    install_action, install_start, install_step, update_start, InstallAction, InstallEvent,
    InstallState,
};
use story_launcher::release::{GitHubAsset, GitHubRelease};
use story_launcher::status::{check_tool_status, ActionResult, InstalledBundles};
use story_launcher::tools::Tool;

const ID: &str = "resolve-sync";
const REPO: &str = "joyrider00/spellbook-resolve-sync";
const APP: &str = "Spellbook Resolve Sync.app";

fn asset(name: &str) -> GitHubAsset {
    GitHubAsset {
        name: name.to_string(),
        browser_download_url: format!("https://example.test/{}", name),
    }
}

fn release(tag: &str, names: &[&str]) -> GitHubRelease {
    GitHubRelease {
        tag_name: tag.to_string(),
        assets: names.iter().map(|n| asset(n)).collect(),
    }
}

fn record(lines: &[(&str, &str)]) -> ToolsConfig {
    let mut c = ToolsConfig::new();
    for (id, version) in lines {
        c.insert(id.to_string(), version.to_string());
    }
    c
}

fn failure_result(message: &str) -> InstallAction {
    InstallAction::Finish {
        result: ActionResult {
            success: false,
            message: message.to_string(),
        },
    }
}

/// Hands `events` to an install of the Resolve sync tool, one after the other,
/// and returns the actions asked for, the first one included.
fn walk(events: Vec<InstallEvent>) -> Vec<InstallAction> {
    let (mut state, first) = install_start(ID);
    let mut actions = vec![first];
    for event in events {
        let (next, action) = install_step(state, event);
        state = next;
        actions.push(action);
    }
    actions
}

fn up_to_download(tag: &str, names: &[&str]) -> Vec<InstallEvent> {
    vec![
        InstallEvent::DirsPrepared(Ok(())),
        InstallEvent::ReleaseFetched(Ok(release(tag, names))),
        InstallEvent::Downloaded(Ok(())),
    ]
}

#[test]
fn install_of_a_release_with_a_tar_gz_asset_records_its_version() {
    let mut events = up_to_download("v2.3.0", &["tool-v2.3.0.app.tar.gz"]);
    events.extend(vec![
        InstallEvent::BundleProbed(false),
        InstallEvent::Extracted(Ok(())),
        InstallEvent::TempRemoved { removed: true },
        InstallEvent::QuarantineCleared { cleared: true },
        InstallEvent::ConfigLoaded(ToolsConfig::new()),
        InstallEvent::ConfigSaved(Ok(())),
    ]);
    let actions = walk(events);
    assert_eq!(
        actions,
        vec![
            InstallAction::PrepareDirs,
            InstallAction::FetchRelease {
                repo: REPO.to_string()
            },
            InstallAction::Download {
                url: "https://example.test/tool-v2.3.0.app.tar.gz".to_string(),
                file_name: "tool-v2.3.0.app.tar.gz".to_string(),
            },
            InstallAction::ProbeBundle {
                app_name: APP.to_string()
            },
            InstallAction::Extract {
                format: ArchiveFormat::TarGz,
                file_name: "tool-v2.3.0.app.tar.gz".to_string(),
                app_name: APP.to_string(),
            },
            InstallAction::RemoveTemp {
                file_name: "tool-v2.3.0.app.tar.gz".to_string()
            },
            InstallAction::ClearQuarantine {
                app_name: APP.to_string()
            },
            InstallAction::LoadConfig,
            InstallAction::SaveConfig {
                config: record(&[(ID, "2.3.0")])
            },
            InstallAction::Finish {
                result: ActionResult {
                    success: true,
                    message: "Installed version 2.3.0".to_string(),
                },
            },
        ]
    );
}

#[test]
fn status_after_an_install_shows_the_version_and_no_update() {
    let saved = record(&[(ID, "2.3.0")]);
    let mut bundles = InstalledBundles::new();
    bundles.add(Tool::ResolveSync);
    let status = check_tool_status(
        ID,
        &saved,
        &bundles,
        Ok(release("v2.3.0", &["tool-v2.3.0.app.tar.gz"])),
    );
    assert!(status.installed);
    assert_eq!(status.installed_version, Some("2.3.0".to_string()));
    assert!(!status.has_update);
}

#[test]
fn release_without_a_compatible_asset_fails_before_any_download() {
    let actions = walk(vec![
        InstallEvent::DirsPrepared(Ok(())),
        InstallEvent::ReleaseFetched(Ok(release("v2.4.0", &["tool.exe", "notes.txt"]))),
    ]);
    assert_eq!(
        actions,
        vec![
            InstallAction::PrepareDirs,
            InstallAction::FetchRelease {
                repo: REPO.to_string()
            },
            failure_result("No compatible download found in release"),
        ]
    );
}

#[test]
fn failed_install_never_asks_to_write_the_record() {
    let actions = walk(vec![
        InstallEvent::DirsPrepared(Ok(())),
        InstallEvent::ReleaseFetched(Ok(release("v2.4.0", &[]))),
        InstallEvent::Downloaded(Ok(())),
        InstallEvent::BundleProbed(false),
        InstallEvent::Extracted(Ok(())),
        InstallEvent::TempRemoved { removed: true },
        InstallEvent::QuarantineCleared { cleared: true },
        InstallEvent::ConfigLoaded(record(&[(ID, "2.3.0")])),
        InstallEvent::ConfigSaved(Ok(())),
    ]);
    for action in &actions[2..] {
        assert_eq!(action, &failure_result("No compatible download found in release"));
    }
    assert!(!actions
        .iter()
        .any(|a| matches!(a, InstallAction::SaveConfig { .. } | InstallAction::Download { .. })));
}

#[test]
fn record_on_disk_stays_when_the_next_release_has_no_asset() {
    let mut on_disk = record(&[(ID, "2.3.0")]);
    let (mut state, mut action) = install_start(ID);
    let result = loop {
        let event = match action {
            InstallAction::PrepareDirs => InstallEvent::DirsPrepared(Ok(())),
            InstallAction::FetchRelease { .. } => {
                InstallEvent::ReleaseFetched(Ok(release("v2.4.0", &["tool.msi", "README.md"])))
            }
            InstallAction::Download { .. } => InstallEvent::Downloaded(Ok(())),
            InstallAction::ProbeBundle { .. } => InstallEvent::BundleProbed(true),
            InstallAction::RemoveOld { .. } => InstallEvent::OldRemoved(Ok(())),
            InstallAction::Extract { .. } => InstallEvent::Extracted(Ok(())),
            InstallAction::RemoveTemp { .. } => InstallEvent::TempRemoved { removed: true },
            InstallAction::ClearQuarantine { .. } => {
                InstallEvent::QuarantineCleared { cleared: true }
            }
            InstallAction::LoadConfig => InstallEvent::ConfigLoaded(on_disk.clone()),
            InstallAction::SaveConfig { config } => {
                on_disk = config;
                InstallEvent::ConfigSaved(Ok(()))
            }
            InstallAction::Finish { result } => break result,
        };
        (state, action) = install_step(state, event);
    };
    assert_eq!(
        result,
        ActionResult {
            success: false,
            message: "No compatible download found in release".to_string()
        }
    );
    assert_eq!(on_disk, record(&[(ID, "2.3.0")]));
}

#[test]
fn record_on_disk_holds_the_new_version_after_an_update() {
    let mut on_disk = record(&[(ID, "2.3.0"), ("other", "1")]);
    let (mut state, mut action) = install_start(ID);
    let result = loop {
        let event = match action {
            InstallAction::PrepareDirs => InstallEvent::DirsPrepared(Ok(())),
            InstallAction::FetchRelease { .. } => {
                InstallEvent::ReleaseFetched(Ok(release("v2.4.0", &["tool.app.tar.gz"])))
            }
            InstallAction::Download { .. } => InstallEvent::Downloaded(Ok(())),
            InstallAction::ProbeBundle { .. } => InstallEvent::BundleProbed(true),
            InstallAction::RemoveOld { .. } => InstallEvent::OldRemoved(Ok(())),
            InstallAction::Extract { .. } => InstallEvent::Extracted(Ok(())),
            InstallAction::RemoveTemp { .. } => InstallEvent::TempRemoved { removed: true },
            InstallAction::ClearQuarantine { .. } => {
                InstallEvent::QuarantineCleared { cleared: true }
            }
            InstallAction::LoadConfig => InstallEvent::ConfigLoaded(on_disk.clone()),
            InstallAction::SaveConfig { config } => {
                on_disk = config;
                InstallEvent::ConfigSaved(Ok(()))
            }
            InstallAction::Finish { result } => break result,
        };
        (state, action) = install_step(state, event);
    };
    assert_eq!(
        result,
        ActionResult {
            success: true,
            message: "Installed version 2.4.0".to_string()
        }
    );
    assert_eq!(on_disk, record(&[(ID, "2.4.0"), ("other", "1")]));
}

#[test]
fn update_over_an_installed_version_removes_the_old_bundle_first() {
    let mut events = up_to_download("v2.4.0", &["tool.dmg", "tool.app.zip"]);
    events.extend(vec![
        InstallEvent::BundleProbed(true),
        InstallEvent::OldRemoved(Ok(())),
        InstallEvent::Extracted(Ok(())),
        InstallEvent::TempRemoved { removed: true },
        InstallEvent::QuarantineCleared { cleared: true },
        InstallEvent::ConfigLoaded(record(&[(ID, "2.3.0"), ("other", "1")])),
        InstallEvent::ConfigSaved(Ok(())),
    ]);
    let actions = walk(events);
    assert_eq!(
        actions[3..],
        [
            InstallAction::ProbeBundle {
                app_name: APP.to_string()
            },
            InstallAction::RemoveOld {
                app_name: APP.to_string()
            },
            InstallAction::Extract {
                format: ArchiveFormat::Zip,
                file_name: "tool.app.zip".to_string(),
                app_name: APP.to_string(),
            },
            InstallAction::RemoveTemp {
                file_name: "tool.app.zip".to_string()
            },
            InstallAction::ClearQuarantine {
                app_name: APP.to_string()
            },
            InstallAction::LoadConfig,
            InstallAction::SaveConfig {
                config: record(&[(ID, "2.4.0"), ("other", "1")])
            },
            InstallAction::Finish {
                result: ActionResult {
                    success: true,
                    message: "Installed version 2.4.0".to_string(),
                },
            },
        ]
    );
}

#[test]
fn updating_twice_against_the_same_release_gives_the_same_version() {
    let run = |loaded: ToolsConfig, had_bundle: bool| {
        let mut events = up_to_download("v2.3.0", &["tool.app.tar.gz"]);
        events.push(InstallEvent::BundleProbed(had_bundle));
        if had_bundle {
            events.push(InstallEvent::OldRemoved(Ok(())));
        }
        events.extend(vec![
            InstallEvent::Extracted(Ok(())),
            InstallEvent::TempRemoved { removed: true },
            InstallEvent::QuarantineCleared { cleared: true },
            InstallEvent::ConfigLoaded(loaded),
            InstallEvent::ConfigSaved(Ok(())),
        ]);
        let (mut state, _) = update_start(ID);
        let mut saved = None;
        let mut last = None;
        for event in events {
            let (next, action) = install_step(state, event);
            state = next;
            if let InstallAction::SaveConfig { config } = &action {
                saved = Some(config.clone());
            }
            last = Some(action);
        }
        (saved.expect("the record is written"), last.expect("an action"))
    };
    let (first_saved, first_end) = run(ToolsConfig::new(), false);
    let (second_saved, second_end) = run(first_saved.clone(), true);
    assert_eq!(first_saved, second_saved);
    assert_eq!(first_end, second_end);
    assert_eq!(
        second_end,
        InstallAction::Finish {
            result: ActionResult {
                success: true,
                message: "Installed version 2.3.0".to_string()
            }
        }
    );
}

#[test]
fn record_that_cannot_be_written_fails_the_install() {
    let mut events = up_to_download("v2.3.0", &["tool.dmg"]);
    events.extend(vec![
        InstallEvent::BundleProbed(false),
        InstallEvent::Extracted(Ok(())),
        InstallEvent::TempRemoved { removed: true },
        InstallEvent::QuarantineCleared { cleared: true },
        InstallEvent::ConfigLoaded(ToolsConfig::new()),
        InstallEvent::ConfigSaved(Err("read-only file system".to_string())),
    ]);
    let actions = walk(events);
    assert_eq!(
        actions.last(),
        Some(&failure_result("Failed to save config: read-only file system"))
    );
}

#[test]
fn unknown_tool_fails_at_once() {
    let (state, action) = install_start("no-such-tool");
    assert_eq!(
        state,
        InstallState::Failed {
            reason: Failure::UnknownTool
        }
    );
    assert_eq!(action, failure_result("Unknown tool"));
}

#[test]
fn update_begins_as_an_install_does() {
    assert_eq!(update_start(ID), install_start(ID));
    assert_eq!(update_start("nope"), install_start("nope"));
    assert_eq!(
        install_start(ID),
        (
            InstallState::Preparing {
                tool: Tool::ResolveSync
            },
            InstallAction::PrepareDirs
        )
    );
}

#[test]
fn directory_that_cannot_be_created_fails_the_install() {
    let actions = walk(vec![InstallEvent::DirsPrepared(Err("permission denied".to_string()))]);
    assert_eq!(
        actions[1],
        failure_result("Failed to create directories: permission denied")
    );
}

#[test]
fn registry_failure_fails_the_install_with_its_message() {
    let actions = walk(vec![
        InstallEvent::DirsPrepared(Ok(())),
        InstallEvent::ReleaseFetched(Err(Failure::NoReleases)),
    ]);
    assert_eq!(actions[2], failure_result("No releases found for this repository."));
}

#[test]
fn failed_download_removes_the_temporary_file_and_leaves_the_bundle_alone() {
    let actions = walk(vec![
        InstallEvent::DirsPrepared(Ok(())),
        InstallEvent::ReleaseFetched(Ok(release("v1", &["a.dmg"]))),
        InstallEvent::Downloaded(Err(Failure::NetworkError {
            stage: NetworkStage::DownloadRequest,
            cause: "timed out".to_string(),
        })),
        InstallEvent::TempRemoved { removed: true },
        InstallEvent::BundleProbed(true),
        InstallEvent::Extracted(Ok(())),
        InstallEvent::ConfigSaved(Ok(())),
    ]);
    assert_eq!(
        actions[3],
        InstallAction::RemoveTemp {
            file_name: "a.dmg".to_string()
        }
    );
    for action in &actions[4..] {
        assert_eq!(action, &failure_result("Failed to download: timed out"));
    }
    assert!(!actions.iter().any(|a| matches!(
        a,
        InstallAction::ProbeBundle { .. }
            | InstallAction::RemoveOld { .. }
            | InstallAction::Extract { .. }
            | InstallAction::SaveConfig { .. }
    )));
}

#[test]
fn failed_download_is_reported_though_the_temporary_file_stays() {
    let failure = Failure::HttpError {
        code: 404,
        status: "404 Not Found".to_string(),
    };
    let actions = walk(vec![
        InstallEvent::DirsPrepared(Ok(())),
        InstallEvent::ReleaseFetched(Ok(release("v1", &["a.app.zip"]))),
        InstallEvent::Downloaded(Err(failure.clone())),
        InstallEvent::TempRemoved { removed: false },
    ]);
    assert_eq!(
        actions[3],
        InstallAction::RemoveTemp {
            file_name: "a.app.zip".to_string()
        }
    );
    assert_eq!(actions[4], failure_result("Download failed: 404 Not Found"));
    let state = InstallState::Downloading {
        tool: Tool::ResolveSync,
        version: "1".to_string(),
        asset: asset("a.app.zip"),
    };
    let (state, _) = install_step(state, InstallEvent::Downloaded(Err(failure.clone())));
    assert_eq!(
        state,
        InstallState::CleaningUp {
            tool: Tool::ResolveSync,
            version: "1".to_string(),
            asset_name: "a.app.zip".to_string(),
            failure: Some(failure),
        }
    );
}

#[test]
fn failed_download_leaves_the_record_on_disk_as_it_was() {
    let mut on_disk = record(&[(ID, "2.3.0")]);
    let mut removed_temp = Vec::new();
    let (mut state, mut action) = install_start(ID);
    let result = loop {
        let event = match action {
            InstallAction::PrepareDirs => InstallEvent::DirsPrepared(Ok(())),
            InstallAction::FetchRelease { .. } => {
                InstallEvent::ReleaseFetched(Ok(release("v2.4.0", &["tool.app.tar.gz"])))
            }
            InstallAction::Download { .. } => InstallEvent::Downloaded(Err(Failure::IoError {
                stage: IoStage::WriteFile,
                cause: "disk full".to_string(),
            })),
            InstallAction::ProbeBundle { .. } => InstallEvent::BundleProbed(true),
            InstallAction::RemoveOld { .. } => InstallEvent::OldRemoved(Ok(())),
            InstallAction::Extract { .. } => InstallEvent::Extracted(Ok(())),
            InstallAction::RemoveTemp { file_name } => {
                removed_temp.push(file_name);
                InstallEvent::TempRemoved { removed: true }
            }
            InstallAction::ClearQuarantine { .. } => {
                InstallEvent::QuarantineCleared { cleared: true }
            }
            InstallAction::LoadConfig => InstallEvent::ConfigLoaded(on_disk.clone()),
            InstallAction::SaveConfig { config } => {
                on_disk = config;
                InstallEvent::ConfigSaved(Ok(()))
            }
            InstallAction::Finish { result } => break result,
        };
        (state, action) = install_step(state, event);
    };
    assert_eq!(
        result,
        ActionResult {
            success: false,
            message: "Failed to write file: disk full".to_string()
        }
    );
    assert_eq!(removed_temp, vec!["tool.app.tar.gz".to_string()]);
    assert_eq!(on_disk, record(&[(ID, "2.3.0")]));
}

#[test]
fn old_bundle_that_cannot_be_removed_stops_the_install_before_unpacking() {
    let mut events = up_to_download("v1", &["a.dmg"]);
    events.extend(vec![
        InstallEvent::BundleProbed(true),
        InstallEvent::OldRemoved(Err("busy".to_string())),
    ]);
    let actions = walk(events);
    assert_eq!(
        actions[5],
        failure_result("Failed to remove existing app: busy")
    );
    assert!(!actions
        .iter()
        .any(|a| matches!(a, InstallAction::Extract { .. })));
}

#[test]
fn failed_unpacking_still_removes_the_temporary_file() {
    let failure = Failure::ExtractError {
        format: ArchiveFormat::Dmg,
        stage: ExtractStage::MountImage,
        cause: None,
    };
    let mut events = up_to_download("v1", &["a.dmg"]);
    events.extend(vec![
        InstallEvent::BundleProbed(false),
        InstallEvent::Extracted(Err(failure)),
        InstallEvent::TempRemoved { removed: false },
    ]);
    let actions = walk(events);
    assert_eq!(
        actions[4],
        InstallAction::Extract {
            format: ArchiveFormat::Dmg,
            file_name: "a.dmg".to_string(),
            app_name: APP.to_string(),
        }
    );
    assert_eq!(
        actions[5],
        InstallAction::RemoveTemp {
            file_name: "a.dmg".to_string()
        }
    );
    assert_eq!(actions[6], failure_result("Failed to mount DMG"));
}

#[test]
fn cleanup_that_fails_does_not_fail_the_install() {
    let mut events = up_to_download("v7", &["a.app.tar.gz"]);
    events.extend(vec![
        InstallEvent::BundleProbed(false),
        InstallEvent::Extracted(Ok(())),
        InstallEvent::TempRemoved { removed: false },
        InstallEvent::QuarantineCleared { cleared: false },
        InstallEvent::ConfigLoaded(ToolsConfig::new()),
        InstallEvent::ConfigSaved(Ok(())),
    ]);
    let actions = walk(events);
    assert_eq!(
        actions.last(),
        Some(&InstallAction::Finish {
            result: ActionResult {
                success: true,
                message: "Installed version 7".to_string()
            }
        })
    );
}

#[test]
fn asset_of_unknown_format_is_removed_and_reported() {
    let state = InstallState::Probing {
        tool: Tool::ResolveSync,
        version: "1".to_string(),
        asset_name: "tool.bin".to_string(),
    };
    let (state, action) = install_step(state, InstallEvent::BundleProbed(false));
    assert_eq!(
        action,
        InstallAction::RemoveTemp {
            file_name: "tool.bin".to_string()
        }
    );
    let (state, action) = install_step(state, InstallEvent::TempRemoved { removed: true });
    assert_eq!(
        state,
        InstallState::Failed {
            reason: Failure::UnsupportedArchive
        }
    );
    assert_eq!(action, failure_result("Unsupported archive format"));
}

#[test]
fn event_that_answers_another_action_changes_nothing() {
    let (state, action) = install_start(ID);
    let (state, again) = install_step(state, InstallEvent::ConfigSaved(Ok(())));
    assert_eq!(again, action);
    let (state, again) = install_step(state, InstallEvent::BundleProbed(true));
    assert_eq!(again, action);
    assert_eq!(
        state,
        InstallState::Preparing {
            tool: Tool::ResolveSync
        }
    );
}

#[test]
fn ended_install_stays_ended() {
    let done = InstallState::Done {
        version: "2".to_string(),
    };
    let (state, action) = install_step(done, InstallEvent::DirsPrepared(Ok(())));
    assert_eq!(
        state,
        InstallState::Done {
            version: "2".to_string()
        }
    );
    assert_eq!(
        action,
        InstallAction::Finish {
            result: ActionResult {
                success: true,
                message: "Installed version 2".to_string()
            }
        }
    );
    let failed = InstallState::Failed {
        reason: Failure::RateLimited,
    };
    let (state, _) = install_step(failed, InstallEvent::ReleaseFetched(Ok(release("v1", &["a.dmg"]))));
    assert_eq!(
        state,
        InstallState::Failed {
            reason: Failure::RateLimited
        }
    );
}

#[test]
fn pending_action_is_a_matter_of_the_state_alone() {
    let state = InstallState::Persisting {
        tool: Tool::ResolveSync,
        version: "2.3.0".to_string(),
        config: record(&[(ID, "2.3.0")]),
    };
    assert_eq!(install_action(&state), install_action(&state));
    assert_eq!(
        install_action(&state),
        InstallAction::SaveConfig {
            config: record(&[(ID, "2.3.0")])
        }
    );
    let failed = InstallState::Failed {
        reason: Failure::IoError {
            stage: IoStage::WriteFile,
            cause: "full".to_string(),
        },
    };
    assert_eq!(install_action(&failed), failure_result("Failed to write file: full"));
}

#[test]
fn version_is_the_tag_without_its_leading_v() {
    let actions = walk(vec![
        InstallEvent::DirsPrepared(Ok(())),
        InstallEvent::ReleaseFetched(Ok(release("vv10.0-rc1", &["a.dmg"]))),
    ]);
    assert_eq!(
        actions[2],
        InstallAction::Download {
            url: "https://example.test/a.dmg".to_string(),
            file_name: "a.dmg".to_string()
        }
    );
    let (state, _) = install_start(ID);
    let (state, _) = install_step(state, InstallEvent::DirsPrepared(Ok(())));
    let (state, _) = install_step(
        state,
        InstallEvent::ReleaseFetched(Ok(release("vv10.0-rc1", &["a.dmg"]))),
    );
    assert_eq!(
        state,
        InstallState::Downloading {
            tool: Tool::ResolveSync,
            version: "10.0-rc1".to_string(),
            asset: asset("a.dmg"),
        }
    );
}
