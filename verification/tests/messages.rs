use story_launcher::archive::ArchiveFormat;
use story_launcher::failure::{ExtractStage, Failure, IoStage, NetworkStage};
use story_launcher::status::ActionResult;

fn cause() -> String {
    "disk on fire".to_string()
}

#[test]
fn unknown_tool_message() {
    assert_eq!(Failure::UnknownTool.message(), "Unknown tool");
}

#[test]
fn rate_limited_message() {
    assert_eq!(
        Failure::RateLimited.message(),
        "GitHub API rate limit exceeded. Please try again later."
    );
}

#[test]
fn no_releases_message() {
    assert_eq!(
        Failure::NoReleases.message(),
        "No releases found for this repository."
    );
}

#[test]
fn registry_error_message() {
    let f = Failure::RegistryError {
        code: 502,
        status: "502 Bad Gateway".to_string(),
    };
    assert_eq!(f.message(), "GitHub API error: 502 Bad Gateway");
}

#[test]
fn network_error_messages() {
    let m = |stage| Failure::NetworkError { stage, cause: cause() }.message();
    assert_eq!(
        m(NetworkStage::ClientSetup),
        "Failed to create HTTP client: disk on fire"
    );
    assert_eq!(
        m(NetworkStage::ReleaseRequest),
        "Failed to fetch release info: disk on fire"
    );
    assert_eq!(m(NetworkStage::DownloadRequest), "Failed to download: disk on fire");
    assert_eq!(
        m(NetworkStage::DownloadBody),
        "Failed to read download: disk on fire"
    );
}

#[test]
fn http_error_message() {
    let f = Failure::HttpError {
        code: 404,
        status: "404 Not Found".to_string(),
    };
    assert_eq!(f.message(), "Download failed: 404 Not Found");
}

#[test]
fn parse_error_message() {
    let f = Failure::ParseError { cause: cause() };
    assert_eq!(f.message(), "Failed to parse release info: disk on fire");
}

#[test]
fn no_compatible_asset_message() {
    assert_eq!(
        Failure::NoCompatibleAsset.message(),
        "No compatible download found in release"
    );
}

#[test]
fn io_error_messages() {
    let m = |stage| Failure::IoError { stage, cause: cause() }.message();
    assert_eq!(
        m(IoStage::CreateDirectories),
        "Failed to create directories: disk on fire"
    );
    assert_eq!(
        m(IoStage::RemoveExisting),
        "Failed to remove existing app: disk on fire"
    );
    assert_eq!(m(IoStage::CreateFile), "Failed to create file: disk on fire");
    assert_eq!(m(IoStage::WriteFile), "Failed to write file: disk on fire");
}

#[test]
fn extract_error_messages_with_a_cause() {
    let m = |stage| {
        Failure::ExtractError {
            format: ArchiveFormat::Zip,
            stage,
            cause: Some(cause()),
        }
        .message()
    };
    assert_eq!(m(ExtractStage::OpenArchive), "Failed to open archive: disk on fire");
    assert_eq!(m(ExtractStage::Unpack), "Failed to extract archive: disk on fire");
    assert_eq!(m(ExtractStage::ReadZip), "Failed to read zip: disk on fire");
    assert_eq!(
        m(ExtractStage::ReadZipEntry),
        "Failed to read zip entry: disk on fire"
    );
    assert_eq!(
        m(ExtractStage::CreateDirectory),
        "Failed to create directory: disk on fire"
    );
    assert_eq!(m(ExtractStage::CreateFile), "Failed to create file: disk on fire");
    assert_eq!(m(ExtractStage::WriteFile), "Failed to write file: disk on fire");
    assert_eq!(m(ExtractStage::MountImage), "Failed to mount DMG: disk on fire");
    assert_eq!(
        m(ExtractStage::QueryMounts),
        "Failed to get mount info: disk on fire"
    );
    assert_eq!(m(ExtractStage::CopyApp), "Failed to copy app: disk on fire");
}

#[test]
fn extract_error_messages_without_a_cause() {
    let m = |stage| {
        Failure::ExtractError {
            format: ArchiveFormat::Dmg,
            stage,
            cause: None,
        }
        .message()
    };
    assert_eq!(m(ExtractStage::MountImage), "Failed to mount DMG");
    assert_eq!(m(ExtractStage::CopyApp), "Failed to copy app from DMG");
    assert_eq!(m(ExtractStage::Unpack), "Failed to extract archive");
}

#[test]
fn extract_error_message_does_not_depend_on_the_format() {
    let m = |format| {
        Failure::ExtractError {
            format,
            stage: ExtractStage::OpenArchive,
            cause: Some(cause()),
        }
        .message()
    };
    assert_eq!(m(ArchiveFormat::TarGz), m(ArchiveFormat::Zip));
    assert_eq!(m(ArchiveFormat::Zip), m(ArchiveFormat::Dmg));
}

#[test]
fn unsupported_archive_message() {
    assert_eq!(
        Failure::UnsupportedArchive.message(),
        "Unsupported archive format"
    );
}

#[test]
fn mount_point_not_found_message() {
    assert_eq!(
        Failure::MountPointNotFound.message(),
        "Failed to find mount point"
    );
}

#[test]
fn config_save_error_message() {
    let f = Failure::ConfigSaveError { cause: cause() };
    assert_eq!(f.message(), "Failed to save config: disk on fire");
}

#[test]
fn not_installed_message() {
    assert_eq!(Failure::NotInstalled.message(), "App not installed");
}

#[test]
fn launch_error_message() {
    let f = Failure::LaunchError { cause: cause() };
    assert_eq!(f.message(), "Failed to launch: disk on fire");
}

#[test]
fn empty_cause_leaves_the_prefix() {
    let f = Failure::ConfigSaveError {
        cause: String::new(),
    };
    assert_eq!(f.message(), "Failed to save config: ");
}

#[test]
fn failure_is_reported_as_an_unsuccessful_result() {
    let r = ActionResult::failed(&Failure::NoCompatibleAsset);
    assert_eq!(
        r,
        ActionResult {
            success: false,
            message: "No compatible download found in release".to_string()
        }
    );
}

#[test]
fn copy_of_a_failure_is_equal_to_it() {
    let f = Failure::ExtractError {
        format: ArchiveFormat::Dmg,
        stage: ExtractStage::CopyApp,
        cause: Some(cause()),
    };
    assert_eq!(f.clone(), f);
    assert_eq!(Failure::RateLimited.clone(), Failure::RateLimited);
}
