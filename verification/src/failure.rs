//! Why an operation failed, and what the user is told about it.

use crate::archive::ArchiveFormat;
use crate::text::{copy_text, joined, text_of};
use vstd::prelude::*;
use vstd::string::StringExecFns;

verus! {

/// The network exchange that did not complete.
#[derive(Clone, Copy, Debug, PartialEq, Eq, Structural)]
pub enum NetworkStage {
    /// The HTTP client could not be set up.
    ClientSetup,
    /// The request for the latest release got no response.
    ReleaseRequest,
    /// The request for the asset got no response.
    DownloadRequest,
    /// The body of the asset could not be read to its end.
    DownloadBody,
}

/// The local file operation that did not complete.
#[derive(Clone, Copy, Debug, PartialEq, Eq, Structural)]
pub enum IoStage {
    /// Creating the directory that holds the bundles.
    CreateDirectories,
    /// Removing the bundle of the version installed before.
    RemoveExisting,
    /// Creating the file that receives a download.
    CreateFile,
    /// Writing a download to its file.
    WriteFile,
}

/// The part of unpacking an archive that did not complete.
#[derive(Clone, Copy, Debug, PartialEq, Eq, Structural)]
pub enum ExtractStage {
    /// Opening the archive file.
    OpenArchive,
    /// Unpacking a tar stream.
    Unpack,
    /// Reading the directory of a zip archive.
    ReadZip,
    /// Reading one entry of a zip archive.
    ReadZipEntry,
    /// Creating a directory for an entry.
    CreateDirectory,
    /// Creating the file of an entry.
    CreateFile,
    /// Writing the contents of an entry.
    WriteFile,
    /// Mounting a disk image.
    MountImage,
    /// Asking which images are mounted.
    QueryMounts,
    /// Copying the bundle out of a mounted image.
    CopyApp,
}

/// Why an operation failed.
#[derive(Debug, PartialEq, Eq)]
#[allow(inconsistent_fields)]
pub enum Failure {
    /// The identifier names no supported tool.
    UnknownTool,
    /// The registry refused the request for exceeding its rate limit.
    RateLimited,
    /// The repository has published no release.
    NoReleases,
    /// The registry answered with another status that is no success.
    RegistryError { code: u16, status: String },
    /// A network exchange did not complete.
    NetworkError { stage: NetworkStage, cause: String },
    /// The download was answered with a status that is no success.
    HttpError { code: u16, status: String },
    /// The registry's answer could not be read as a release.
    ParseError { cause: String },
    /// No asset of the release can be installed here.
    NoCompatibleAsset,
    /// A local file operation did not complete.
    IoError { stage: IoStage, cause: String },
    /// Unpacking the archive did not complete. Without a cause, a helper process
    /// ran and reported failure.
    ExtractError { format: ArchiveFormat, stage: ExtractStage, cause: Option<String> },
    /// The name of the downloaded asset announces no known archive format.
    UnsupportedArchive,
    /// No mounted volume was found after mounting a disk image.
    MountPointNotFound,
    /// The new version could not be recorded.
    ConfigSaveError { cause: String },
    /// The tool's bundle is not on disk.
    NotInstalled,
    /// The bundle could not be started.
    LaunchError { cause: String },
}

/// A `Failure` with its texts as sequences of characters.
#[allow(inconsistent_fields)]
pub enum FailureView {
    UnknownTool,
    RateLimited,
    NoReleases,
    RegistryError { code: u16, status: Seq<char> },
    NetworkError { stage: NetworkStage, cause: Seq<char> },
    HttpError { code: u16, status: Seq<char> },
    ParseError { cause: Seq<char> },
    NoCompatibleAsset,
    IoError { stage: IoStage, cause: Seq<char> },
    ExtractError { format: ArchiveFormat, stage: ExtractStage, cause: Option<Seq<char>> },
    UnsupportedArchive,
    MountPointNotFound,
    ConfigSaveError { cause: Seq<char> },
    NotInstalled,
    LaunchError { cause: Seq<char> },
}

impl NetworkStage {
    /// How the message for this exchange begins.
    pub open spec fn prefix(self) -> Seq<char> {
        match self {
            NetworkStage::ClientSetup => "Failed to create HTTP client: "@,
            NetworkStage::ReleaseRequest => "Failed to fetch release info: "@,
            NetworkStage::DownloadRequest => "Failed to download: "@,
            NetworkStage::DownloadBody => "Failed to read download: "@,
        }
    }

    /// How the message for this exchange begins.
    pub fn prefix_str(self) -> (r: &'static str)
        ensures
            r@ == self.prefix(),
    {
        match self {
            NetworkStage::ClientSetup => "Failed to create HTTP client: ",
            NetworkStage::ReleaseRequest => "Failed to fetch release info: ",
            NetworkStage::DownloadRequest => "Failed to download: ",
            NetworkStage::DownloadBody => "Failed to read download: ",
        }
    }
}

impl IoStage {
    /// How the message for this operation begins.
    pub open spec fn prefix(self) -> Seq<char> {
        match self {
            IoStage::CreateDirectories => "Failed to create directories: "@,
            IoStage::RemoveExisting => "Failed to remove existing app: "@,
            IoStage::CreateFile => "Failed to create file: "@,
            IoStage::WriteFile => "Failed to write file: "@,
        }
    }

    /// How the message for this operation begins.
    pub fn prefix_str(self) -> (r: &'static str)
        ensures
            r@ == self.prefix(),
    {
        match self {
            IoStage::CreateDirectories => "Failed to create directories: ",
            IoStage::RemoveExisting => "Failed to remove existing app: ",
            IoStage::CreateFile => "Failed to create file: ",
            IoStage::WriteFile => "Failed to write file: ",
        }
    }
}

impl ExtractStage {
    /// What is said of this part of unpacking, before any cause.
    pub open spec fn summary(self) -> Seq<char> {
        match self {
            ExtractStage::OpenArchive => "Failed to open archive"@,
            ExtractStage::Unpack => "Failed to extract archive"@,
            ExtractStage::ReadZip => "Failed to read zip"@,
            ExtractStage::ReadZipEntry => "Failed to read zip entry"@,
            ExtractStage::CreateDirectory => "Failed to create directory"@,
            ExtractStage::CreateFile => "Failed to create file"@,
            ExtractStage::WriteFile => "Failed to write file"@,
            ExtractStage::MountImage => "Failed to mount DMG"@,
            ExtractStage::QueryMounts => "Failed to get mount info"@,
            ExtractStage::CopyApp => "Failed to copy app"@,
        }
    }

    /// What is said where a helper process ran and reported failure.
    pub open spec fn unexplained(self) -> Seq<char> {
        match self {
            ExtractStage::CopyApp => "Failed to copy app from DMG"@,
            _ => self.summary(),
        }
    }

    /// What is said of this part of unpacking, before any cause.
    pub fn summary_str(self) -> (r: &'static str)
        ensures
            r@ == self.summary(),
    {
        match self {
            ExtractStage::OpenArchive => "Failed to open archive",
            ExtractStage::Unpack => "Failed to extract archive",
            ExtractStage::ReadZip => "Failed to read zip",
            ExtractStage::ReadZipEntry => "Failed to read zip entry",
            ExtractStage::CreateDirectory => "Failed to create directory",
            ExtractStage::CreateFile => "Failed to create file",
            ExtractStage::WriteFile => "Failed to write file",
            ExtractStage::MountImage => "Failed to mount DMG",
            ExtractStage::QueryMounts => "Failed to get mount info",
            ExtractStage::CopyApp => "Failed to copy app",
        }
    }

    /// What is said where a helper process ran and reported failure.
    pub fn unexplained_str(self) -> (r: &'static str)
        ensures
            r@ == self.unexplained(),
    {
        match self {
            ExtractStage::CopyApp => "Failed to copy app from DMG",
            _ => self.summary_str(),
        }
    }
}

impl FailureView {
    /// The message that the user is shown.
    pub open spec fn message(self) -> Seq<char> {
        match self {
            FailureView::UnknownTool => "Unknown tool"@,
            FailureView::RateLimited => "GitHub API rate limit exceeded. Please try again later."@,
            FailureView::NoReleases => "No releases found for this repository."@,
            FailureView::RegistryError { code, status } => "GitHub API error: "@ + status,
            FailureView::NetworkError { stage, cause } => stage.prefix() + cause,
            FailureView::HttpError { code, status } => "Download failed: "@ + status,
            FailureView::ParseError { cause } => "Failed to parse release info: "@ + cause,
            FailureView::NoCompatibleAsset => "No compatible download found in release"@,
            FailureView::IoError { stage, cause } => stage.prefix() + cause,
            FailureView::ExtractError { format, stage, cause } => match cause {
                Some(c) => stage.summary() + ": "@ + c,
                None => stage.unexplained(),
            },
            FailureView::UnsupportedArchive => "Unsupported archive format"@,
            FailureView::MountPointNotFound => "Failed to find mount point"@,
            FailureView::ConfigSaveError { cause } => "Failed to save config: "@ + cause,
            FailureView::NotInstalled => "App not installed"@,
            FailureView::LaunchError { cause } => "Failed to launch: "@ + cause,
        }
    }
}

impl View for Failure {
    type V = FailureView;

    open spec fn view(&self) -> FailureView {
        match *self {
            Failure::UnknownTool => FailureView::UnknownTool,
            Failure::RateLimited => FailureView::RateLimited,
            Failure::NoReleases => FailureView::NoReleases,
            Failure::RegistryError { code, status } => FailureView::RegistryError {
                code,
                status: status@,
            },
            Failure::NetworkError { stage, cause } => FailureView::NetworkError {
                stage,
                cause: cause@,
            },
            Failure::HttpError { code, status } => FailureView::HttpError { code, status: status@ },
            Failure::ParseError { cause } => FailureView::ParseError { cause: cause@ },
            Failure::NoCompatibleAsset => FailureView::NoCompatibleAsset,
            Failure::IoError { stage, cause } => FailureView::IoError { stage, cause: cause@ },
            Failure::ExtractError { format, stage, cause } => FailureView::ExtractError {
                format,
                stage,
                cause: text_of(cause),
            },
            Failure::UnsupportedArchive => FailureView::UnsupportedArchive,
            Failure::MountPointNotFound => FailureView::MountPointNotFound,
            Failure::ConfigSaveError { cause } => FailureView::ConfigSaveError { cause: cause@ },
            Failure::NotInstalled => FailureView::NotInstalled,
            Failure::LaunchError { cause } => FailureView::LaunchError { cause: cause@ },
        }
    }
}

/// The view of an outcome that carries a cause on failure.
pub open spec fn outcome_view(outcome: Result<(), String>) -> Result<(), Seq<char>> {
    match outcome {
        Ok(_) => Ok(()),
        Err(cause) => Err(cause@),
    }
}

/// The view of an outcome that carries a failure.
pub open spec fn attempt_view(outcome: Result<(), Failure>) -> Result<(), FailureView> {
    match outcome {
        Ok(_) => Ok(()),
        Err(failure) => Err(failure@),
    }
}

/// The view of an optional failure.
pub open spec fn failure_view(failure: Option<Failure>) -> Option<FailureView> {
    match failure {
        Some(f) => Some(f@),
        None => None,
    }
}

impl Clone for Failure {
    fn clone(&self) -> (r: Self)
        ensures
            r@ == self@,
    {
        match self {
            Failure::UnknownTool => Failure::UnknownTool,
            Failure::RateLimited => Failure::RateLimited,
            Failure::NoReleases => Failure::NoReleases,
            Failure::RegistryError { code, status } => Failure::RegistryError {
                code: *code,
                status: status.clone(),
            },
            Failure::NetworkError { stage, cause } => Failure::NetworkError {
                stage: *stage,
                cause: cause.clone(),
            },
            Failure::HttpError { code, status } => Failure::HttpError {
                code: *code,
                status: status.clone(),
            },
            Failure::ParseError { cause } => Failure::ParseError { cause: cause.clone() },
            Failure::NoCompatibleAsset => Failure::NoCompatibleAsset,
            Failure::IoError { stage, cause } => Failure::IoError {
                stage: *stage,
                cause: cause.clone(),
            },
            Failure::ExtractError { format, stage, cause } => Failure::ExtractError {
                format: *format,
                stage: *stage,
                cause: copy_text(cause),
            },
            Failure::UnsupportedArchive => Failure::UnsupportedArchive,
            Failure::MountPointNotFound => Failure::MountPointNotFound,
            Failure::ConfigSaveError { cause } => Failure::ConfigSaveError { cause: cause.clone() },
            Failure::NotInstalled => Failure::NotInstalled,
            Failure::LaunchError { cause } => Failure::LaunchError { cause: cause.clone() },
        }
    }
}

impl Failure {
    /// The message that the user is shown.
    pub fn message(&self) -> (r: String)
        ensures
            r@ == self@.message(),
    {
        match self {
            Failure::UnknownTool => "Unknown tool".to_owned(),
            Failure::RateLimited => "GitHub API rate limit exceeded. Please try again later.".to_owned(),
            Failure::NoReleases => "No releases found for this repository.".to_owned(),
            Failure::RegistryError { code, status } => joined("GitHub API error: ", status.as_str()),
            Failure::NetworkError { stage, cause } => joined(stage.prefix_str(), cause.as_str()),
            Failure::HttpError { code, status } => joined("Download failed: ", status.as_str()),
            Failure::ParseError { cause } => joined("Failed to parse release info: ", cause.as_str()),
            Failure::NoCompatibleAsset => "No compatible download found in release".to_owned(),
            Failure::IoError { stage, cause } => joined(stage.prefix_str(), cause.as_str()),
            Failure::ExtractError { format, stage, cause } => match cause {
                Some(c) => stage.summary_str().to_owned().concat(": ").concat(c.as_str()),
                None => stage.unexplained_str().to_owned(),
            },
            Failure::UnsupportedArchive => "Unsupported archive format".to_owned(),
            Failure::MountPointNotFound => "Failed to find mount point".to_owned(),
            Failure::ConfigSaveError { cause } => joined("Failed to save config: ", cause.as_str()),
            Failure::NotInstalled => "App not installed".to_owned(),
            Failure::LaunchError { cause } => joined("Failed to launch: ", cause.as_str()),
        }
    }
}

} // verus!
