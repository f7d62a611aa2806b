//! Installing a tool, one step at a time.
//!
//! An install is a walk through the states of `InstallState`. Each state names
//! one action for the host to perform; the outcome of that action, handed back
//! as an `InstallEvent`, decides the next state. An update is the same walk: the
//! bundle on disk is removed and the latest release is installed afresh.

use crate::archive::{archive_format, format_of, ArchiveFormat};
use crate::config::ToolsConfig;
use crate::failure::{attempt_view, failure_view, outcome_view, Failure, FailureView, IoStage};
use crate::release::{
    find_app_asset, is_installable, lemma_installable_has_format,
    lemma_none_iff_nothing_installable, lemma_preference_order, preferred_asset, version_of_tag,
    version_text, AssetView, GitHubAsset, GitHubRelease, ReleaseView,
};
use crate::status::{tool_status, ActionResult, ActionResultView};
use crate::text::joined;
use crate::tools::{lemma_tool_id_round_trip, Tool};
use vstd::prelude::*;

verus! {

/// Where an install stands.
#[derive(Debug, PartialEq, Eq)]
pub enum InstallState {
    /// The directory for the bundles is being created.
    Preparing { tool: Tool },
    /// The registry is being asked for the latest release.
    Resolving { tool: Tool },
    /// The chosen asset is being downloaded to a temporary file.
    Downloading { tool: Tool, version: String, asset: GitHubAsset },
    /// The host is looking whether a bundle of an earlier install is on disk.
    Probing { tool: Tool, version: String, asset_name: String },
    /// The bundle of the earlier install is being removed.
    RemovingOld { tool: Tool, version: String, asset_name: String },
    /// The downloaded archive is being unpacked.
    Extracting { tool: Tool, version: String, asset_name: String, format: ArchiveFormat },
    /// The temporary file is being removed: after a download or an unpacking
    /// that ended with `failure` or, where that is `None`, after unpacking that
    /// went well.
    CleaningUp { tool: Tool, version: String, asset_name: String, failure: Option<Failure> },
    /// The mark that the system puts on downloaded files is being cleared from
    /// the new bundle.
    FixingUp { tool: Tool, version: String },
    /// The record of installed versions is being read.
    Loading { tool: Tool, version: String },
    /// The record, with the new version in it, is being written.
    Persisting { tool: Tool, version: String, config: ToolsConfig },
    /// The install has succeeded.
    Done { version: String },
    /// The install was given up.
    Failed { reason: Failure },
}

/// The outcome of the action that the host performed last.
#[derive(Debug, PartialEq, Eq)]
pub enum InstallEvent {
    /// The directory for the bundles exists, or could not be created.
    DirsPrepared(Result<(), String>),
    /// The registry has answered, or could not be asked.
    ReleaseFetched(Result<GitHubRelease, Failure>),
    /// The asset lies in its temporary file, or could not be fetched.
    Downloaded(Result<(), Failure>),
    /// Whether a bundle of an earlier install is on disk.
    BundleProbed(bool),
    /// The earlier bundle is gone, or could not be removed.
    OldRemoved(Result<(), String>),
    /// The archive is unpacked, or could not be.
    Extracted(Result<(), Failure>),
    /// The removal of the temporary file was attempted.
    TempRemoved { removed: bool },
    /// Clearing the download mark was attempted.
    QuarantineCleared { cleared: bool },
    /// The record of installed versions as it stands on disk.
    ConfigLoaded(ToolsConfig),
    /// The record is written, or could not be.
    ConfigSaved(Result<(), String>),
}

/// What the host is to do next.
#[derive(Debug, PartialEq, Eq)]
pub enum InstallAction {
    /// Create the directory for the bundles, with the directories above it.
    PrepareDirs,
    /// Ask the registry for the latest release of `repo`.
    FetchRelease { repo: String },
    /// Fetch `url` into the temporary file named `file_name`.
    Download { url: String, file_name: String },
    /// Look whether the bundle `app_name` is on disk.
    ProbeBundle { app_name: String },
    /// Remove the bundle `app_name` with all that it holds.
    RemoveOld { app_name: String },
    /// Unpack the temporary file `file_name` into the directory for the
    /// bundles.
    Extract { format: ArchiveFormat, file_name: String, app_name: String },
    /// Remove the temporary file `file_name`; a failure to do so is of no
    /// consequence.
    RemoveTemp { file_name: String },
    /// Clear the download mark from the bundle `app_name`; a failure to do so is
    /// of no consequence.
    ClearQuarantine { app_name: String },
    /// Read the record of installed versions.
    LoadConfig,
    /// Write `config` as the record of installed versions.
    SaveConfig { config: ToolsConfig },
    /// Nothing is left to do: report `result`.
    Finish { result: ActionResult },
}

/// An `InstallState` with its texts as sequences of characters.
pub enum InstallStateView {
    Preparing { tool: Tool },
    Resolving { tool: Tool },
    Downloading { tool: Tool, version: Seq<char>, asset: AssetView },
    Probing { tool: Tool, version: Seq<char>, asset_name: Seq<char> },
    RemovingOld { tool: Tool, version: Seq<char>, asset_name: Seq<char> },
    Extracting { tool: Tool, version: Seq<char>, asset_name: Seq<char>, format: ArchiveFormat },
    CleaningUp {
        tool: Tool,
        version: Seq<char>,
        asset_name: Seq<char>,
        failure: Option<FailureView>,
    },
    FixingUp { tool: Tool, version: Seq<char> },
    Loading { tool: Tool, version: Seq<char> },
    Persisting { tool: Tool, version: Seq<char>, config: Map<Seq<char>, Seq<char>> },
    Done { version: Seq<char> },
    Failed { reason: FailureView },
}

/// An `InstallEvent` with its texts as sequences of characters.
pub enum InstallEventView {
    DirsPrepared(Result<(), Seq<char>>),
    ReleaseFetched(Result<ReleaseView, FailureView>),
    Downloaded(Result<(), FailureView>),
    BundleProbed(bool),
    OldRemoved(Result<(), Seq<char>>),
    Extracted(Result<(), FailureView>),
    TempRemoved { removed: bool },
    QuarantineCleared { cleared: bool },
    ConfigLoaded(Map<Seq<char>, Seq<char>>),
    ConfigSaved(Result<(), Seq<char>>),
}

/// An `InstallAction` with its texts as sequences of characters.
pub enum InstallActionView {
    PrepareDirs,
    FetchRelease { repo: Seq<char> },
    Download { url: Seq<char>, file_name: Seq<char> },
    ProbeBundle { app_name: Seq<char> },
    RemoveOld { app_name: Seq<char> },
    Extract { format: ArchiveFormat, file_name: Seq<char>, app_name: Seq<char> },
    RemoveTemp { file_name: Seq<char> },
    ClearQuarantine { app_name: Seq<char> },
    LoadConfig,
    SaveConfig { config: Map<Seq<char>, Seq<char>> },
    Finish { result: ActionResultView },
}

impl View for InstallState {
    type V = InstallStateView;

    open spec fn view(&self) -> InstallStateView {
        match *self {
            InstallState::Preparing { tool } => InstallStateView::Preparing { tool },
            InstallState::Resolving { tool } => InstallStateView::Resolving { tool },
            InstallState::Downloading { tool, version, asset } => InstallStateView::Downloading {
                tool,
                version: version@,
                asset: asset@,
            },
            InstallState::Probing { tool, version, asset_name } => InstallStateView::Probing {
                tool,
                version: version@,
                asset_name: asset_name@,
            },
            InstallState::RemovingOld { tool, version, asset_name } => InstallStateView::RemovingOld {
                tool,
                version: version@,
                asset_name: asset_name@,
            },
            InstallState::Extracting {
                tool,
                version,
                asset_name,
                format,
            } => InstallStateView::Extracting {
                tool,
                version: version@,
                asset_name: asset_name@,
                format,
            },
            InstallState::CleaningUp {
                tool,
                version,
                asset_name,
                failure,
            } => InstallStateView::CleaningUp {
                tool,
                version: version@,
                asset_name: asset_name@,
                failure: failure_view(failure),
            },
            InstallState::FixingUp { tool, version } => InstallStateView::FixingUp {
                tool,
                version: version@,
            },
            InstallState::Loading { tool, version } => InstallStateView::Loading {
                tool,
                version: version@,
            },
            InstallState::Persisting { tool, version, config } => InstallStateView::Persisting {
                tool,
                version: version@,
                config: config@,
            },
            InstallState::Done { version } => InstallStateView::Done { version: version@ },
            InstallState::Failed { reason } => InstallStateView::Failed { reason: reason@ },
        }
    }
}

impl View for InstallEvent {
    type V = InstallEventView;

    open spec fn view(&self) -> InstallEventView {
        match *self {
            InstallEvent::DirsPrepared(outcome) => InstallEventView::DirsPrepared(
                outcome_view(outcome),
            ),
            InstallEvent::ReleaseFetched(Ok(release)) => InstallEventView::ReleaseFetched(
                Ok(release@),
            ),
            InstallEvent::ReleaseFetched(Err(failure)) => InstallEventView::ReleaseFetched(
                Err(failure@),
            ),
            InstallEvent::Downloaded(outcome) => InstallEventView::Downloaded(attempt_view(outcome)),
            InstallEvent::BundleProbed(present) => InstallEventView::BundleProbed(present),
            InstallEvent::OldRemoved(outcome) => InstallEventView::OldRemoved(outcome_view(outcome)),
            InstallEvent::Extracted(outcome) => InstallEventView::Extracted(attempt_view(outcome)),
            InstallEvent::TempRemoved { removed } => InstallEventView::TempRemoved { removed },
            InstallEvent::QuarantineCleared { cleared } => InstallEventView::QuarantineCleared {
                cleared,
            },
            InstallEvent::ConfigLoaded(config) => InstallEventView::ConfigLoaded(config@),
            InstallEvent::ConfigSaved(outcome) => InstallEventView::ConfigSaved(
                outcome_view(outcome),
            ),
        }
    }
}

impl View for InstallAction {
    type V = InstallActionView;

    open spec fn view(&self) -> InstallActionView {
        match *self {
            InstallAction::PrepareDirs => InstallActionView::PrepareDirs,
            InstallAction::FetchRelease { repo } => InstallActionView::FetchRelease { repo: repo@ },
            InstallAction::Download { url, file_name } => InstallActionView::Download {
                url: url@,
                file_name: file_name@,
            },
            InstallAction::ProbeBundle { app_name } => InstallActionView::ProbeBundle {
                app_name: app_name@,
            },
            InstallAction::RemoveOld { app_name } => InstallActionView::RemoveOld {
                app_name: app_name@,
            },
            InstallAction::Extract { format, file_name, app_name } => InstallActionView::Extract {
                format,
                file_name: file_name@,
                app_name: app_name@,
            },
            InstallAction::RemoveTemp { file_name } => InstallActionView::RemoveTemp {
                file_name: file_name@,
            },
            InstallAction::ClearQuarantine { app_name } => InstallActionView::ClearQuarantine {
                app_name: app_name@,
            },
            InstallAction::LoadConfig => InstallActionView::LoadConfig,
            InstallAction::SaveConfig { config } => InstallActionView::SaveConfig { config: config@ },
            InstallAction::Finish { result } => InstallActionView::Finish { result: result@ },
        }
    }
}

/// The state in which the install of the tool that `id` names begins. An
/// identifier that names no supported tool fails at once.
pub open spec fn install_initial(id: Seq<char>) -> InstallStateView {
    match Tool::with_id(id) {
        Some(tool) => InstallStateView::Preparing { tool },
        None => InstallStateView::Failed { reason: FailureView::UnknownTool },
    }
}

/// The state once no earlier bundle is in the way: unpacking, by the format that
/// the asset's name announces. A name that announces none leaves only the
/// temporary file to remove.
pub open spec fn ready_to_extract(tool: Tool, version: Seq<char>, asset_name: Seq<char>) -> InstallStateView {
    match format_of(asset_name) {
        Some(format) => InstallStateView::Extracting { tool, version, asset_name, format },
        None => InstallStateView::CleaningUp {
            tool,
            version,
            asset_name,
            failure: Some(FailureView::UnsupportedArchive),
        },
    }
}

/// The state that follows `state` on `event`. An event that does not answer
/// the action that `state` asks for changes nothing.
pub open spec fn install_next(state: InstallStateView, event: InstallEventView) -> InstallStateView {
    match state {
        InstallStateView::Preparing { tool } => match event {
            InstallEventView::DirsPrepared(Ok(_)) => InstallStateView::Resolving { tool },
            InstallEventView::DirsPrepared(Err(cause)) => InstallStateView::Failed {
                reason: FailureView::IoError { stage: IoStage::CreateDirectories, cause },
            },
            _ => state,
        },
        InstallStateView::Resolving { tool } => match event {
            InstallEventView::ReleaseFetched(Ok(release)) => match preferred_asset(release.assets) {
                Some(i) => InstallStateView::Downloading {
                    tool,
                    version: version_text(release.tag_name),
                    asset: release.assets[i],
                },
                None => InstallStateView::Failed { reason: FailureView::NoCompatibleAsset },
            },
            InstallEventView::ReleaseFetched(Err(failure)) => InstallStateView::Failed {
                reason: failure,
            },
            _ => state,
        },
        InstallStateView::Downloading { tool, version, asset } => match event {
            InstallEventView::Downloaded(Ok(_)) => InstallStateView::Probing {
                tool,
                version,
                asset_name: asset.name,
            },
            InstallEventView::Downloaded(Err(failure)) => InstallStateView::CleaningUp {
                tool,
                version,
                asset_name: asset.name,
                failure: Some(failure),
            },
            _ => state,
        },
        InstallStateView::Probing { tool, version, asset_name } => match event {
            InstallEventView::BundleProbed(present) => if present {
                InstallStateView::RemovingOld { tool, version, asset_name }
            } else {
                ready_to_extract(tool, version, asset_name)
            },
            _ => state,
        },
        InstallStateView::RemovingOld { tool, version, asset_name } => match event {
            InstallEventView::OldRemoved(Ok(_)) => ready_to_extract(tool, version, asset_name),
            InstallEventView::OldRemoved(Err(cause)) => InstallStateView::Failed {
                reason: FailureView::IoError { stage: IoStage::RemoveExisting, cause },
            },
            _ => state,
        },
        InstallStateView::Extracting { tool, version, asset_name, format } => match event {
            InstallEventView::Extracted(Ok(_)) => InstallStateView::CleaningUp {
                tool,
                version,
                asset_name,
                failure: None,
            },
            InstallEventView::Extracted(Err(failure)) => InstallStateView::CleaningUp {
                tool,
                version,
                asset_name,
                failure: Some(failure),
            },
            _ => state,
        },
        InstallStateView::CleaningUp { tool, version, asset_name, failure } => match event {
            InstallEventView::TempRemoved { removed } => match failure {
                Some(reason) => InstallStateView::Failed { reason },
                None => InstallStateView::FixingUp { tool, version },
            },
            _ => state,
        },
        InstallStateView::FixingUp { tool, version } => match event {
            InstallEventView::QuarantineCleared { cleared } => InstallStateView::Loading {
                tool,
                version,
            },
            _ => state,
        },
        InstallStateView::Loading { tool, version } => match event {
            InstallEventView::ConfigLoaded(config) => InstallStateView::Persisting {
                tool,
                version,
                config: config.insert(tool.id_text(), version),
            },
            _ => state,
        },
        InstallStateView::Persisting { tool, version, config } => match event {
            InstallEventView::ConfigSaved(Ok(_)) => InstallStateView::Done { version },
            InstallEventView::ConfigSaved(Err(cause)) => InstallStateView::Failed {
                reason: FailureView::ConfigSaveError { cause },
            },
            _ => state,
        },
        InstallStateView::Done { version } => state,
        InstallStateView::Failed { reason } => state,
    }
}

/// What is reported of an install that recorded `version`.
pub open spec fn installed_report(version: Seq<char>) -> ActionResultView {
    ActionResultView { success: true, message: "Installed version "@ + version }
}

/// The action that `state` asks for.
pub open spec fn pending_action(state: InstallStateView) -> InstallActionView {
    match state {
        InstallStateView::Preparing { tool } => InstallActionView::PrepareDirs,
        InstallStateView::Resolving { tool } => InstallActionView::FetchRelease {
            repo: tool.repository_text(),
        },
        InstallStateView::Downloading { tool, version, asset } => InstallActionView::Download {
            url: asset.url,
            file_name: asset.name,
        },
        InstallStateView::Probing { tool, version, asset_name } => InstallActionView::ProbeBundle {
            app_name: tool.app_name_text(),
        },
        InstallStateView::RemovingOld { tool, version, asset_name } => InstallActionView::RemoveOld {
            app_name: tool.app_name_text(),
        },
        InstallStateView::Extracting {
            tool,
            version,
            asset_name,
            format,
        } => InstallActionView::Extract {
            format,
            file_name: asset_name,
            app_name: tool.app_name_text(),
        },
        InstallStateView::CleaningUp {
            tool,
            version,
            asset_name,
            failure,
        } => InstallActionView::RemoveTemp { file_name: asset_name },
        InstallStateView::FixingUp { tool, version } => InstallActionView::ClearQuarantine {
            app_name: tool.app_name_text(),
        },
        InstallStateView::Loading { tool, version } => InstallActionView::LoadConfig,
        InstallStateView::Persisting { tool, version, config } => InstallActionView::SaveConfig {
            config,
        },
        InstallStateView::Done { version } => InstallActionView::Finish {
            result: installed_report(version),
        },
        InstallStateView::Failed { reason } => InstallActionView::Finish {
            result: ActionResultView::failed(reason),
        },
    }
}

/// Whether the install has ended, well or not.
pub open spec fn is_final(state: InstallStateView) -> bool {
    state is Done || state is Failed
}

/// The state reached from `state` by the events of `events`, in order.
pub open spec fn install_run(state: InstallStateView, events: Seq<InstallEventView>) -> InstallStateView
    decreases events.len(),
{
    if events.len() == 0 {
        state
    } else {
        install_next(install_run(state, events.drop_last()), events.last())
    }
}

/// Begins the install of the tool that `tool_id` names.
pub fn install_start(tool_id: &str) -> (r: (InstallState, InstallAction))
    ensures
        r.0@ == install_initial(tool_id@),
        r.1@ == pending_action(r.0@),
{
    let state = match Tool::from_id(tool_id) {
        Some(tool) => InstallState::Preparing { tool },
        None => InstallState::Failed { reason: Failure::UnknownTool },
    };
    let action = install_action(&state);
    (state, action)
}

/// Begins the update of the tool that `tool_id` names: an update is a full
/// install of the latest release.
pub fn update_start(tool_id: &str) -> (r: (InstallState, InstallAction))
    ensures
        r.0@ == install_initial(tool_id@),
        r.1@ == pending_action(r.0@),
{
    install_start(tool_id)
}

/// The action that `state` asks for.
pub fn install_action(state: &InstallState) -> (action: InstallAction)
    ensures
        action@ == pending_action(state@),
{
    match state {
        InstallState::Preparing { tool } => InstallAction::PrepareDirs,
        InstallState::Resolving { tool } => InstallAction::FetchRelease {
            repo: tool.descriptor().source_repository.to_owned(),
        },
        InstallState::Downloading { tool, version, asset } => InstallAction::Download {
            url: asset.browser_download_url.clone(),
            file_name: asset.name.clone(),
        },
        InstallState::Probing { tool, version, asset_name } => InstallAction::ProbeBundle {
            app_name: tool.descriptor().installed_app_name.to_owned(),
        },
        InstallState::RemovingOld { tool, version, asset_name } => InstallAction::RemoveOld {
            app_name: tool.descriptor().installed_app_name.to_owned(),
        },
        InstallState::Extracting { tool, version, asset_name, format } => InstallAction::Extract {
            format: *format,
            file_name: asset_name.clone(),
            app_name: tool.descriptor().installed_app_name.to_owned(),
        },
        InstallState::CleaningUp {
            tool,
            version,
            asset_name,
            failure,
        } => InstallAction::RemoveTemp { file_name: asset_name.clone() },
        InstallState::FixingUp { tool, version } => InstallAction::ClearQuarantine {
            app_name: tool.descriptor().installed_app_name.to_owned(),
        },
        InstallState::Loading { tool, version } => InstallAction::LoadConfig,
        InstallState::Persisting { tool, version, config } => InstallAction::SaveConfig {
            config: config.clone(),
        },
        InstallState::Done { version } => InstallAction::Finish {
            result: ActionResult {
                success: true,
                message: joined("Installed version ", version.as_str()),
            },
        },
        InstallState::Failed { reason } => InstallAction::Finish {
            result: ActionResult::failed(reason),
        },
    }
}

/// The state once no earlier bundle is in the way.
fn begin_extraction(tool: Tool, version: String, asset_name: String) -> (next: InstallState)
    ensures
        next@ == ready_to_extract(tool, version@, asset_name@),
{
    match archive_format(asset_name.as_str()) {
        Some(format) => InstallState::Extracting { tool, version, asset_name, format },
        None => InstallState::CleaningUp {
            tool,
            version,
            asset_name,
            failure: Some(Failure::UnsupportedArchive),
        },
    }
}

/// The state that follows `state` on `event`.
fn advance(state: InstallState, event: InstallEvent) -> (next: InstallState)
    ensures
        next@ == install_next(state@, event@),
{
    match state {
        InstallState::Preparing { tool } => match event {
            InstallEvent::DirsPrepared(Ok(_)) => InstallState::Resolving { tool },
            InstallEvent::DirsPrepared(Err(cause)) => InstallState::Failed {
                reason: Failure::IoError { stage: IoStage::CreateDirectories, cause },
            },
            _ => InstallState::Preparing { tool },
        },
        InstallState::Resolving { tool } => match event {
            InstallEvent::ReleaseFetched(Ok(release)) => match find_app_asset(&release) {
                Some(asset) => InstallState::Downloading {
                    tool,
                    version: version_of_tag(release.tag_name.as_str()),
                    asset: asset.clone(),
                },
                None => InstallState::Failed { reason: Failure::NoCompatibleAsset },
            },
            InstallEvent::ReleaseFetched(Err(failure)) => InstallState::Failed { reason: failure },
            _ => InstallState::Resolving { tool },
        },
        InstallState::Downloading { tool, version, asset } => match event {
            InstallEvent::Downloaded(Ok(_)) => InstallState::Probing {
                tool,
                version,
                asset_name: asset.name,
            },
            InstallEvent::Downloaded(Err(failure)) => InstallState::CleaningUp {
                tool,
                version,
                asset_name: asset.name,
                failure: Some(failure),
            },
            _ => InstallState::Downloading { tool, version, asset },
        },
        InstallState::Probing { tool, version, asset_name } => match event {
            InstallEvent::BundleProbed(present) => if present {
                InstallState::RemovingOld { tool, version, asset_name }
            } else {
                begin_extraction(tool, version, asset_name)
            },
            _ => InstallState::Probing { tool, version, asset_name },
        },
        InstallState::RemovingOld { tool, version, asset_name } => match event {
            InstallEvent::OldRemoved(Ok(_)) => begin_extraction(tool, version, asset_name),
            InstallEvent::OldRemoved(Err(cause)) => InstallState::Failed {
                reason: Failure::IoError { stage: IoStage::RemoveExisting, cause },
            },
            _ => InstallState::RemovingOld { tool, version, asset_name },
        },
        InstallState::Extracting { tool, version, asset_name, format } => match event {
            InstallEvent::Extracted(Ok(_)) => InstallState::CleaningUp {
                tool,
                version,
                asset_name,
                failure: None,
            },
            InstallEvent::Extracted(Err(failure)) => InstallState::CleaningUp {
                tool,
                version,
                asset_name,
                failure: Some(failure),
            },
            _ => InstallState::Extracting { tool, version, asset_name, format },
        },
        InstallState::CleaningUp { tool, version, asset_name, failure } => match event {
            InstallEvent::TempRemoved { removed } => match failure {
                Some(reason) => InstallState::Failed { reason },
                None => InstallState::FixingUp { tool, version },
            },
            _ => InstallState::CleaningUp { tool, version, asset_name, failure },
        },
        InstallState::FixingUp { tool, version } => match event {
            InstallEvent::QuarantineCleared { cleared } => InstallState::Loading { tool, version },
            _ => InstallState::FixingUp { tool, version },
        },
        InstallState::Loading { tool, version } => match event {
            InstallEvent::ConfigLoaded(config) => {
                let mut config = config;
                config.insert(tool.descriptor().id.to_owned(), version.clone());
                InstallState::Persisting { tool, version, config }
            },
            _ => InstallState::Loading { tool, version },
        },
        InstallState::Persisting { tool, version, config } => match event {
            InstallEvent::ConfigSaved(Ok(_)) => InstallState::Done { version },
            InstallEvent::ConfigSaved(Err(cause)) => InstallState::Failed {
                reason: Failure::ConfigSaveError { cause },
            },
            _ => InstallState::Persisting { tool, version, config },
        },
        InstallState::Done { version } => InstallState::Done { version },
        InstallState::Failed { reason } => InstallState::Failed { reason },
    }
}

/// Takes the outcome of the action performed last, and says where the install
/// stands now and what to do next.
pub fn install_step(state: InstallState, event: InstallEvent) -> (r: (InstallState, InstallAction))
    ensures
        r.0@ == install_next(state@, event@),
        r.1@ == pending_action(r.0@),
{
    let next = advance(state, event);
    let action = install_action(&next);
    (next, action)
}

/// The run over `events` followed by `event` is the run over `events`, then one
/// more step.
pub proof fn lemma_run_push(
    state: InstallStateView,
    events: Seq<InstallEventView>,
    event: InstallEventView,
)
    ensures
        install_run(state, events.push(event)) == install_next(install_run(state, events), event),
{
    assert(events.push(event).drop_last() =~= events);
}

/// An install that has ended stays as it is, whatever is handed to it.
pub proof fn lemma_final_states_stay(state: InstallStateView, events: Seq<InstallEventView>)
    requires
        is_final(state),
    ensures
        install_run(state, events) == state,
    decreases events.len(),
{
    if events.len() > 0 {
        lemma_final_states_stay(state, events.drop_last());
    }
}

/// A run over two stretches of events is the run over the first, continued
/// over the second.
pub proof fn lemma_run_concat(
    state: InstallStateView,
    first: Seq<InstallEventView>,
    second: Seq<InstallEventView>,
)
    ensures
        install_run(state, first + second) == install_run(install_run(state, first), second),
    decreases second.len(),
{
    if second.len() > 0 {
        lemma_run_concat(state, first, second.drop_last());
        assert((first + second).drop_last() =~= first + second.drop_last());
    }
}

/// The actions that the host is asked for in the course of a run: the action of
/// the state the run starts in, then the action after each event.
pub open spec fn actions_asked(
    state: InstallStateView,
    events: Seq<InstallEventView>,
) -> Seq<InstallActionView> {
    Seq::new(events.len() + 1, |k: int| pending_action(install_run(state, events.take(k))))
}

/// Where the latest release lists nothing installable, the install fails for
/// want of a compatible asset as soon as the release arrives, and stays failed:
/// whatever the host hands in afterwards, the only action asked for is to
/// report that failure. So no download is attempted, and the record of
/// installed versions is not written.
pub proof fn lemma_nothing_installable_fails(
    tool: Tool,
    release: ReleaseView,
    later: Seq<InstallEventView>,
)
    requires
        forall|j: int|
            0 <= j < release.assets.len() ==> !is_installable(#[trigger] release.assets[j].name),
    ensures
        ({
            let events = seq![
                InstallEventView::DirsPrepared(Ok(())),
                InstallEventView::ReleaseFetched(Ok(release)),
            ] + later;
            let asked = actions_asked(install_initial(tool.id_text()), events);
            &&& asked[0] == InstallActionView::PrepareDirs
            &&& asked[1] == (InstallActionView::FetchRelease { repo: tool.repository_text() })
            &&& forall|k: int|
                2 <= k < asked.len() ==> #[trigger] asked[k] == (InstallActionView::Finish {
                    result: ActionResultView {
                        success: false,
                        message: "No compatible download found in release"@,
                    },
                })
        }),
{
    let start = install_initial(tool.id_text());
    let prepared = InstallEventView::DirsPrepared(Ok(()));
    let fetched = InstallEventView::ReleaseFetched(Ok(release));
    let head = seq![prepared, fetched];
    let events = head + later;
    let asked = actions_asked(start, events);
    let failed = InstallStateView::Failed { reason: FailureView::NoCompatibleAsset };
    lemma_tool_id_round_trip(tool);
    lemma_none_iff_nothing_installable(release.assets);
    let e0 = Seq::<InstallEventView>::empty();
    let e1 = e0.push(prepared);
    lemma_run_push(start, e0, prepared);
    lemma_run_push(start, e1, fetched);
    assert(e1.push(fetched) =~= head);
    assert(events.take(1) =~= e1);
    assert forall|k: int| 2 <= k < asked.len() implies #[trigger] asked[k] == pending_action(
        failed,
    ) by {
        assert(events.take(k) =~= head + later.take(k - 2));
        lemma_run_concat(start, head, later.take(k - 2));
        lemma_final_states_stay(failed, later.take(k - 2));
    }
}

/// The archive has been unpacked, and nothing failed on the way.
pub open spec fn past_unpacking(state: InstallStateView) -> bool {
    ||| state matches InstallStateView::CleaningUp { failure, .. } && failure is None
    ||| state is FixingUp
    ||| state is Loading
    ||| state is Persisting
    ||| state is Done
}

/// Among `events` is the report that the archive was unpacked.
pub open spec fn unpacked_well(events: Seq<InstallEventView>) -> bool {
    exists|i: int| 0 <= i < events.len() && is_unpacked(#[trigger] events[i])
}

/// `event` reports that the archive was unpacked.
pub open spec fn is_unpacked(event: InstallEventView) -> bool {
    event matches InstallEventView::Extracted(Ok(_))
}

/// The record of installed versions is written only for a bundle that is in
/// place: in every run, whatever the host hands in, the install asks for the
/// record to be written, and ends well, only after the host has reported that
/// the archive was unpacked.
pub proof fn lemma_record_follows_unpacking(id: Seq<char>, events: Seq<InstallEventView>)
    ensures
        past_unpacking(install_run(install_initial(id), events)) ==> unpacked_well(events),
        pending_action(install_run(install_initial(id), events)) is SaveConfig ==> unpacked_well(
            events,
        ),
    decreases events.len(),
{
    if events.len() > 0 {
        lemma_record_follows_unpacking(id, events.drop_last());
    }
}

/// An earlier bundle that cannot be removed ends the install at once: whatever
/// the host hands in afterwards, nothing is unpacked over the old files.
pub proof fn lemma_old_bundle_is_never_mixed(
    tool: Tool,
    version: Seq<char>,
    asset_name: Seq<char>,
    cause: Seq<char>,
    later: Seq<InstallEventView>,
)
    ensures
        install_run(
            InstallStateView::RemovingOld { tool, version, asset_name },
            seq![InstallEventView::OldRemoved(Err(cause))] + later,
        ) == (InstallStateView::Failed {
            reason: FailureView::IoError { stage: IoStage::RemoveExisting, cause },
        }),
{
    let start = InstallStateView::RemovingOld { tool, version, asset_name };
    let first = seq![InstallEventView::OldRemoved(Err(cause))];
    lemma_run_push(start, Seq::empty(), first[0]);
    lemma_run_concat(start, first, later);
    lemma_final_states_stay(install_run(start, first), later);
}

/// However unpacking ends, the temporary file is removed next. A failure of
/// unpacking is reported only after that, whether or not the file could be
/// removed; after unpacking that went well the install goes on.
pub proof fn lemma_temporary_file_is_removed(
    tool: Tool,
    version: Seq<char>,
    asset_name: Seq<char>,
    format: ArchiveFormat,
    outcome: Result<(), FailureView>,
    removed: bool,
)
    ensures
        ({
            let extracting = InstallStateView::Extracting { tool, version, asset_name, format };
            let unpacking_over = install_next(extracting, InstallEventView::Extracted(outcome));
            let last = install_next(unpacking_over, InstallEventView::TempRemoved { removed });
            &&& pending_action(unpacking_over) == (InstallActionView::RemoveTemp {
                file_name: asset_name,
            })
            &&& outcome matches Err(reason) ==> last == (InstallStateView::Failed { reason })
            &&& outcome is Ok ==> last == (InstallStateView::FixingUp { tool, version })
        }),
{
}

/// A download that fails may leave part of the asset behind, so the temporary
/// file is removed next. Only after that is the failure of the download
/// reported, whether or not the file could be removed, and it stays reported
/// whatever the host hands in afterwards: the earlier bundle is not touched,
/// nothing is unpacked, and the record of installed versions is not written.
pub proof fn lemma_failed_download_is_cleaned_up(
    tool: Tool,
    version: Seq<char>,
    asset: AssetView,
    failure: FailureView,
    removed: bool,
    later: Seq<InstallEventView>,
)
    ensures
        ({
            let downloading = InstallStateView::Downloading { tool, version, asset };
            let events = seq![
                InstallEventView::Downloaded(Err(failure)),
                InstallEventView::TempRemoved { removed },
            ] + later;
            let asked = actions_asked(downloading, events);
            &&& asked[0] == (InstallActionView::Download { url: asset.url, file_name: asset.name })
            &&& asked[1] == (InstallActionView::RemoveTemp { file_name: asset.name })
            &&& forall|k: int|
                2 <= k < asked.len() ==> #[trigger] asked[k] == (InstallActionView::Finish {
                    result: ActionResultView { success: false, message: failure.message() },
                })
        }),
{
    let start = InstallStateView::Downloading { tool, version, asset };
    let download_failed = InstallEventView::Downloaded(Err(failure));
    let cleaned = InstallEventView::TempRemoved { removed };
    let head = seq![download_failed, cleaned];
    let events = head + later;
    let asked = actions_asked(start, events);
    let failed = InstallStateView::Failed { reason: failure };
    let e0 = Seq::<InstallEventView>::empty();
    let e1 = e0.push(download_failed);
    lemma_run_push(start, e0, download_failed);
    lemma_run_push(start, e1, cleaned);
    assert(e1.push(cleaned) =~= head);
    assert(events.take(0) =~= e0);
    assert(events.take(1) =~= e1);
    assert forall|k: int| 2 <= k < asked.len() implies #[trigger] asked[k] == pending_action(
        failed,
    ) by {
        assert(events.take(k) =~= head + later.take(k - 2));
        lemma_run_concat(start, head, later.take(k - 2));
        lemma_final_states_stay(failed, later.take(k - 2));
    }
}

/// Where the record cannot be written, the install reports failure, with the
/// cause, although the bundle is in place.
pub proof fn lemma_save_failure_is_reported(
    tool: Tool,
    version: Seq<char>,
    config: Map<Seq<char>, Seq<char>>,
    cause: Seq<char>,
)
    ensures
        install_next(
            InstallStateView::Persisting { tool, version, config },
            InstallEventView::ConfigSaved(Err(cause)),
        ) == (InstallStateView::Failed { reason: FailureView::ConfigSaveError { cause } }),
        pending_action(
            InstallStateView::Failed { reason: FailureView::ConfigSaveError { cause } },
        ) == (InstallActionView::Finish {
            result: ActionResultView { success: false, message: "Failed to save config: "@ + cause },
        }),
{
}

/// An install in which everything succeeds but the writing of the record ends
/// in failure: the archive is unpacked, and yet the caller is told that the
/// record could not be written.
pub proof fn lemma_unrecorded_install_fails(
    tool: Tool,
    release: ReleaseView,
    had_bundle: bool,
    removed: bool,
    cleared: bool,
    loaded: Map<Seq<char>, Seq<char>>,
    cause: Seq<char>,
)
    requires
        preferred_asset(release.assets) is Some,
    ensures
        ({
            let events = smooth_events(release, had_bundle, removed, cleared, loaded).push(
                InstallEventView::ConfigSaved(Err(cause)),
            );
            let end = install_run(install_initial(tool.id_text()), events);
            &&& unpacked_well(events)
            &&& end == (InstallStateView::Failed { reason: FailureView::ConfigSaveError { cause } })
            &&& pending_action(end) == (InstallActionView::Finish {
                result: ActionResultView {
                    success: false,
                    message: "Failed to save config: "@ + cause,
                },
            })
        }),
{
    let smooth = smooth_events(release, had_bundle, removed, cleared, loaded);
    let failed = InstallEventView::ConfigSaved(Err(cause));
    lemma_smooth_install(tool, release, had_bundle, removed, cleared, loaded);
    lemma_run_push(install_initial(tool.id_text()), smooth, failed);
    lemma_record_follows_unpacking(tool.id_text(), smooth);
    let i = choose|i: int| 0 <= i < smooth.len() && is_unpacked(#[trigger] smooth[i]);
    assert(smooth.push(failed)[i] == smooth[i]);
}

/// The asset that is chosen from a release can always be unpacked: its name
/// announces a format, and a packed application in a tar stream is unpacked as
/// one.
pub proof fn lemma_chosen_asset_has_format(assets: Seq<AssetView>)
    requires
        preferred_asset(assets) is Some,
    ensures
        0 <= preferred_asset(assets)->0 < assets.len(),
        format_of(assets[preferred_asset(assets)->0].name) is Some,
{
    lemma_preference_order(assets);
    lemma_installable_has_format(assets[preferred_asset(assets)->0].name);
}

/// The outcomes of an install in which every action succeeds: the release
/// arrives, the asset is fetched, an earlier bundle, where there is one, is
/// removed, the archive is unpacked, and the record, read as `loaded`, is
/// written.
pub open spec fn smooth_events(
    release: ReleaseView,
    had_bundle: bool,
    removed: bool,
    cleared: bool,
    loaded: Map<Seq<char>, Seq<char>>,
) -> Seq<InstallEventView> {
    let fetched = seq![
        InstallEventView::DirsPrepared(Ok(())),
        InstallEventView::ReleaseFetched(Ok(release)),
        InstallEventView::Downloaded(Ok(())),
        InstallEventView::BundleProbed(had_bundle),
    ];
    let cleared_way = if had_bundle {
        seq![InstallEventView::OldRemoved(Ok(()))]
    } else {
        Seq::empty()
    };
    let unpacked = seq![
        InstallEventView::Extracted(Ok(())),
        InstallEventView::TempRemoved { removed },
        InstallEventView::QuarantineCleared { cleared },
        InstallEventView::ConfigLoaded(loaded),
    ];
    fetched + cleared_way + unpacked
}

/// An install in which every action succeeds, for a release that lists
/// something installable, asks for the record to be written with the release's
/// version under the tool's identifier and all other lines as they were; once
/// that is done, it ends well with that version. Whether the temporary file
/// could be removed and the download mark cleared makes no difference.
pub proof fn lemma_smooth_install(
    tool: Tool,
    release: ReleaseView,
    had_bundle: bool,
    removed: bool,
    cleared: bool,
    loaded: Map<Seq<char>, Seq<char>>,
)
    requires
        preferred_asset(release.assets) is Some,
    ensures
        install_run(
            install_initial(tool.id_text()),
            smooth_events(release, had_bundle, removed, cleared, loaded),
        ) == (InstallStateView::Persisting {
            tool,
            version: version_text(release.tag_name),
            config: loaded.insert(tool.id_text(), version_text(release.tag_name)),
        }),
        install_run(
            install_initial(tool.id_text()),
            smooth_events(release, had_bundle, removed, cleared, loaded).push(
                InstallEventView::ConfigSaved(Ok(())),
            ),
        ) == (InstallStateView::Done { version: version_text(release.tag_name) }),
        pending_action(InstallStateView::Done { version: version_text(release.tag_name) }) == (
        InstallActionView::Finish {
            result: ActionResultView {
                success: true,
                message: "Installed version "@ + version_text(release.tag_name),
            },
        }),
{
    let start = install_initial(tool.id_text());
    let version = version_text(release.tag_name);
    let asset = release.assets[preferred_asset(release.assets)->0];
    lemma_tool_id_round_trip(tool);
    lemma_chosen_asset_has_format(release.assets);
    let format = format_of(asset.name)->0;

    let e0 = Seq::<InstallEventView>::empty();
    let e1 = e0.push(InstallEventView::DirsPrepared(Ok(())));
    lemma_run_push(start, e0, InstallEventView::DirsPrepared(Ok(())));
    let e2 = e1.push(InstallEventView::ReleaseFetched(Ok(release)));
    lemma_run_push(start, e1, InstallEventView::ReleaseFetched(Ok(release)));
    let e3 = e2.push(InstallEventView::Downloaded(Ok(())));
    lemma_run_push(start, e2, InstallEventView::Downloaded(Ok(())));
    let e4 = e3.push(InstallEventView::BundleProbed(had_bundle));
    lemma_run_push(start, e3, InstallEventView::BundleProbed(had_bundle));
    let e5 = if had_bundle {
        e4.push(InstallEventView::OldRemoved(Ok(())))
    } else {
        e4
    };
    if had_bundle {
        lemma_run_push(start, e4, InstallEventView::OldRemoved(Ok(())));
    }
    assert(install_run(start, e5) == (InstallStateView::Extracting {
        tool,
        version,
        asset_name: asset.name,
        format,
    }));
    let e6 = e5.push(InstallEventView::Extracted(Ok(())));
    lemma_run_push(start, e5, InstallEventView::Extracted(Ok(())));
    let e7 = e6.push(InstallEventView::TempRemoved { removed });
    lemma_run_push(start, e6, InstallEventView::TempRemoved { removed });
    let e8 = e7.push(InstallEventView::QuarantineCleared { cleared });
    lemma_run_push(start, e7, InstallEventView::QuarantineCleared { cleared });
    let e9 = e8.push(InstallEventView::ConfigLoaded(loaded));
    lemma_run_push(start, e8, InstallEventView::ConfigLoaded(loaded));
    assert(e9 =~= smooth_events(release, had_bundle, removed, cleared, loaded));
    lemma_run_push(start, e9, InstallEventView::ConfigSaved(Ok(())));
}

/// Updating twice in a row against an unchanged release records the same
/// version both times and ends well both times: the second run finds the
/// bundle and the line of the first, and writes the record as the first left
/// it.
pub proof fn lemma_update_twice(
    tool: Tool,
    release: ReleaseView,
    had_bundle: bool,
    loaded: Map<Seq<char>, Seq<char>>,
)
    requires
        preferred_asset(release.assets) is Some,
    ensures
        ({
            let version = version_text(release.tag_name);
            let saved = loaded.insert(tool.id_text(), version);
            let first = smooth_events(release, had_bundle, true, true, loaded);
            let second = smooth_events(release, true, true, true, saved);
            let done = InstallEventView::ConfigSaved(Ok(()));
            &&& install_run(install_initial(tool.id_text()), first) == (
            InstallStateView::Persisting { tool, version, config: saved })
            &&& install_run(install_initial(tool.id_text()), second) == (
            InstallStateView::Persisting { tool, version, config: saved })
            &&& install_run(install_initial(tool.id_text()), first.push(done)) == (
            InstallStateView::Done { version })
            &&& install_run(install_initial(tool.id_text()), second.push(done)) == (
            InstallStateView::Done { version })
        }),
{
    let version = version_text(release.tag_name);
    let saved = loaded.insert(tool.id_text(), version);
    lemma_smooth_install(tool, release, had_bundle, true, true, loaded);
    lemma_smooth_install(tool, release, true, true, true, saved);
    assert(saved.insert(tool.id_text(), version) =~= saved);
}

/// Once an install has recorded a release's version and the bundle is in
/// place, the tool is reported as installed, in that version: the release's
/// tag without leading `v`s. Against the same release no update is announced.
pub proof fn lemma_status_after_install(
    tool: Tool,
    release: ReleaseView,
    loaded: Map<Seq<char>, Seq<char>>,
    bundles: Set<Tool>,
    latest: Result<ReleaseView, FailureView>,
)
    requires
        bundles.contains(tool),
    ensures
        ({
            let version = version_text(release.tag_name);
            let saved = loaded.insert(tool.id_text(), version);
            let status = tool_status(tool.id_text(), saved, bundles, latest);
            &&& status.installed
            &&& status.installed_version == Some(version)
            &&& latest == Ok::<ReleaseView, FailureView>(release) ==> !status.has_update
                && status.latest_version == Some(version) && status.error is None
        }),
{
    lemma_tool_id_round_trip(tool);
}

} // verus!
