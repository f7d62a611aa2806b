//! Unpacking a downloaded archive, one step at a time.
//!
//! Each format has its own walk. A tar stream is opened and unpacked in one go.
//! A zip archive is read entry by entry: a directory entry is created, a file
//! entry gets its parent directories, its file and its contents, and either
//! gets the permissions stored with it. A disk image is mounted, the volume it
//! was mounted at is looked up, the bundle is copied out, and the image is
//! unmounted again whether or not the copy went well.

use crate::archive::ArchiveFormat;
use crate::failure::{attempt_view, failure_view, ExtractStage, Failure, FailureView};
use crate::text::{
    after_first, before_first, chars_of, ends_with_char, find_first, find_line_with,
    first_line_with, text_of,
};
use vstd::prelude::*;
use vstd::slice::slice_subrange;

verus! {

/// The volume that a listing of mounted images names first: in the first line
/// that holds `/Volumes/`, what stands between the first `<string>` and the
/// next `<string>` or `</string>`, or the end of the line.
///
/// The listing covers every mounted image, so the volume found is that of the
/// image just mounted only while no other image is mounted before it.
pub open spec fn mount_point_in(listing: Seq<char>) -> Option<Seq<char>> {
    match first_line_with(listing, "/Volumes/"@, 0) {
        None => None,
        Some(line) => match after_first(line, "<string>"@) {
            None => None,
            Some(rest) => Some(before_first(before_first(rest, "<string>"@), "</string>"@)),
        },
    }
}

/// Looks up the volume that a disk image was mounted at, in the listing of
/// mounted images.
pub fn find_mount_point(listing: &str) -> (r: Option<String>)
    ensures
        text_of(r) == mount_point_in(listing@),
{
    let text = chars_of(listing);
    let volumes = chars_of("/Volumes/");
    let opening = chars_of("<string>");
    let closing = chars_of("</string>");
    let span = match find_line_with(text.as_slice(), volumes.as_slice()) {
        None => {
            return None;
        },
        Some(span) => span,
    };
    let line = slice_subrange(text.as_slice(), span.start, span.end);
    let at = match find_first(line, opening.as_slice()) {
        None => {
            return None;
        },
        Some(at) => at,
    };
    let skipped: usize = at + opening.len();
    let rest = slice_subrange(line, skipped, line.len());
    let upto: usize = match find_first(rest, opening.as_slice()) {
        Some(next) => next,
        None => rest.len(),
    };
    let value = slice_subrange(rest, 0, upto);
    let end: usize = match find_first(value, closing.as_slice()) {
        Some(close) => close,
        None => value.len(),
    };
    let from: usize = span.start + skipped;
    let to: usize = from + end;
    proof {
        assert(rest@.subrange(0, rest@.len() as int) =~= rest@);
    }
    Some(listing.substring_char(from, to).to_owned())
}

/// Whether the name of a zip entry stands for a directory.
pub open spec fn is_directory_name(name: Seq<char>) -> bool {
    name.len() > 0 && name.last() == '/'
}

/// Where unpacking stands.
#[derive(Debug, PartialEq, Eq)]
pub enum ExtractState {
    /// The tar stream is being opened.
    OpeningTar,
    /// The tar stream is being unpacked.
    UnpackingTar,
    /// The zip archive is being opened.
    OpeningZip,
    /// The directory of the zip archive is being read.
    ReadingZip,
    /// Entry `index` of `count` is being looked up.
    ReadingEntry { index: usize, count: usize },
    /// The directory that entry `index` stands for is being created.
    MakingDir { index: usize, count: usize, name: String, mode: Option<u32> },
    /// The directories above the file of entry `index` are being created.
    MakingParent { index: usize, count: usize, name: String, mode: Option<u32> },
    /// The file of entry `index` is being created.
    CreatingFile { index: usize, count: usize, name: String, mode: Option<u32> },
    /// The contents of entry `index` are being written.
    WritingFile { index: usize, count: usize, name: String, mode: Option<u32> },
    /// What entry `index` left on disk is being given its stored permissions.
    SettingMode { index: usize, count: usize, name: String, bits: u32 },
    /// The disk image is being mounted.
    Mounting { app_name: String },
    /// The mounted images are being listed.
    Querying { app_name: String },
    /// The bundle is being copied out of the mounted image.
    Copying { app_name: String, mount_point: String },
    /// The image is being unmounted, after the copy ended with `failure` or,
    /// where that is `None`, well.
    Unmounting { mount_point: String, failure: Option<Failure> },
    /// The archive is unpacked.
    Done,
    /// Unpacking was given up.
    Failed { reason: Failure },
}

/// The outcome of the action that the host performed last.
#[derive(Debug, PartialEq, Eq)]
pub enum ExtractEvent {
    /// The action succeeded.
    Completed,
    /// The action could not be carried out.
    Failed { cause: String },
    /// A helper process ran, and ended well or not.
    Exited { success: bool },
    /// A helper process ran, and this is what it wrote.
    Output { text: String },
    /// The zip archive holds `count` entries.
    Counted { count: usize },
    /// The entry looked up: its name, and its permissions if it stores any.
    Entry { name: String, unix_mode: Option<u32> },
}

/// What the host is to do next.
#[derive(Debug, PartialEq, Eq)]
pub enum ExtractAction {
    /// Open the archive file.
    OpenArchive,
    /// Decompress the opened stream and unpack it into the destination.
    UnpackTar,
    /// Read the directory of the opened zip archive, and count its entries.
    ReadZipDirectory,
    /// Look up entry `index`.
    ReadEntry { index: usize },
    /// Create the directory `name` below the destination, with the directories
    /// above it.
    CreateDir { name: String },
    /// Create the directories above `name` below the destination.
    CreateParentDir { name: String },
    /// Create the file `name` below the destination.
    CreateFile { name: String },
    /// Write the contents of entry `index` to the file `name`.
    WriteFile { index: usize, name: String },
    /// Give `name` the permissions `bits`, where the system knows such
    /// permissions; a failure to do so is of no consequence.
    SetMode { name: String, bits: u32 },
    /// Mount the disk image, quietly and without showing it to the user.
    MountImage,
    /// List the mounted images.
    QueryMounts,
    /// Copy the bundle `app_name` from `mount_point` into the destination.
    CopyBundle { mount_point: String, app_name: String },
    /// Unmount the image at `mount_point`; a failure to do so is of no
    /// consequence.
    UnmountImage { mount_point: String },
    /// Nothing is left to do: unpacking ended with `outcome`.
    Finish { outcome: Result<(), Failure> },
}

/// An `ExtractState` with its texts as sequences of characters and its counts
/// as integers.
pub enum ExtractStateView {
    OpeningTar,
    UnpackingTar,
    OpeningZip,
    ReadingZip,
    ReadingEntry { index: int, count: int },
    MakingDir { index: int, count: int, name: Seq<char>, mode: Option<u32> },
    MakingParent { index: int, count: int, name: Seq<char>, mode: Option<u32> },
    CreatingFile { index: int, count: int, name: Seq<char>, mode: Option<u32> },
    WritingFile { index: int, count: int, name: Seq<char>, mode: Option<u32> },
    SettingMode { index: int, count: int, name: Seq<char>, bits: u32 },
    Mounting { app_name: Seq<char> },
    Querying { app_name: Seq<char> },
    Copying { app_name: Seq<char>, mount_point: Seq<char> },
    Unmounting { mount_point: Seq<char>, failure: Option<FailureView> },
    Done,
    Failed { reason: FailureView },
}

/// An `ExtractEvent` with its texts as sequences of characters.
pub enum ExtractEventView {
    Completed,
    Failed { cause: Seq<char> },
    Exited { success: bool },
    Output { text: Seq<char> },
    Counted { count: int },
    Entry { name: Seq<char>, unix_mode: Option<u32> },
}

/// An `ExtractAction` with its texts as sequences of characters.
pub enum ExtractActionView {
    OpenArchive,
    UnpackTar,
    ReadZipDirectory,
    ReadEntry { index: int },
    CreateDir { name: Seq<char> },
    CreateParentDir { name: Seq<char> },
    CreateFile { name: Seq<char> },
    WriteFile { index: int, name: Seq<char> },
    SetMode { name: Seq<char>, bits: u32 },
    MountImage,
    QueryMounts,
    CopyBundle { mount_point: Seq<char>, app_name: Seq<char> },
    UnmountImage { mount_point: Seq<char> },
    Finish { outcome: Result<(), FailureView> },
}

impl View for ExtractState {
    type V = ExtractStateView;

    open spec fn view(&self) -> ExtractStateView {
        match *self {
            ExtractState::OpeningTar => ExtractStateView::OpeningTar,
            ExtractState::UnpackingTar => ExtractStateView::UnpackingTar,
            ExtractState::OpeningZip => ExtractStateView::OpeningZip,
            ExtractState::ReadingZip => ExtractStateView::ReadingZip,
            ExtractState::ReadingEntry { index, count } => ExtractStateView::ReadingEntry {
                index: index as int,
                count: count as int,
            },
            ExtractState::MakingDir { index, count, name, mode } => ExtractStateView::MakingDir {
                index: index as int,
                count: count as int,
                name: name@,
                mode,
            },
            ExtractState::MakingParent {
                index,
                count,
                name,
                mode,
            } => ExtractStateView::MakingParent {
                index: index as int,
                count: count as int,
                name: name@,
                mode,
            },
            ExtractState::CreatingFile {
                index,
                count,
                name,
                mode,
            } => ExtractStateView::CreatingFile {
                index: index as int,
                count: count as int,
                name: name@,
                mode,
            },
            ExtractState::WritingFile { index, count, name, mode } => ExtractStateView::WritingFile {
                index: index as int,
                count: count as int,
                name: name@,
                mode,
            },
            ExtractState::SettingMode { index, count, name, bits } => ExtractStateView::SettingMode {
                index: index as int,
                count: count as int,
                name: name@,
                bits,
            },
            ExtractState::Mounting { app_name } => ExtractStateView::Mounting {
                app_name: app_name@,
            },
            ExtractState::Querying { app_name } => ExtractStateView::Querying {
                app_name: app_name@,
            },
            ExtractState::Copying { app_name, mount_point } => ExtractStateView::Copying {
                app_name: app_name@,
                mount_point: mount_point@,
            },
            ExtractState::Unmounting { mount_point, failure } => ExtractStateView::Unmounting {
                mount_point: mount_point@,
                failure: failure_view(failure),
            },
            ExtractState::Done => ExtractStateView::Done,
            ExtractState::Failed { reason } => ExtractStateView::Failed { reason: reason@ },
        }
    }
}

impl View for ExtractEvent {
    type V = ExtractEventView;

    open spec fn view(&self) -> ExtractEventView {
        match *self {
            ExtractEvent::Completed => ExtractEventView::Completed,
            ExtractEvent::Failed { cause } => ExtractEventView::Failed { cause: cause@ },
            ExtractEvent::Exited { success } => ExtractEventView::Exited { success },
            ExtractEvent::Output { text } => ExtractEventView::Output { text: text@ },
            ExtractEvent::Counted { count } => ExtractEventView::Counted { count: count as int },
            ExtractEvent::Entry { name, unix_mode } => ExtractEventView::Entry {
                name: name@,
                unix_mode,
            },
        }
    }
}

impl View for ExtractAction {
    type V = ExtractActionView;

    open spec fn view(&self) -> ExtractActionView {
        match *self {
            ExtractAction::OpenArchive => ExtractActionView::OpenArchive,
            ExtractAction::UnpackTar => ExtractActionView::UnpackTar,
            ExtractAction::ReadZipDirectory => ExtractActionView::ReadZipDirectory,
            ExtractAction::ReadEntry { index } => ExtractActionView::ReadEntry {
                index: index as int,
            },
            ExtractAction::CreateDir { name } => ExtractActionView::CreateDir { name: name@ },
            ExtractAction::CreateParentDir { name } => ExtractActionView::CreateParentDir {
                name: name@,
            },
            ExtractAction::CreateFile { name } => ExtractActionView::CreateFile { name: name@ },
            ExtractAction::WriteFile { index, name } => ExtractActionView::WriteFile {
                index: index as int,
                name: name@,
            },
            ExtractAction::SetMode { name, bits } => ExtractActionView::SetMode { name: name@, bits },
            ExtractAction::MountImage => ExtractActionView::MountImage,
            ExtractAction::QueryMounts => ExtractActionView::QueryMounts,
            ExtractAction::CopyBundle { mount_point, app_name } => ExtractActionView::CopyBundle {
                mount_point: mount_point@,
                app_name: app_name@,
            },
            ExtractAction::UnmountImage { mount_point } => ExtractActionView::UnmountImage {
                mount_point: mount_point@,
            },
            ExtractAction::Finish { outcome } => ExtractActionView::Finish {
                outcome: attempt_view(outcome),
            },
        }
    }
}

/// The failure of one part of unpacking an archive of `format`.
pub open spec fn extract_failure(
    format: ArchiveFormat,
    stage: ExtractStage,
    cause: Option<Seq<char>>,
) -> ExtractStateView {
    ExtractStateView::Failed { reason: FailureView::ExtractError { format, stage, cause } }
}

/// The state in which unpacking an archive of `format` begins. `app_name` is the
/// bundle to copy out of a disk image.
pub open spec fn extract_initial(format: ArchiveFormat, app_name: Seq<char>) -> ExtractStateView {
    match format {
        ArchiveFormat::TarGz => ExtractStateView::OpeningTar,
        ArchiveFormat::Zip => ExtractStateView::OpeningZip,
        ArchiveFormat::Dmg => ExtractStateView::Mounting { app_name },
    }
}

/// The state once entry `index` of `count` is dealt with: the next entry, or
/// the end.
pub open spec fn after_entry(index: int, count: int) -> ExtractStateView {
    if index + 1 < count {
        ExtractStateView::ReadingEntry { index: index + 1, count }
    } else {
        ExtractStateView::Done
    }
}

/// The state once entry `index` is on disk: its permissions are set where it
/// stores any.
pub open spec fn after_written(
    index: int,
    count: int,
    name: Seq<char>,
    mode: Option<u32>,
) -> ExtractStateView {
    match mode {
        Some(bits) => ExtractStateView::SettingMode { index, count, name, bits },
        None => after_entry(index, count),
    }
}

/// The state that follows `state` on `event`. An event that does not answer
/// the action that `state` asks for changes nothing.
pub open spec fn extract_next(state: ExtractStateView, event: ExtractEventView) -> ExtractStateView {
    match state {
        ExtractStateView::OpeningTar => match event {
            ExtractEventView::Completed => ExtractStateView::UnpackingTar,
            ExtractEventView::Failed { cause } => extract_failure(
                ArchiveFormat::TarGz,
                ExtractStage::OpenArchive,
                Some(cause),
            ),
            _ => state,
        },
        ExtractStateView::UnpackingTar => match event {
            ExtractEventView::Completed => ExtractStateView::Done,
            ExtractEventView::Failed { cause } => extract_failure(
                ArchiveFormat::TarGz,
                ExtractStage::Unpack,
                Some(cause),
            ),
            _ => state,
        },
        ExtractStateView::OpeningZip => match event {
            ExtractEventView::Completed => ExtractStateView::ReadingZip,
            ExtractEventView::Failed { cause } => extract_failure(
                ArchiveFormat::Zip,
                ExtractStage::OpenArchive,
                Some(cause),
            ),
            _ => state,
        },
        ExtractStateView::ReadingZip => match event {
            ExtractEventView::Counted { count } => if 0 < count {
                ExtractStateView::ReadingEntry { index: 0, count }
            } else {
                ExtractStateView::Done
            },
            ExtractEventView::Failed { cause } => extract_failure(
                ArchiveFormat::Zip,
                ExtractStage::ReadZip,
                Some(cause),
            ),
            _ => state,
        },
        ExtractStateView::ReadingEntry { index, count } => match event {
            ExtractEventView::Entry { name, unix_mode } => if is_directory_name(name) {
                ExtractStateView::MakingDir { index, count, name, mode: unix_mode }
            } else {
                ExtractStateView::MakingParent { index, count, name, mode: unix_mode }
            },
            ExtractEventView::Failed { cause } => extract_failure(
                ArchiveFormat::Zip,
                ExtractStage::ReadZipEntry,
                Some(cause),
            ),
            _ => state,
        },
        ExtractStateView::MakingDir { index, count, name, mode } => match event {
            ExtractEventView::Completed => after_written(index, count, name, mode),
            ExtractEventView::Failed { cause } => extract_failure(
                ArchiveFormat::Zip,
                ExtractStage::CreateDirectory,
                Some(cause),
            ),
            _ => state,
        },
        ExtractStateView::MakingParent { index, count, name, mode } => match event {
            ExtractEventView::Completed => ExtractStateView::CreatingFile {
                index,
                count,
                name,
                mode,
            },
            ExtractEventView::Failed { cause } => extract_failure(
                ArchiveFormat::Zip,
                ExtractStage::CreateDirectory,
                Some(cause),
            ),
            _ => state,
        },
        ExtractStateView::CreatingFile { index, count, name, mode } => match event {
            ExtractEventView::Completed => ExtractStateView::WritingFile {
                index,
                count,
                name,
                mode,
            },
            ExtractEventView::Failed { cause } => extract_failure(
                ArchiveFormat::Zip,
                ExtractStage::CreateFile,
                Some(cause),
            ),
            _ => state,
        },
        ExtractStateView::WritingFile { index, count, name, mode } => match event {
            ExtractEventView::Completed => after_written(index, count, name, mode),
            ExtractEventView::Failed { cause } => extract_failure(
                ArchiveFormat::Zip,
                ExtractStage::WriteFile,
                Some(cause),
            ),
            _ => state,
        },
        ExtractStateView::SettingMode { index, count, name, bits } => match event {
            ExtractEventView::Completed => after_entry(index, count),
            ExtractEventView::Failed { cause } => after_entry(index, count),
            _ => state,
        },
        ExtractStateView::Mounting { app_name } => match event {
            ExtractEventView::Exited { success } => if success {
                ExtractStateView::Querying { app_name }
            } else {
                extract_failure(ArchiveFormat::Dmg, ExtractStage::MountImage, None)
            },
            ExtractEventView::Failed { cause } => extract_failure(
                ArchiveFormat::Dmg,
                ExtractStage::MountImage,
                Some(cause),
            ),
            _ => state,
        },
        ExtractStateView::Querying { app_name } => match event {
            ExtractEventView::Output { text } => match mount_point_in(text) {
                Some(mount_point) => ExtractStateView::Copying { app_name, mount_point },
                None => ExtractStateView::Failed { reason: FailureView::MountPointNotFound },
            },
            ExtractEventView::Failed { cause } => extract_failure(
                ArchiveFormat::Dmg,
                ExtractStage::QueryMounts,
                Some(cause),
            ),
            _ => state,
        },
        ExtractStateView::Copying { app_name, mount_point } => match event {
            ExtractEventView::Exited { success } => ExtractStateView::Unmounting {
                mount_point,
                failure: if success {
                    None
                } else {
                    Some(
                        FailureView::ExtractError {
                            format: ArchiveFormat::Dmg,
                            stage: ExtractStage::CopyApp,
                            cause: None,
                        },
                    )
                },
            },
            ExtractEventView::Failed { cause } => ExtractStateView::Unmounting {
                mount_point,
                failure: Some(
                    FailureView::ExtractError {
                        format: ArchiveFormat::Dmg,
                        stage: ExtractStage::CopyApp,
                        cause: Some(cause),
                    },
                ),
            },
            _ => state,
        },
        ExtractStateView::Unmounting { mount_point, failure } => match event {
            ExtractEventView::Exited { success } => after_unmount(failure),
            ExtractEventView::Failed { cause } => after_unmount(failure),
            _ => state,
        },
        ExtractStateView::Done => state,
        ExtractStateView::Failed { reason } => state,
    }
}

/// The state once the image is unmounted, or could not be: what the copy came
/// to.
pub open spec fn after_unmount(failure: Option<FailureView>) -> ExtractStateView {
    match failure {
        Some(reason) => ExtractStateView::Failed { reason },
        None => ExtractStateView::Done,
    }
}

/// The action that `state` asks for.
pub open spec fn extract_pending(state: ExtractStateView) -> ExtractActionView {
    match state {
        ExtractStateView::OpeningTar => ExtractActionView::OpenArchive,
        ExtractStateView::UnpackingTar => ExtractActionView::UnpackTar,
        ExtractStateView::OpeningZip => ExtractActionView::OpenArchive,
        ExtractStateView::ReadingZip => ExtractActionView::ReadZipDirectory,
        ExtractStateView::ReadingEntry { index, count } => ExtractActionView::ReadEntry { index },
        ExtractStateView::MakingDir { index, count, name, mode } => ExtractActionView::CreateDir {
            name,
        },
        ExtractStateView::MakingParent {
            index,
            count,
            name,
            mode,
        } => ExtractActionView::CreateParentDir { name },
        ExtractStateView::CreatingFile {
            index,
            count,
            name,
            mode,
        } => ExtractActionView::CreateFile { name },
        ExtractStateView::WritingFile { index, count, name, mode } => ExtractActionView::WriteFile {
            index,
            name,
        },
        ExtractStateView::SettingMode { index, count, name, bits } => ExtractActionView::SetMode {
            name,
            bits,
        },
        ExtractStateView::Mounting { app_name } => ExtractActionView::MountImage,
        ExtractStateView::Querying { app_name } => ExtractActionView::QueryMounts,
        ExtractStateView::Copying { app_name, mount_point } => ExtractActionView::CopyBundle {
            mount_point,
            app_name,
        },
        ExtractStateView::Unmounting { mount_point, failure } => ExtractActionView::UnmountImage {
            mount_point,
        },
        ExtractStateView::Done => ExtractActionView::Finish { outcome: Ok(()) },
        ExtractStateView::Failed { reason } => ExtractActionView::Finish { outcome: Err(reason) },
    }
}

/// The state reached from `state` by the events of `events`, in order.
pub open spec fn extract_run(state: ExtractStateView, events: Seq<ExtractEventView>) -> ExtractStateView
    decreases events.len(),
{
    if events.len() == 0 {
        state
    } else {
        extract_next(extract_run(state, events.drop_last()), events.last())
    }
}

/// The action that `state` asks for.
pub fn extract_action(state: &ExtractState) -> (action: ExtractAction)
    ensures
        action@ == extract_pending(state@),
{
    match state {
        ExtractState::OpeningTar => ExtractAction::OpenArchive,
        ExtractState::UnpackingTar => ExtractAction::UnpackTar,
        ExtractState::OpeningZip => ExtractAction::OpenArchive,
        ExtractState::ReadingZip => ExtractAction::ReadZipDirectory,
        ExtractState::ReadingEntry { index, count } => ExtractAction::ReadEntry { index: *index },
        ExtractState::MakingDir { index, count, name, mode } => ExtractAction::CreateDir {
            name: name.clone(),
        },
        ExtractState::MakingParent { index, count, name, mode } => ExtractAction::CreateParentDir {
            name: name.clone(),
        },
        ExtractState::CreatingFile { index, count, name, mode } => ExtractAction::CreateFile {
            name: name.clone(),
        },
        ExtractState::WritingFile { index, count, name, mode } => ExtractAction::WriteFile {
            index: *index,
            name: name.clone(),
        },
        ExtractState::SettingMode { index, count, name, bits } => ExtractAction::SetMode {
            name: name.clone(),
            bits: *bits,
        },
        ExtractState::Mounting { app_name } => ExtractAction::MountImage,
        ExtractState::Querying { app_name } => ExtractAction::QueryMounts,
        ExtractState::Copying { app_name, mount_point } => ExtractAction::CopyBundle {
            mount_point: mount_point.clone(),
            app_name: app_name.clone(),
        },
        ExtractState::Unmounting { mount_point, failure } => ExtractAction::UnmountImage {
            mount_point: mount_point.clone(),
        },
        ExtractState::Done => ExtractAction::Finish { outcome: Ok(()) },
        ExtractState::Failed { reason } => ExtractAction::Finish { outcome: Err(reason.clone()) },
    }
}

/// Begins unpacking an archive of `format`. `app_name` is the bundle to copy
/// out of a disk image.
pub fn extract_start(format: ArchiveFormat, app_name: &str) -> (r: (ExtractState, ExtractAction))
    ensures
        r.0@ == extract_initial(format, app_name@),
        r.1@ == extract_pending(r.0@),
{
    let state = match format {
        ArchiveFormat::TarGz => ExtractState::OpeningTar,
        ArchiveFormat::Zip => ExtractState::OpeningZip,
        ArchiveFormat::Dmg => ExtractState::Mounting { app_name: app_name.to_owned() },
    };
    let action = extract_action(&state);
    (state, action)
}

/// The failure of one part of unpacking an archive of `format`.
fn give_up(format: ArchiveFormat, stage: ExtractStage, cause: Option<String>) -> (next:
    ExtractState)
    ensures
        next@ == extract_failure(format, stage, text_of(cause)),
{
    ExtractState::Failed { reason: Failure::ExtractError { format, stage, cause } }
}

/// The state once entry `index` of `count` is dealt with.
fn next_entry(index: usize, count: usize) -> (next: ExtractState)
    ensures
        next@ == after_entry(index as int, count as int),
{
    if count > 0 && index < count - 1 {
        ExtractState::ReadingEntry { index: index + 1, count }
    } else {
        ExtractState::Done
    }
}

/// The state once entry `index` is on disk.
fn entry_written(index: usize, count: usize, name: String, mode: Option<u32>) -> (next:
    ExtractState)
    ensures
        next@ == after_written(index as int, count as int, name@, mode),
{
    match mode {
        Some(bits) => ExtractState::SettingMode { index, count, name, bits },
        None => next_entry(index, count),
    }
}

/// The state once the image is unmounted, or could not be.
fn unmounted(failure: Option<Failure>) -> (next: ExtractState)
    ensures
        next@ == after_unmount(failure_view(failure)),
{
    match failure {
        Some(reason) => ExtractState::Failed { reason },
        None => ExtractState::Done,
    }
}

/// The state that follows `state` on `event`.
fn advance(state: ExtractState, event: ExtractEvent) -> (next: ExtractState)
    ensures
        next@ == extract_next(state@, event@),
{
    match state {
        ExtractState::OpeningTar => match event {
            ExtractEvent::Completed => ExtractState::UnpackingTar,
            ExtractEvent::Failed { cause } => give_up(
                ArchiveFormat::TarGz,
                ExtractStage::OpenArchive,
                Some(cause),
            ),
            _ => ExtractState::OpeningTar,
        },
        ExtractState::UnpackingTar => match event {
            ExtractEvent::Completed => ExtractState::Done,
            ExtractEvent::Failed { cause } => give_up(
                ArchiveFormat::TarGz,
                ExtractStage::Unpack,
                Some(cause),
            ),
            _ => ExtractState::UnpackingTar,
        },
        ExtractState::OpeningZip => match event {
            ExtractEvent::Completed => ExtractState::ReadingZip,
            ExtractEvent::Failed { cause } => give_up(
                ArchiveFormat::Zip,
                ExtractStage::OpenArchive,
                Some(cause),
            ),
            _ => ExtractState::OpeningZip,
        },
        ExtractState::ReadingZip => match event {
            ExtractEvent::Counted { count } => if 0 < count {
                ExtractState::ReadingEntry { index: 0, count }
            } else {
                ExtractState::Done
            },
            ExtractEvent::Failed { cause } => give_up(
                ArchiveFormat::Zip,
                ExtractStage::ReadZip,
                Some(cause),
            ),
            _ => ExtractState::ReadingZip,
        },
        ExtractState::ReadingEntry { index, count } => match event {
            ExtractEvent::Entry { name, unix_mode } => if ends_with_char(name.as_str(), '/') {
                ExtractState::MakingDir { index, count, name, mode: unix_mode }
            } else {
                ExtractState::MakingParent { index, count, name, mode: unix_mode }
            },
            ExtractEvent::Failed { cause } => give_up(
                ArchiveFormat::Zip,
                ExtractStage::ReadZipEntry,
                Some(cause),
            ),
            _ => ExtractState::ReadingEntry { index, count },
        },
        ExtractState::MakingDir { index, count, name, mode } => match event {
            ExtractEvent::Completed => entry_written(index, count, name, mode),
            ExtractEvent::Failed { cause } => give_up(
                ArchiveFormat::Zip,
                ExtractStage::CreateDirectory,
                Some(cause),
            ),
            _ => ExtractState::MakingDir { index, count, name, mode },
        },
        ExtractState::MakingParent { index, count, name, mode } => match event {
            ExtractEvent::Completed => ExtractState::CreatingFile { index, count, name, mode },
            ExtractEvent::Failed { cause } => give_up(
                ArchiveFormat::Zip,
                ExtractStage::CreateDirectory,
                Some(cause),
            ),
            _ => ExtractState::MakingParent { index, count, name, mode },
        },
        ExtractState::CreatingFile { index, count, name, mode } => match event {
            ExtractEvent::Completed => ExtractState::WritingFile { index, count, name, mode },
            ExtractEvent::Failed { cause } => give_up(
                ArchiveFormat::Zip,
                ExtractStage::CreateFile,
                Some(cause),
            ),
            _ => ExtractState::CreatingFile { index, count, name, mode },
        },
        ExtractState::WritingFile { index, count, name, mode } => match event {
            ExtractEvent::Completed => entry_written(index, count, name, mode),
            ExtractEvent::Failed { cause } => give_up(
                ArchiveFormat::Zip,
                ExtractStage::WriteFile,
                Some(cause),
            ),
            _ => ExtractState::WritingFile { index, count, name, mode },
        },
        ExtractState::SettingMode { index, count, name, bits } => match event {
            ExtractEvent::Completed => next_entry(index, count),
            ExtractEvent::Failed { cause } => next_entry(index, count),
            _ => ExtractState::SettingMode { index, count, name, bits },
        },
        ExtractState::Mounting { app_name } => match event {
            ExtractEvent::Exited { success } => if success {
                ExtractState::Querying { app_name }
            } else {
                give_up(ArchiveFormat::Dmg, ExtractStage::MountImage, None)
            },
            ExtractEvent::Failed { cause } => give_up(
                ArchiveFormat::Dmg,
                ExtractStage::MountImage,
                Some(cause),
            ),
            _ => ExtractState::Mounting { app_name },
        },
        ExtractState::Querying { app_name } => match event {
            ExtractEvent::Output { text } => match find_mount_point(text.as_str()) {
                Some(mount_point) => ExtractState::Copying { app_name, mount_point },
                None => ExtractState::Failed { reason: Failure::MountPointNotFound },
            },
            ExtractEvent::Failed { cause } => give_up(
                ArchiveFormat::Dmg,
                ExtractStage::QueryMounts,
                Some(cause),
            ),
            _ => ExtractState::Querying { app_name },
        },
        ExtractState::Copying { app_name, mount_point } => match event {
            ExtractEvent::Exited { success } => ExtractState::Unmounting {
                mount_point,
                failure: if success {
                    None
                } else {
                    Some(
                        Failure::ExtractError {
                            format: ArchiveFormat::Dmg,
                            stage: ExtractStage::CopyApp,
                            cause: None,
                        },
                    )
                },
            },
            ExtractEvent::Failed { cause } => ExtractState::Unmounting {
                mount_point,
                failure: Some(
                    Failure::ExtractError {
                        format: ArchiveFormat::Dmg,
                        stage: ExtractStage::CopyApp,
                        cause: Some(cause),
                    },
                ),
            },
            _ => ExtractState::Copying { app_name, mount_point },
        },
        ExtractState::Unmounting { mount_point, failure } => match event {
            ExtractEvent::Exited { success } => unmounted(failure),
            ExtractEvent::Failed { cause } => unmounted(failure),
            _ => ExtractState::Unmounting { mount_point, failure },
        },
        ExtractState::Done => ExtractState::Done,
        ExtractState::Failed { reason } => ExtractState::Failed { reason },
    }
}

/// Takes the outcome of the action performed last, and says where unpacking
/// stands now and what to do next.
pub fn extract_step(state: ExtractState, event: ExtractEvent) -> (r: (ExtractState, ExtractAction))
    ensures
        r.0@ == extract_next(state@, event@),
        r.1@ == extract_pending(r.0@),
{
    let next = advance(state, event);
    let action = extract_action(&next);
    (next, action)
}

/// Whether unpacking has ended, well or not.
pub open spec fn is_final(state: ExtractStateView) -> bool {
    state is Done || state is Failed
}

/// Whether `event` reports the end of an attempt, as opposed to something
/// read.
pub open spec fn is_ending(event: ExtractEventView) -> bool {
    event is Exited || event is Failed
}

/// The run over `events` followed by `event` is the run over `events`, then one
/// more step.
pub proof fn lemma_run_push(
    state: ExtractStateView,
    events: Seq<ExtractEventView>,
    event: ExtractEventView,
)
    ensures
        extract_run(state, events.push(event)) == extract_next(extract_run(state, events), event),
{
    assert(events.push(event).drop_last() =~= events);
}

/// A run over two stretches of events is the run over the first, continued
/// over the second.
pub proof fn lemma_run_concat(
    state: ExtractStateView,
    first: Seq<ExtractEventView>,
    second: Seq<ExtractEventView>,
)
    ensures
        extract_run(state, first + second) == extract_run(extract_run(state, first), second),
    decreases second.len(),
{
    if second.len() > 0 {
        lemma_run_concat(state, first, second.drop_last());
        assert((first + second).drop_last() =~= first + second.drop_last());
    }
}

/// Unpacking that has ended stays as it is, whatever is handed to it.
pub proof fn lemma_final_states_stay(state: ExtractStateView, events: Seq<ExtractEventView>)
    requires
        is_final(state),
    ensures
        extract_run(state, events) == state,
    decreases events.len(),
{
    if events.len() > 0 {
        lemma_final_states_stay(state, events.drop_last());
    }
}

/// Where the listing of mounted images names no volume, unpacking fails for
/// want of a mount point, and no copy is attempted.
pub proof fn lemma_no_mount_point_no_copy(
    app_name: Seq<char>,
    listing: Seq<char>,
    later: Seq<ExtractEventView>,
)
    requires
        mount_point_in(listing) is None,
    ensures
        extract_run(
            ExtractStateView::Querying { app_name },
            seq![ExtractEventView::Output { text: listing }] + later,
        ) == (ExtractStateView::Failed { reason: FailureView::MountPointNotFound }),
        extract_pending(ExtractStateView::Failed { reason: FailureView::MountPointNotFound }) == (
        ExtractActionView::Finish { outcome: Err(FailureView::MountPointNotFound) }),
{
    let start = ExtractStateView::Querying { app_name };
    let first = seq![ExtractEventView::Output { text: listing }];
    lemma_run_push(start, Seq::empty(), first[0]);
    lemma_run_concat(start, first, later);
    lemma_final_states_stay(extract_run(start, first), later);
}

/// However the copy out of a mounted image ends, the image is unmounted next;
/// only then is the outcome of the copy reported, whatever came of the
/// unmounting.
pub proof fn lemma_image_is_unmounted(
    app_name: Seq<char>,
    mount_point: Seq<char>,
    copied: ExtractEventView,
    unmounted: ExtractEventView,
)
    requires
        is_ending(copied),
        is_ending(unmounted),
    ensures
        ({
            let copying = ExtractStateView::Copying { app_name, mount_point };
            let copy_over = extract_next(copying, copied);
            let last = extract_next(copy_over, unmounted);
            &&& copy_over is Unmounting
            &&& extract_pending(copy_over) == (ExtractActionView::UnmountImage { mount_point })
            &&& copied == (ExtractEventView::Exited { success: true }) <==> last is Done
            &&& copied == (ExtractEventView::Exited { success: false }) ==> last == extract_failure(
                ArchiveFormat::Dmg,
                ExtractStage::CopyApp,
                None,
            )
            &&& copied matches ExtractEventView::Failed { cause } ==> last == extract_failure(
                ArchiveFormat::Dmg,
                ExtractStage::CopyApp,
                Some(cause),
            )
        }),
{
}

/// What the host hands in while one entry of a zip archive is unpacked without
/// a failure: the entry, then one completion for a directory or three for a
/// file, then, where the entry stores permissions, the outcome `mode_set` of
/// setting them.
pub open spec fn entry_events(
    name: Seq<char>,
    unix_mode: Option<u32>,
    mode_set: ExtractEventView,
) -> Seq<ExtractEventView> {
    let read = seq![ExtractEventView::Entry { name, unix_mode }];
    let written = if is_directory_name(name) {
        seq![ExtractEventView::Completed]
    } else {
        seq![
            ExtractEventView::Completed,
            ExtractEventView::Completed,
            ExtractEventView::Completed,
        ]
    };
    let moded = if unix_mode is Some {
        seq![mode_set]
    } else {
        Seq::empty()
    };
    read + written + moded
}

/// An entry of a zip archive that is unpacked without a failure leads on to the
/// entry after it, and the last entry to the end. Whether its permissions
/// could be set makes no difference.
pub proof fn lemma_entry_unpacked(
    index: int,
    count: int,
    name: Seq<char>,
    unix_mode: Option<u32>,
    mode_set: ExtractEventView,
)
    requires
        mode_set is Completed || mode_set is Failed,
    ensures
        extract_run(
            ExtractStateView::ReadingEntry { index, count },
            entry_events(name, unix_mode, mode_set),
        ) == after_entry(index, count),
{
    let start = ExtractStateView::ReadingEntry { index, count };
    let done = ExtractEventView::Completed;
    let e0 = Seq::<ExtractEventView>::empty();
    let e1 = e0.push(ExtractEventView::Entry { name, unix_mode });
    lemma_run_push(start, e0, ExtractEventView::Entry { name, unix_mode });
    let e2 = e1.push(done);
    lemma_run_push(start, e1, done);
    let e3 = if is_directory_name(name) {
        e2
    } else {
        e2.push(done).push(done)
    };
    if !is_directory_name(name) {
        lemma_run_push(start, e2, done);
        lemma_run_push(start, e2.push(done), done);
    }
    let e4 = if unix_mode is Some {
        e3.push(mode_set)
    } else {
        e3
    };
    if unix_mode is Some {
        lemma_run_push(start, e3, mode_set);
    }
    assert(e4 =~= entry_events(name, unix_mode, mode_set));
}

/// An entry of a zip archive as the host meets it: its name, the permissions it
/// stores, and whether those could be set on disk.
pub struct EntryWalk {
    pub name: Seq<char>,
    pub unix_mode: Option<u32>,
    pub mode_kept: bool,
}

impl EntryWalk {
    /// What the host hands in while this entry is unpacked without a failure.
    pub open spec fn events(self) -> Seq<ExtractEventView> {
        entry_events(
            self.name,
            self.unix_mode,
            if self.mode_kept {
                ExtractEventView::Completed
            } else {
                ExtractEventView::Failed { cause: Seq::empty() }
            },
        )
    }
}

/// What the host hands in while `entries` are unpacked one after the other,
/// each without a failure.
pub open spec fn entries_events(entries: Seq<EntryWalk>) -> Seq<ExtractEventView>
    decreases entries.len(),
{
    if entries.len() == 0 {
        Seq::empty()
    } else {
        entries_events(entries.drop_last()) + entries.last().events()
    }
}

/// A zip archive is unpacked entry by entry, in the order of its directory:
/// once the first `done` of its `count` entries are unpacked without a
/// failure, the entry asked for next is entry `done`, and after the last entry
/// unpacking has ended well.
pub proof fn lemma_entries_unpacked_in_order(count: int, entries: Seq<EntryWalk>)
    requires
        0 < count,
        entries.len() <= count,
    ensures
        extract_run(ExtractStateView::ReadingEntry { index: 0, count }, entries_events(entries))
            == if entries.len() < count {
            ExtractStateView::ReadingEntry { index: entries.len() as int, count }
        } else {
            ExtractStateView::Done
        },
    decreases entries.len(),
{
    let start = ExtractStateView::ReadingEntry { index: 0, count };
    if entries.len() > 0 {
        let before = entries.drop_last();
        let last = entries.last();
        lemma_entries_unpacked_in_order(count, before);
        lemma_run_concat(start, entries_events(before), last.events());
        lemma_entry_unpacked(
            before.len() as int,
            count,
            last.name,
            last.unix_mode,
            if last.mode_kept {
                ExtractEventView::Completed
            } else {
                ExtractEventView::Failed { cause: Seq::empty() }
            },
        );
    }
}

} // verus!
