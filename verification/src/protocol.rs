//! What a resolution asks of its host, and what the host answers.
//!
//! A resolution does no input or output itself. It hands out one
//! [`Action`] at a time; the host carries it out and reports back with the
//! [`Event`] that answers it.

use crate::error::{ResolveError, ResolveErrorView};
use crate::model::{option_view, result_view, views};
use crate::platform::{ArchiveKind, PlatformTarget};
use crate::prune::{positions_view, DirEntry, DirEntryView};
use crate::release::{ReleaseDescriptor, ReleaseView};
use crate::settings::{ToolSettings, ToolSettingsView};
use vstd::prelude::*;
use vstd::string::*;

verus! {

/// What the editor shows of an install in progress.
#[derive(Clone, Copy, Debug, PartialEq, Eq, Structural)]
pub enum InstallStatus {
    /// The release feed is being asked for the latest release.
    CheckingForUpdate,
    /// The release is being fetched.
    Downloading,
    /// Nothing is in progress.
    Cleared,
}

/// A request to the host, or the end of the resolution.
#[derive(Debug, PartialEq, Eq)]
pub enum Action {
    /// Look for an executable of this name on the search path.
    FindOnPath { name: String },
    /// Read the settings filed under this name.
    ReadSettings { name: String },
    /// Tell whether a regular file lies at this path.
    ProbeFile { path: String },
    /// Show this status for the tool. Nothing depends on its delivery.
    SignalStatus { status: InstallStatus },
    /// Fetch the latest release of this repository.
    FetchLatestRelease { repository: String, require_assets: bool, pre_release: bool },
    /// Tell which platform this is.
    QueryPlatform,
    /// Create this directory and its parents; one that exists is no failure.
    CreateDirectory { path: String },
    /// Fetch the file at `url` and unpack it, as `kind` says, into
    /// `destination`.
    Download { url: String, destination: String, kind: ArchiveKind },
    /// Make the file at this path executable.
    MakeExecutable { path: String },
    /// List the entries of this directory.
    ListDirectory { path: String },
    /// Delete, with all they hold, the entries at these positions of the
    /// listing. A deletion that fails is passed over.
    RemoveEntries { positions: Vec<usize> },
    /// The resolution has ended, with the path to the executable or with
    /// the reason why there is none.
    Finish { outcome: Result<String, ResolveError> },
}

/// An [`Action`] as plain values.
pub enum ActionView {
    FindOnPath { name: Seq<char> },
    ReadSettings { name: Seq<char> },
    ProbeFile { path: Seq<char> },
    SignalStatus { status: InstallStatus },
    FetchLatestRelease { repository: Seq<char>, require_assets: bool, pre_release: bool },
    QueryPlatform,
    CreateDirectory { path: Seq<char> },
    Download { url: Seq<char>, destination: Seq<char>, kind: ArchiveKind },
    MakeExecutable { path: Seq<char> },
    ListDirectory { path: Seq<char> },
    RemoveEntries { positions: Seq<int> },
    Finish { outcome: Result<Seq<char>, ResolveErrorView> },
}

impl View for Action {
    type V = ActionView;

    open spec fn view(&self) -> ActionView {
        match self {
            Action::FindOnPath { name } => ActionView::FindOnPath { name: name@ },
            Action::ReadSettings { name } => ActionView::ReadSettings { name: name@ },
            Action::ProbeFile { path } => ActionView::ProbeFile { path: path@ },
            Action::SignalStatus { status } => ActionView::SignalStatus { status: *status },
            Action::FetchLatestRelease {
                repository,
                require_assets,
                pre_release,
            } => ActionView::FetchLatestRelease {
                repository: repository@,
                require_assets: *require_assets,
                pre_release: *pre_release,
            },
            Action::QueryPlatform => ActionView::QueryPlatform,
            Action::CreateDirectory { path } => ActionView::CreateDirectory { path: path@ },
            Action::Download { url, destination, kind } => ActionView::Download {
                url: url@,
                destination: destination@,
                kind: *kind,
            },
            Action::MakeExecutable { path } => ActionView::MakeExecutable { path: path@ },
            Action::ListDirectory { path } => ActionView::ListDirectory { path: path@ },
            Action::RemoveEntries { positions } => ActionView::RemoveEntries {
                positions: positions_view(positions@),
            },
            Action::Finish { outcome } => ActionView::Finish { outcome: result_view(*outcome) },
        }
    }
}

/// What the host reports of the action it carried out.
#[derive(Debug, PartialEq, Eq)]
pub enum Event {
    /// The executable found on the search path, if there is one.
    PathSearched { found: Option<String> },
    /// The settings filed under the tool's name, if there are any that can
    /// be read.
    SettingsRead { settings: Option<ToolSettings> },
    /// Whether a regular file lies at the path.
    FileProbed { is_file: bool },
    /// The status was handed on.
    StatusSignalled,
    /// The latest release, or why there is none.
    ReleaseFetched { release: Result<ReleaseDescriptor, String> },
    /// The platform.
    PlatformQueried { platform: PlatformTarget },
    /// The directory exists now, or why it could not be created.
    DirectoryCreated { outcome: Result<(), String> },
    /// The file was fetched and unpacked, or why it could not be.
    Downloaded { outcome: Result<(), String> },
    /// The file is executable now, or why it could not be made so.
    MadeExecutable { outcome: Result<(), String> },
    /// The entries of the directory, or why it could not be listed.
    DirectoryListed { listing: Result<Vec<DirEntry>, String> },
    /// The deletions were attempted.
    EntriesRemoved,
}

/// An [`Event`] as plain values.
pub enum EventView {
    PathSearched { found: Option<Seq<char>> },
    SettingsRead { settings: Option<ToolSettingsView> },
    FileProbed { is_file: bool },
    StatusSignalled,
    ReleaseFetched { release: Result<ReleaseView, Seq<char>> },
    PlatformQueried { platform: PlatformTarget },
    DirectoryCreated { outcome: Result<(), Seq<char>> },
    Downloaded { outcome: Result<(), Seq<char>> },
    MadeExecutable { outcome: Result<(), Seq<char>> },
    DirectoryListed { listing: Result<Seq<DirEntryView>, Seq<char>> },
    EntriesRemoved,
}

/// The view of the outcome of an action that hands nothing back.
pub open spec fn outcome_view(outcome: Result<(), String>) -> Result<(), Seq<char>> {
    match outcome {
        Ok(_) => Ok(()),
        Err(cause) => Err(cause@),
    }
}

/// The view of a directory listing, or of the reason why there is none.
pub open spec fn listing_view(listing: Result<Vec<DirEntry>, String>) -> Result<
    Seq<DirEntryView>,
    Seq<char>,
> {
    match listing {
        Ok(entries) => Ok(views(entries@)),
        Err(cause) => Err(cause@),
    }
}

impl View for Event {
    type V = EventView;

    open spec fn view(&self) -> EventView {
        match self {
            Event::PathSearched { found } => EventView::PathSearched { found: option_view(*found) },
            Event::SettingsRead { settings } => EventView::SettingsRead {
                settings: option_view(*settings),
            },
            Event::FileProbed { is_file } => EventView::FileProbed { is_file: *is_file },
            Event::StatusSignalled => EventView::StatusSignalled,
            Event::ReleaseFetched { release } => EventView::ReleaseFetched {
                release: result_view(*release),
            },
            Event::PlatformQueried { platform } => EventView::PlatformQueried {
                platform: *platform,
            },
            Event::DirectoryCreated { outcome } => EventView::DirectoryCreated {
                outcome: outcome_view(*outcome),
            },
            Event::Downloaded { outcome } => EventView::Downloaded {
                outcome: outcome_view(*outcome),
            },
            Event::MadeExecutable { outcome } => EventView::MadeExecutable {
                outcome: outcome_view(*outcome),
            },
            Event::DirectoryListed { listing } => EventView::DirectoryListed {
                listing: listing_view(*listing),
            },
            Event::EntriesRemoved => EventView::EntriesRemoved,
        }
    }
}

} // verus!
