//! Finding the tool: on the search path, in the settings, where an earlier
//! install left it, or by installing the latest release.
//!
//! The four ways are tried in this order and the first that yields a path
//! ends the resolution. The first three never fail: they yield a path or
//! pass on to the next. Only the install can fail, and its failure is the
//! failure of the whole resolution.

use crate::error::{ResolveError, ResolveErrorView};
use crate::install::{
    plan_install, plan_of, version_dir_prefix, version_dir_prefix_of, InstallPlan,
    InstallPlanView,
};
use crate::model::{option_view, result_view};
use crate::protocol::{Action, ActionView, Event, EventView, InstallStatus};
use crate::prune::{positions_view, stale_entries, stale_positions};
use crate::release::{ReleaseDescriptor, ReleaseView};
use crate::settings::{configured_path, configured_path_of};
use crate::tool::{Tool, ToolView};
use vstd::prelude::*;
use vstd::string::*;

verus! {

/// What outlives a resolution: the path at which the last install left the
/// executable. It starts out empty, is set by every install that succeeds,
/// and is never cleared.
#[derive(Debug, PartialEq, Eq)]
pub struct ResolutionState {
    pub cached_binary_path: Option<String>,
}

impl View for ResolutionState {
    type V = Option<Seq<char>>;

    open spec fn view(&self) -> Option<Seq<char>> {
        option_view(self.cached_binary_path)
    }
}

impl ResolutionState {
    /// The state before anything was installed.
    pub fn new() -> (state: ResolutionState)
        ensures
            state@ is None,
    {
        ResolutionState { cached_binary_path: None }
    }
}

/// How far a resolution has come. Each phase but the last waits for the
/// answer to one request.
#[derive(Debug, PartialEq, Eq)]
pub enum Phase {
    SearchingPath,
    ReadingSettings,
    ProbingCache { path: String },
    AnnouncingCheck,
    FetchingRelease,
    QueryingPlatform { release: ReleaseDescriptor },
    CreatingDirectory { plan: InstallPlan },
    ProbingBinary { plan: InstallPlan },
    AnnouncingDownload { plan: InstallPlan },
    Downloading { plan: InstallPlan },
    MarkingExecutable { plan: InstallPlan },
    ListingDirectory { plan: InstallPlan },
    Pruning { plan: InstallPlan, stale: Vec<usize> },
    Finished { outcome: Result<String, ResolveError> },
}

/// A [`Phase`] as plain values.
pub enum PhaseView {
    SearchingPath,
    ReadingSettings,
    ProbingCache { path: Seq<char> },
    AnnouncingCheck,
    FetchingRelease,
    QueryingPlatform { release: ReleaseView },
    CreatingDirectory { plan: InstallPlanView },
    ProbingBinary { plan: InstallPlanView },
    AnnouncingDownload { plan: InstallPlanView },
    Downloading { plan: InstallPlanView },
    MarkingExecutable { plan: InstallPlanView },
    ListingDirectory { plan: InstallPlanView },
    Pruning { plan: InstallPlanView, stale: Seq<int> },
    Finished { outcome: Result<Seq<char>, ResolveErrorView> },
}

impl View for Phase {
    type V = PhaseView;

    open spec fn view(&self) -> PhaseView {
        match self {
            Phase::SearchingPath => PhaseView::SearchingPath,
            Phase::ReadingSettings => PhaseView::ReadingSettings,
            Phase::ProbingCache { path } => PhaseView::ProbingCache { path: path@ },
            Phase::AnnouncingCheck => PhaseView::AnnouncingCheck,
            Phase::FetchingRelease => PhaseView::FetchingRelease,
            Phase::QueryingPlatform { release } => PhaseView::QueryingPlatform {
                release: release@,
            },
            Phase::CreatingDirectory { plan } => PhaseView::CreatingDirectory { plan: plan@ },
            Phase::ProbingBinary { plan } => PhaseView::ProbingBinary { plan: plan@ },
            Phase::AnnouncingDownload { plan } => PhaseView::AnnouncingDownload { plan: plan@ },
            Phase::Downloading { plan } => PhaseView::Downloading { plan: plan@ },
            Phase::MarkingExecutable { plan } => PhaseView::MarkingExecutable { plan: plan@ },
            Phase::ListingDirectory { plan } => PhaseView::ListingDirectory { plan: plan@ },
            Phase::Pruning { plan, stale } => PhaseView::Pruning {
                plan: plan@,
                stale: positions_view(stale@),
            },
            Phase::Finished { outcome } => PhaseView::Finished { outcome: result_view(*outcome) },
        }
    }
}

/// One attempt to find the tool, from its first request to its end.
#[derive(Debug, PartialEq, Eq)]
pub struct Resolution {
    pub tool: Tool,
    pub state: ResolutionState,
    pub phase: Phase,
}

/// A [`Resolution`] as plain values.
pub struct ResolutionView {
    pub tool: ToolView,
    pub cached: Option<Seq<char>>,
    pub phase: PhaseView,
}

impl View for Resolution {
    type V = ResolutionView;

    open spec fn view(&self) -> ResolutionView {
        ResolutionView { tool: self.tool@, cached: self.state@, phase: self.phase@ }
    }
}

/// The directory in which installs are made and pruned.
pub open spec fn working_directory() -> Seq<char> {
    "."@
}

/// The request that a resolution in `phase` waits to have answered, or, in
/// the last phase, its end.
pub open spec fn request_of(tool: ToolView, phase: PhaseView) -> ActionView {
    match phase {
        PhaseView::SearchingPath => ActionView::FindOnPath { name: tool.name },
        PhaseView::ReadingSettings => ActionView::ReadSettings { name: tool.name },
        PhaseView::ProbingCache { path } => ActionView::ProbeFile { path },
        PhaseView::AnnouncingCheck => ActionView::SignalStatus {
            status: InstallStatus::CheckingForUpdate,
        },
        PhaseView::FetchingRelease => ActionView::FetchLatestRelease {
            repository: tool.repository,
            require_assets: true,
            pre_release: false,
        },
        PhaseView::QueryingPlatform { .. } => ActionView::QueryPlatform,
        PhaseView::CreatingDirectory { plan } => ActionView::CreateDirectory {
            path: plan.version_dir,
        },
        PhaseView::ProbingBinary { plan } => ActionView::ProbeFile { path: plan.binary_path },
        PhaseView::AnnouncingDownload { .. } => ActionView::SignalStatus {
            status: InstallStatus::Downloading,
        },
        PhaseView::Downloading { plan } => ActionView::Download {
            url: plan.download_url,
            destination: plan.version_dir,
            kind: plan.archive_kind,
        },
        PhaseView::MarkingExecutable { plan } => ActionView::MakeExecutable {
            path: plan.binary_path,
        },
        PhaseView::ListingDirectory { .. } => ActionView::ListDirectory {
            path: working_directory(),
        },
        PhaseView::Pruning { stale, .. } => ActionView::RemoveEntries { positions: stale },
        PhaseView::Finished { outcome } => ActionView::Finish { outcome },
    }
}

/// A resolution that has just begun: it is searching the path.
pub open spec fn begin_of(tool: ToolView, cached: Option<Seq<char>>) -> ResolutionView {
    ResolutionView { tool, cached, phase: PhaseView::SearchingPath }
}

/// The resolution `at` in the phase `phase`, all else unchanged.
pub open spec fn moved_to(at: ResolutionView, phase: PhaseView) -> ResolutionView {
    ResolutionView { phase, ..at }
}

/// The resolution `at` ended with `outcome`.
pub open spec fn ended(
    at: ResolutionView,
    outcome: Result<Seq<char>, ResolveErrorView>,
) -> ResolutionView {
    moved_to(at, PhaseView::Finished { outcome })
}

/// The resolution `at` ended by an install that left the executable at
/// `path`, which is remembered.
pub open spec fn installed(at: ResolutionView, path: Seq<char>) -> ResolutionView {
    ResolutionView { cached: Some(path), phase: PhaseView::Finished { outcome: Ok(path) }, ..at }
}

/// The resolution `at` once the settings were read and gave no path: the
/// remembered path is probed if there is one, else the install begins.
pub open spec fn past_settings(at: ResolutionView) -> ResolutionView {
    match at.cached {
        Some(path) => moved_to(at, PhaseView::ProbingCache { path }),
        None => moved_to(at, PhaseView::AnnouncingCheck),
    }
}

/// The resolution that `at` becomes when the host reports `event`. An event
/// that does not answer the request of `at` changes nothing, and a
/// resolution that has ended stays as it is.
pub open spec fn advance(at: ResolutionView, event: EventView) -> ResolutionView {
    match (at.phase, event) {
        (PhaseView::SearchingPath, EventView::PathSearched { found: Some(path) }) => ended(
            at,
            Ok(path),
        ),
        (PhaseView::SearchingPath, EventView::PathSearched { found: None }) => moved_to(
            at,
            PhaseView::ReadingSettings,
        ),
        (PhaseView::ReadingSettings, EventView::SettingsRead { settings }) => {
            match configured_path_of(settings) {
                Some(path) => ended(at, Ok(path)),
                None => past_settings(at),
            }
        },
        (PhaseView::ProbingCache { path }, EventView::FileProbed { is_file }) => {
            if is_file {
                ended(at, Ok(path))
            } else {
                moved_to(at, PhaseView::AnnouncingCheck)
            }
        },
        (PhaseView::AnnouncingCheck, EventView::StatusSignalled) => moved_to(
            at,
            PhaseView::FetchingRelease,
        ),
        (PhaseView::FetchingRelease, EventView::ReleaseFetched { release: Ok(release) }) => moved_to(
            at,
            PhaseView::QueryingPlatform { release },
        ),
        (PhaseView::FetchingRelease, EventView::ReleaseFetched { release: Err(cause) }) => ended(
            at,
            Err(ResolveErrorView::ReleaseLookup { cause }),
        ),
        (PhaseView::QueryingPlatform { release }, EventView::PlatformQueried { platform }) => {
            match plan_of(at.tool, release, platform) {
                Ok(plan) => moved_to(at, PhaseView::CreatingDirectory { plan }),
                Err(error) => ended(at, Err(error)),
            }
        },
        (PhaseView::CreatingDirectory { plan }, EventView::DirectoryCreated { outcome: Ok(_) }) => moved_to(
            at,
            PhaseView::ProbingBinary { plan },
        ),
        (
            PhaseView::CreatingDirectory { plan },
            EventView::DirectoryCreated { outcome: Err(cause) },
        ) => ended(
            at,
            Err(ResolveErrorView::DirectoryCreate { directory: plan.version_dir, cause }),
        ),
        (PhaseView::ProbingBinary { plan }, EventView::FileProbed { is_file }) => {
            if is_file {
                installed(at, plan.binary_path)
            } else {
                moved_to(at, PhaseView::AnnouncingDownload { plan })
            }
        },
        (PhaseView::AnnouncingDownload { plan }, EventView::StatusSignalled) => moved_to(
            at,
            PhaseView::Downloading { plan },
        ),
        (PhaseView::Downloading { plan }, EventView::Downloaded { outcome: Ok(_) }) => moved_to(
            at,
            PhaseView::MarkingExecutable { plan },
        ),
        (PhaseView::Downloading { .. }, EventView::Downloaded { outcome: Err(cause) }) => ended(
            at,
            Err(ResolveErrorView::Download { cause }),
        ),
        (PhaseView::MarkingExecutable { plan }, EventView::MadeExecutable { outcome: Ok(_) }) => moved_to(
            at,
            PhaseView::ListingDirectory { plan },
        ),
        (PhaseView::MarkingExecutable { .. }, EventView::MadeExecutable { outcome: Err(cause) }) => ended(
            at,
            Err(ResolveErrorView::Permission { cause }),
        ),
        (PhaseView::ListingDirectory { plan }, EventView::DirectoryListed { listing: Ok(listing) }) => moved_to(
            at,
            PhaseView::Pruning {
                plan,
                stale: stale_positions(
                    listing,
                    version_dir_prefix_of(at.tool.name),
                    plan.version_dir,
                ),
            },
        ),
        (PhaseView::ListingDirectory { .. }, EventView::DirectoryListed { listing: Err(cause) }) => ended(
            at,
            Err(ResolveErrorView::DirectoryList { cause }),
        ),
        (PhaseView::Pruning { plan, .. }, EventView::EntriesRemoved) => installed(
            at,
            plan.binary_path,
        ),
        _ => at,
    }
}

/// A copy of `positions`.
fn copy_positions(positions: &Vec<usize>) -> (copy: Vec<usize>)
    ensures
        copy@ == positions@,
{
    let mut copy: Vec<usize> = Vec::new();
    let mut i: usize = 0;
    while i < positions.len()
        invariant
            i <= positions.len(),
            copy@ == positions@.take(i as int),
        decreases positions.len() - i,
    {
        copy.push(positions[i]);
        assert(copy@ =~= positions@.take(i + 1));
        i = i + 1;
    }
    assert(positions@.take(positions@.len() as int) =~= positions@);
    copy
}

/// A copy of `outcome`.
fn copy_outcome(outcome: &Result<String, ResolveError>) -> (copy: Result<String, ResolveError>)
    ensures
        result_view(copy) == result_view(*outcome),
{
    match outcome {
        Ok(path) => Ok(path.clone()),
        Err(error) => Err(error.clone()),
    }
}

impl Phase {
    /// The request that a resolution for `tool` in this phase waits to have
    /// answered, or, in the last phase, its end.
    pub fn request(&self, tool: &Tool) -> (action: Action)
        ensures
            action@ == request_of(tool@, self@),
    {
        match self {
            Phase::SearchingPath => Action::FindOnPath { name: tool.name.clone() },
            Phase::ReadingSettings => Action::ReadSettings { name: tool.name.clone() },
            Phase::ProbingCache { path } => Action::ProbeFile { path: path.clone() },
            Phase::AnnouncingCheck => Action::SignalStatus {
                status: InstallStatus::CheckingForUpdate,
            },
            Phase::FetchingRelease => Action::FetchLatestRelease {
                repository: tool.repository.clone(),
                require_assets: true,
                pre_release: false,
            },
            Phase::QueryingPlatform { .. } => Action::QueryPlatform,
            Phase::CreatingDirectory { plan } => Action::CreateDirectory {
                path: plan.version_dir.clone(),
            },
            Phase::ProbingBinary { plan } => Action::ProbeFile { path: plan.binary_path.clone() },
            Phase::AnnouncingDownload { .. } => Action::SignalStatus {
                status: InstallStatus::Downloading,
            },
            Phase::Downloading { plan } => Action::Download {
                url: plan.download_url.clone(),
                destination: plan.version_dir.clone(),
                kind: plan.archive_kind,
            },
            Phase::MarkingExecutable { plan } => Action::MakeExecutable {
                path: plan.binary_path.clone(),
            },
            Phase::ListingDirectory { .. } => Action::ListDirectory {
                path: String::from_str("."),
            },
            Phase::Pruning { stale, .. } => Action::RemoveEntries {
                positions: copy_positions(stale),
            },
            Phase::Finished { outcome } => Action::Finish { outcome: copy_outcome(outcome) },
        }
    }
}

impl Resolution {
    /// Begins a resolution for `tool`, with what earlier resolutions left
    /// in `state`. The first request is for a search of the path.
    pub fn begin(tool: Tool, state: ResolutionState) -> (started: (Resolution, Action))
        ensures
            started.0@ == begin_of(tool@, state@),
            started.1@ == request_of(tool@, PhaseView::SearchingPath),
    {
        let phase = Phase::SearchingPath;
        let action = phase.request(&tool);
        (Resolution { tool, state, phase }, action)
    }

    /// Takes the host's answer and hands out the next request, or the end
    /// of the resolution.
    pub fn step(self, event: Event) -> (next: (Resolution, Action))
        ensures
            next.0@ == advance(self@, event@),
            next.1@ == request_of(next.0@.tool, next.0@.phase),
    {
        let Resolution { tool, state, phase } = self;
        let (state, phase) = match phase {
            Phase::SearchingPath => match event {
                Event::PathSearched { found: Some(path) } => (
                    state,
                    Phase::Finished { outcome: Ok(path) },
                ),
                Event::PathSearched { found: None } => (state, Phase::ReadingSettings),
                _ => (state, Phase::SearchingPath),
            },
            Phase::ReadingSettings => match event {
                Event::SettingsRead { settings } => match configured_path(settings) {
                    Some(path) => (state, Phase::Finished { outcome: Ok(path) }),
                    None => {
                        let phase = match &state.cached_binary_path {
                            Some(path) => Phase::ProbingCache { path: path.clone() },
                            None => Phase::AnnouncingCheck,
                        };
                        (state, phase)
                    },
                },
                _ => (state, Phase::ReadingSettings),
            },
            Phase::ProbingCache { path } => match event {
                Event::FileProbed { is_file } => {
                    if is_file {
                        (state, Phase::Finished { outcome: Ok(path) })
                    } else {
                        (state, Phase::AnnouncingCheck)
                    }
                },
                _ => (state, Phase::ProbingCache { path }),
            },
            Phase::AnnouncingCheck => match event {
                Event::StatusSignalled => (state, Phase::FetchingRelease),
                _ => (state, Phase::AnnouncingCheck),
            },
            Phase::FetchingRelease => match event {
                Event::ReleaseFetched { release: Ok(release) } => (
                    state,
                    Phase::QueryingPlatform { release },
                ),
                Event::ReleaseFetched { release: Err(cause) } => (
                    state,
                    Phase::Finished { outcome: Err(ResolveError::ReleaseLookup { cause }) },
                ),
                _ => (state, Phase::FetchingRelease),
            },
            Phase::QueryingPlatform { release } => match event {
                Event::PlatformQueried { platform } => match plan_install(
                    &tool,
                    &release,
                    platform,
                ) {
                    Ok(plan) => (state, Phase::CreatingDirectory { plan }),
                    Err(error) => (state, Phase::Finished { outcome: Err(error) }),
                },
                _ => (state, Phase::QueryingPlatform { release }),
            },
            Phase::CreatingDirectory { plan } => match event {
                Event::DirectoryCreated { outcome: Ok(_) } => (
                    state,
                    Phase::ProbingBinary { plan },
                ),
                Event::DirectoryCreated { outcome: Err(cause) } => (
                    state,
                    Phase::Finished {
                        outcome: Err(
                            ResolveError::DirectoryCreate { directory: plan.version_dir, cause },
                        ),
                    },
                ),
                _ => (state, Phase::CreatingDirectory { plan }),
            },
            Phase::ProbingBinary { plan } => match event {
                Event::FileProbed { is_file } => {
                    if is_file {
                        Self::installed(plan)
                    } else {
                        (state, Phase::AnnouncingDownload { plan })
                    }
                },
                _ => (state, Phase::ProbingBinary { plan }),
            },
            Phase::AnnouncingDownload { plan } => match event {
                Event::StatusSignalled => (state, Phase::Downloading { plan }),
                _ => (state, Phase::AnnouncingDownload { plan }),
            },
            Phase::Downloading { plan } => match event {
                Event::Downloaded { outcome: Ok(_) } => (state, Phase::MarkingExecutable { plan }),
                Event::Downloaded { outcome: Err(cause) } => (
                    state,
                    Phase::Finished { outcome: Err(ResolveError::Download { cause }) },
                ),
                _ => (state, Phase::Downloading { plan }),
            },
            Phase::MarkingExecutable { plan } => match event {
                Event::MadeExecutable { outcome: Ok(_) } => (
                    state,
                    Phase::ListingDirectory { plan },
                ),
                Event::MadeExecutable { outcome: Err(cause) } => (
                    state,
                    Phase::Finished { outcome: Err(ResolveError::Permission { cause }) },
                ),
                _ => (state, Phase::MarkingExecutable { plan }),
            },
            Phase::ListingDirectory { plan } => match event {
                Event::DirectoryListed { listing: Ok(listing) } => {
                    let prefix = version_dir_prefix(tool.name.as_str());
                    let stale = stale_entries(&listing, prefix.as_str(), plan.version_dir.as_str());
                    (state, Phase::Pruning { plan, stale })
                },
                Event::DirectoryListed { listing: Err(cause) } => (
                    state,
                    Phase::Finished { outcome: Err(ResolveError::DirectoryList { cause }) },
                ),
                _ => (state, Phase::ListingDirectory { plan }),
            },
            Phase::Pruning { plan, stale } => match event {
                Event::EntriesRemoved => Self::installed(plan),
                _ => (state, Phase::Pruning { plan, stale }),
            },
            Phase::Finished { outcome } => (state, Phase::Finished { outcome }),
        };
        let action = phase.request(&tool);
        (Resolution { tool, state, phase }, action)
    }

    /// The state and the phase at the end of the install that `plan`
    /// describes: the path to the executable is remembered and handed out.
    fn installed(plan: InstallPlan) -> (end: (ResolutionState, Phase))
        ensures
            end.0@ == Some(plan@.binary_path),
            end.1@ == (PhaseView::Finished { outcome: Ok(plan@.binary_path) }),
    {
        let remembered = plan.binary_path.clone();
        (
            ResolutionState { cached_binary_path: Some(remembered) },
            Phase::Finished { outcome: Ok(plan.binary_path) },
        )
    }

    /// The outcome of the resolution, once it has ended.
    pub fn outcome(&self) -> (outcome: Option<&Result<String, ResolveError>>)
        ensures
            match outcome {
                Some(outcome) => self@.phase == (PhaseView::Finished {
                    outcome: result_view(*outcome),
                }),
                None => !(self@.phase is Finished),
            },
    {
        match &self.phase {
            Phase::Finished { outcome } => Some(outcome),
            _ => None,
        }
    }

    /// Gives back what is to outlive this resolution.
    pub fn into_state(self) -> (state: ResolutionState)
        ensures
            state@ == self@.cached,
    {
        self.state
    }
}

} // verus!
