//! A host as a resolution sees it, and what a resolution comes to when
//! such a host answers it.
//!
//! This is the whole of a resolution in one statement: tried in their
//! order, the search path, the settings, the remembered path and the
//! install, of which the first that yields a path decides.

use crate::error::ResolveErrorView;
use crate::install::{plan_of, InstallPlanView};
use crate::platform::PlatformTarget;
use crate::protocol::{ActionView, EventView};
use crate::prune::DirEntryView;
use crate::release::ReleaseView;
use crate::resolver::{
    advance, begin_of, ended, installed, request_of, PhaseView, ResolutionView,
};
use crate::settings::{configured_path_of, ToolSettingsView};
use crate::tool::ToolView;
use vstd::prelude::*;

verus! {

/// What a host answers to each request that a resolution can make.
pub struct Host {
    /// The executable on the search path, if there is one.
    pub on_path: Option<Seq<char>>,
    /// The settings filed under the tool's name.
    pub settings: Option<ToolSettingsView>,
    /// The paths at which regular files lie.
    pub files: Set<Seq<char>>,
    /// The latest release, or why there is none.
    pub release: Result<ReleaseView, Seq<char>>,
    /// The platform.
    pub platform: PlatformTarget,
    /// What comes of creating the directory for the release.
    pub directory_created: Result<(), Seq<char>>,
    /// What comes of fetching and unpacking the file.
    pub downloaded: Result<(), Seq<char>>,
    /// What comes of making the executable executable.
    pub made_executable: Result<(), Seq<char>>,
    /// The entries of the working directory, or why it cannot be listed.
    pub listing: Result<Seq<DirEntryView>, Seq<char>>,
}

/// What `host` reports when it has carried out `action`.
pub open spec fn answer(host: Host, action: ActionView) -> EventView {
    match action {
        ActionView::FindOnPath { .. } => EventView::PathSearched { found: host.on_path },
        ActionView::ReadSettings { .. } => EventView::SettingsRead { settings: host.settings },
        ActionView::ProbeFile { path } => EventView::FileProbed {
            is_file: host.files.contains(path),
        },
        ActionView::SignalStatus { .. } => EventView::StatusSignalled,
        ActionView::FetchLatestRelease { .. } => {
            EventView::ReleaseFetched { release: host.release }
        },
        ActionView::QueryPlatform => EventView::PlatformQueried { platform: host.platform },
        ActionView::CreateDirectory { .. } => EventView::DirectoryCreated {
            outcome: host.directory_created,
        },
        ActionView::Download { .. } => EventView::Downloaded {
            outcome: host.downloaded,
        },
        ActionView::MakeExecutable { .. } => EventView::MadeExecutable {
            outcome: host.made_executable,
        },
        ActionView::ListDirectory { .. } => EventView::DirectoryListed {
            listing: host.listing,
        },
        ActionView::RemoveEntries { .. } => EventView::EntriesRemoved,
        ActionView::Finish { .. } => EventView::EntriesRemoved,
    }
}

/// The resolution that `at` becomes when `host` has answered its request.
pub open spec fn answered(at: ResolutionView, host: Host) -> ResolutionView {
    advance(at, answer(host, request_of(at.tool, at.phase)))
}

/// The resolution that `at` becomes when `host` has answered `steps` of its
/// requests.
pub open spec fn drive(at: ResolutionView, host: Host, steps: nat) -> ResolutionView
    decreases steps,
{
    if steps == 0 {
        at
    } else {
        drive(answered(at, host), host, (steps - 1) as nat)
    }
}

/// The most requests that a resolution makes before it ends.
pub open spec fn most_requests() -> nat {
    13
}

/// What installing the latest release comes to with `host`. The steps are
/// taken in their order and the first that fails decides. Where the
/// executable already lies in its place nothing is fetched, made executable
/// or listed, so that none of these can fail.
pub open spec fn install_outcome(tool: ToolView, host: Host) -> Result<
    Seq<char>,
    ResolveErrorView,
> {
    match host.release {
        Err(cause) => Err(ResolveErrorView::ReleaseLookup { cause }),
        Ok(release) => match plan_of(tool, release, host.platform) {
            Err(error) => Err(error),
            Ok(plan) => {
                if host.directory_created is Err {
                    Err(
                        ResolveErrorView::DirectoryCreate {
                            directory: plan.version_dir,
                            cause: host.directory_created->Err_0,
                        },
                    )
                } else if host.files.contains(plan.binary_path) {
                    Ok(plan.binary_path)
                } else if host.downloaded is Err {
                    Err(ResolveErrorView::Download { cause: host.downloaded->Err_0 })
                } else if host.made_executable is Err {
                    Err(ResolveErrorView::Permission { cause: host.made_executable->Err_0 })
                } else if host.listing is Err {
                    Err(ResolveErrorView::DirectoryList { cause: host.listing->Err_0 })
                } else {
                    Ok(plan.binary_path)
                }
            },
        },
    }
}

/// Whether a resolution with `host` comes to the install: nothing is on the
/// search path, the settings give no path, and no file lies at the
/// remembered path, if there is one.
pub open spec fn reaches_install(cached: Option<Seq<char>>, host: Host) -> bool {
    &&& host.on_path is None
    &&& configured_path_of(host.settings) is None
    &&& !(cached is Some && host.files.contains(cached->0))
}

/// What a resolution comes to with `host`, when `cached` is remembered from
/// earlier ones.
pub open spec fn resolved(tool: ToolView, cached: Option<Seq<char>>, host: Host) -> Result<
    Seq<char>,
    ResolveErrorView,
> {
    if host.on_path is Some {
        Ok(host.on_path->0)
    } else if configured_path_of(host.settings) is Some {
        Ok(configured_path_of(host.settings)->0)
    } else if cached is Some && host.files.contains(cached->0) {
        Ok(cached->0)
    } else {
        install_outcome(tool, host)
    }
}

/// What is remembered after a resolution with `host`: the path that an
/// install yielded, and else what was remembered before.
pub open spec fn remembered_after(tool: ToolView, cached: Option<Seq<char>>, host: Host) -> Option<
    Seq<char>,
> {
    if reaches_install(cached, host) && install_outcome(tool, host) is Ok {
        Some(install_outcome(tool, host)->Ok_0)
    } else {
        cached
    }
}

/// A resolution that has ended stays as it is, however often the host
/// answers it.
pub proof fn lemma_drive_finished(at: ResolutionView, host: Host, steps: nat)
    requires
        at.phase is Finished,
    ensures
        drive(at, host, steps) == at,
    decreases steps,
{
    if steps > 0 {
        lemma_drive_finished(at, host, (steps - 1) as nat);
    }
}

/// An install from the point where the file has to be fetched: it is
/// fetched, made executable, the working directory is listed and pruned,
/// and the first of these that fails decides.
proof fn lemma_from_download(at: ResolutionView, plan: InstallPlanView, host: Host, steps: nat)
    requires
        at.phase == (PhaseView::AnnouncingDownload { plan }),
        steps >= 5,
    ensures
        drive(at, host, steps) == (if host.downloaded is Err {
            ended(at, Err(ResolveErrorView::Download { cause: host.downloaded->Err_0 }))
        } else if host.made_executable is Err {
            ended(at, Err(ResolveErrorView::Permission { cause: host.made_executable->Err_0 }))
        } else if host.listing is Err {
            ended(at, Err(ResolveErrorView::DirectoryList { cause: host.listing->Err_0 }))
        } else {
            installed(at, plan.binary_path)
        }),
{
    let fetching = answered(at, host);
    let marking = answered(fetching, host);
    let listing = answered(marking, host);
    let pruning = answered(listing, host);
    let end = answered(pruning, host);
    assert(drive(at, host, steps) == drive(end, host, (steps - 5) as nat)) by {
        reveal_with_fuel(drive, 6);
    }
    assert(fetching.phase == (PhaseView::Downloading { plan }));
    if host.downloaded is Err {
        assert(marking.phase is Finished);
        assert(end == marking);
    } else if host.made_executable is Err {
        assert(listing.phase is Finished);
        assert(end == listing);
    } else if host.listing is Err {
        assert(pruning.phase is Finished);
        assert(end == pruning);
    } else {
        assert(pruning.phase is Pruning);
        assert(end == installed(at, plan.binary_path));
    }
    lemma_drive_finished(end, host, (steps - 5) as nat);
}

/// An install from its beginning.
proof fn lemma_from_check(at: ResolutionView, host: Host, steps: nat)
    requires
        at.phase == PhaseView::AnnouncingCheck,
        steps >= 10,
    ensures
        drive(at, host, steps) == (match install_outcome(at.tool, host) {
            Ok(path) => installed(at, path),
            Err(error) => ended(at, Err(error)),
        }),
{
    let fetching = answered(at, host);
    let querying = answered(fetching, host);
    let creating = answered(querying, host);
    let probing = answered(creating, host);
    let announcing = answered(probing, host);
    assert(drive(at, host, steps) == drive(announcing, host, (steps - 5) as nat)) by {
        reveal_with_fuel(drive, 6);
    }
    assert(fetching.phase == PhaseView::FetchingRelease);
    if host.release is Err {
        assert(querying.phase is Finished);
        assert(announcing == querying);
        lemma_drive_finished(announcing, host, (steps - 5) as nat);
    } else {
        let release = host.release->Ok_0;
        assert(querying.phase == (PhaseView::QueryingPlatform { release }));
        match plan_of(at.tool, release, host.platform) {
            Err(error) => {
                assert(creating.phase is Finished);
                assert(announcing == creating);
                lemma_drive_finished(announcing, host, (steps - 5) as nat);
            },
            Ok(plan) => {
                assert(creating.phase == (PhaseView::CreatingDirectory { plan }));
                if host.directory_created is Err {
                    assert(probing.phase is Finished);
                    assert(announcing == probing);
                    lemma_drive_finished(announcing, host, (steps - 5) as nat);
                } else if host.files.contains(plan.binary_path) {
                    assert(probing.phase == (PhaseView::ProbingBinary { plan }));
                    assert(announcing == installed(at, plan.binary_path));
                    lemma_drive_finished(announcing, host, (steps - 5) as nat);
                } else {
                    assert(announcing.phase == (PhaseView::AnnouncingDownload { plan }));
                    lemma_from_download(announcing, plan, host, (steps - 5) as nat);
                }
            },
        }
    }
}

/// A resolution whose requests `host` answers ends, after thirteen answers
/// at most, with what `resolved` says, and remembers what `remembered_after`
/// says.
pub proof fn lemma_resolution_ends_as_resolved(
    tool: ToolView,
    cached: Option<Seq<char>>,
    host: Host,
)
    ensures
        drive(begin_of(tool, cached), host, most_requests()) == (ResolutionView {
            tool,
            cached: remembered_after(tool, cached, host),
            phase: PhaseView::Finished { outcome: resolved(tool, cached, host) },
        }),
{
    let start = begin_of(tool, cached);
    let reading = answered(start, host);
    let probing = answered(reading, host);
    let checking = answered(probing, host);
    assert(drive(start, host, 13) == drive(checking, host, 10)) by {
        reveal_with_fuel(drive, 4);
    }
    if host.on_path is Some {
        assert(reading.phase is Finished);
        assert(checking == reading);
        lemma_drive_finished(checking, host, 10);
    } else if configured_path_of(host.settings) is Some {
        assert(probing.phase is Finished);
        assert(checking == probing);
        lemma_drive_finished(checking, host, 10);
    } else if cached is Some {
        assert(probing.phase == (PhaseView::ProbingCache { path: cached->0 }));
        if host.files.contains(cached->0) {
            assert(checking.phase is Finished);
            lemma_drive_finished(checking, host, 10);
        } else {
            assert(checking.phase == PhaseView::AnnouncingCheck);
            lemma_from_check(checking, host, 10);
        }
    } else {
        assert(probing.phase == PhaseView::AnnouncingCheck);
        assert(drive(probing, host, 11) == drive(checking, host, 10)) by {
            reveal_with_fuel(drive, 2);
        }
        assert(drive(start, host, 13) == drive(probing, host, 11)) by {
            reveal_with_fuel(drive, 3);
        }
        lemma_from_check(probing, host, 11);
    }
}

/// Driving on from where an earlier drive ended is driving for the sum of
/// the steps.
pub proof fn lemma_drive_on(at: ResolutionView, host: Host, first: nat, then: nat)
    ensures
        drive(at, host, first + then) == drive(drive(at, host, first), host, then),
    decreases first,
{
    if first > 0 {
        lemma_drive_on(answered(at, host), host, (first - 1) as nat, then);
    }
}

/// The requests that `host` has answered when it has driven `at` for
/// `steps` steps, in their order.
pub open spec fn asked(at: ResolutionView, host: Host, steps: nat) -> Seq<ActionView> {
    Seq::new(
        steps,
        |i: int|
            {
                let then = drive(at, host, i as nat);
                request_of(then.tool, then.phase)
            },
    )
}

/// Whether `action` goes to the network.
pub open spec fn uses_network(action: ActionView) -> bool {
    action is FetchLatestRelease || action is Download
}

/// Nothing is asked of the network unless the resolution comes to the
/// install: where the tool is on the search path, or the settings give a
/// path, or a file lies at the remembered path, no request for the release
/// feed or for a download is ever made, and the resolution does not fail.
pub proof fn lemma_no_network_before_install(
    tool: ToolView,
    cached: Option<Seq<char>>,
    host: Host,
    steps: nat,
)
    requires
        !reaches_install(cached, host),
    ensures
        forall|i: int|
            0 <= i < steps ==> !uses_network(#[trigger] asked(begin_of(tool, cached), host, steps)[i]),
        resolved(tool, cached, host) is Ok,
{
    let start = begin_of(tool, cached);
    assert forall|i: int| 0 <= i < steps implies !uses_network(
        #[trigger] asked(start, host, steps)[i],
    ) by {
        let then = drive(start, host, i as nat);
        if i >= 3 {
            lemma_drive_on(start, host, 3, (i - 3) as nat);
            let third = drive(start, host, 3);
            assert(third.phase is Finished) by {
                reveal_with_fuel(drive, 4);
            }
            lemma_drive_finished(third, host, (i - 3) as nat);
        } else {
            assert(then.phase is SearchingPath || then.phase is ReadingSettings
                || then.phase is ProbingCache || then.phase is Finished) by {
                reveal_with_fuel(drive, 4);
            }
        }
    }
}

/// An install that succeeded succeeds again, with the same path and
/// without fetching anything: it is enough that the release and the
/// platform are the same, that the directory can still be created, and
/// that the executable still lies where the first install left it. What
/// fetching, marking or listing would come to does not matter then.
pub proof fn lemma_install_again(tool: ToolView, first: Host, again: Host)
    requires
        install_outcome(tool, first) is Ok,
        again.release == first.release,
        again.platform == first.platform,
        again.directory_created is Ok,
        again.files.contains(install_outcome(tool, first)->Ok_0),
    ensures
        install_outcome(tool, again) == install_outcome(tool, first),
{
}

} // verus!
