//! What holds of every resolution, whatever the host answers.

use crate::error::{message_of, lemma_missing_asset_is_named, ResolveErrorView};
use crate::install::{asset_name_of, InstallPlanView};
use crate::platform::PlatformTarget;
use crate::protocol::{ActionView, EventView, InstallStatus};
use crate::release::{first_named, lemma_first_named, ReleaseView};
use crate::resolver::{
    advance, begin_of, ended, installed, moved_to, request_of, PhaseView, ResolutionView,
};
use crate::settings::{configured_path_of, BinarySettingsView, ToolSettingsView};
use crate::text::contains;
use crate::tool::ToolView;
use vstd::prelude::*;

verus! {

/// The resolution that `start` becomes when the host reports `events` one
/// after the other.
pub open spec fn run(start: ResolutionView, events: Seq<EventView>) -> ResolutionView
    decreases events.len(),
{
    if events.len() == 0 {
        start
    } else {
        advance(run(start, events.drop_last()), events.last())
    }
}

/// Everything that the resolution hands out while the host reports
/// `events`: the request that `start` waits on, and then what follows each
/// event.
pub open spec fn requests(start: ResolutionView, events: Seq<EventView>) -> Seq<ActionView> {
    Seq::new(
        events.len() + 1,
        |i: int|
            {
                let at = run(start, events.take(i));
                request_of(at.tool, at.phase)
            },
    )
}

/// `run` on one event more.
pub proof fn lemma_run_push(start: ResolutionView, events: Seq<EventView>, event: EventView)
    ensures
        run(start, events.push(event)) == advance(run(start, events), event),
{
    assert(events.push(event).drop_last() =~= events);
}

/// A resolution that has ended stays as it is, whatever is reported to it.
pub proof fn lemma_finished_is_final(at: ResolutionView, events: Seq<EventView>)
    requires
        at.phase is Finished,
    ensures
        run(at, events) == at,
    decreases events.len(),
{
    if events.len() > 0 {
        lemma_finished_is_final(at, events.drop_last());
    }
}

/// A tool that is on the search path is taken from there: the search of the
/// path is the only request made, and what it found is the outcome. The
/// settings, the remembered path and the release feed are not looked at.
pub proof fn lemma_path_hit_wins(tool: ToolView, cached: Option<Seq<char>>, path: Seq<char>)
    ensures
        requests(begin_of(tool, cached), seq![EventView::PathSearched { found: Some(path) }])
            == seq![
            ActionView::FindOnPath { name: tool.name },
            ActionView::Finish { outcome: Ok(path) },
        ],
        run(begin_of(tool, cached), seq![EventView::PathSearched { found: Some(path) }]).cached
            == cached,
{
    let start = begin_of(tool, cached);
    let events = seq![EventView::PathSearched { found: Some(path) }];
    assert(events.take(0) =~= Seq::<EventView>::empty());
    assert(events.take(1) =~= events);
    assert(events.drop_last() =~= Seq::<EventView>::empty());
    assert(run(start, events.drop_last()) == start);
    assert(run(start, events) == ended(start, Ok(path)));
    assert(requests(start, events) =~= seq![
        ActionView::FindOnPath { name: tool.name },
        ActionView::Finish { outcome: Ok(path) },
    ]);
}

/// Where the tool is not on the search path and the settings give a path
/// that is not empty, that path is the outcome, just as it was written.
/// The path was searched first and the settings read next; the remembered
/// path and the release feed are not looked at.
pub proof fn lemma_configured_path_wins(
    tool: ToolView,
    cached: Option<Seq<char>>,
    path: Seq<char>,
)
    requires
        path.len() > 0,
    ensures
        requests(
            begin_of(tool, cached),
            seq![
                EventView::PathSearched { found: None },
                EventView::SettingsRead {
                    settings: Some(
                        ToolSettingsView { binary: Some(BinarySettingsView { path: Some(path) }) },
                    ),
                },
            ],
        ) == seq![
            ActionView::FindOnPath { name: tool.name },
            ActionView::ReadSettings { name: tool.name },
            ActionView::Finish { outcome: Ok(path) },
        ],
{
    let start = begin_of(tool, cached);
    let miss = EventView::PathSearched { found: None };
    let read = EventView::SettingsRead {
        settings: Some(ToolSettingsView { binary: Some(BinarySettingsView { path: Some(path) }) }),
    };
    let events = seq![miss, read];
    assert(events.take(0) =~= Seq::<EventView>::empty());
    assert(events.take(1) =~= Seq::<EventView>::empty().push(miss));
    assert(events.take(2) =~= Seq::<EventView>::empty().push(miss).push(read));
    lemma_run_push(start, Seq::empty(), miss);
    lemma_run_push(start, Seq::empty().push(miss), read);
    assert(requests(start, events) =~= seq![
        ActionView::FindOnPath { name: tool.name },
        ActionView::ReadSettings { name: tool.name },
        ActionView::Finish { outcome: Ok(path) },
    ]);
}

/// Where neither the search path nor the settings give a path, and a
/// regular file lies at the remembered path, that path is the outcome and
/// nothing is asked of the release feed.
pub proof fn lemma_cached_file_is_reused(
    tool: ToolView,
    remembered: Seq<char>,
    settings: Option<ToolSettingsView>,
)
    requires
        configured_path_of(settings) is None,
    ensures
        requests(
            begin_of(tool, Some(remembered)),
            seq![
                EventView::PathSearched { found: None },
                EventView::SettingsRead { settings },
                EventView::FileProbed { is_file: true },
            ],
        ) == seq![
            ActionView::FindOnPath { name: tool.name },
            ActionView::ReadSettings { name: tool.name },
            ActionView::ProbeFile { path: remembered },
            ActionView::Finish { outcome: Ok(remembered) },
        ],
{
    let start = begin_of(tool, Some(remembered));
    let miss = EventView::PathSearched { found: None };
    let read = EventView::SettingsRead { settings };
    let probed = EventView::FileProbed { is_file: true };
    let events = seq![miss, read, probed];
    let none = Seq::<EventView>::empty();
    assert(events.take(0) =~= none);
    assert(events.take(1) =~= none.push(miss));
    assert(events.take(2) =~= none.push(miss).push(read));
    assert(events.take(3) =~= none.push(miss).push(read).push(probed));
    lemma_run_push(start, none, miss);
    lemma_run_push(start, none.push(miss), read);
    lemma_run_push(start, none.push(miss).push(read), probed);
    assert(requests(start, events) =~= seq![
        ActionView::FindOnPath { name: tool.name },
        ActionView::ReadSettings { name: tool.name },
        ActionView::ProbeFile { path: remembered },
        ActionView::Finish { outcome: Ok(remembered) },
    ]);
}

/// Where no regular file lies at the remembered path any more, that is no
/// failure: the resolution goes on to the install, and the path stays
/// remembered.
pub proof fn lemma_missing_cached_file_falls_through(
    tool: ToolView,
    remembered: Seq<char>,
    settings: Option<ToolSettingsView>,
)
    requires
        configured_path_of(settings) is None,
    ensures
        run(
            begin_of(tool, Some(remembered)),
            seq![
                EventView::PathSearched { found: None },
                EventView::SettingsRead { settings },
                EventView::FileProbed { is_file: false },
            ],
        ) == moved_to(begin_of(tool, Some(remembered)), PhaseView::AnnouncingCheck),
        request_of(tool, PhaseView::AnnouncingCheck) == (ActionView::SignalStatus {
            status: InstallStatus::CheckingForUpdate,
        }),
{
    let start = begin_of(tool, Some(remembered));
    let miss = EventView::PathSearched { found: None };
    let read = EventView::SettingsRead { settings };
    let probed = EventView::FileProbed { is_file: false };
    let none = Seq::<EventView>::empty();
    assert(seq![miss, read, probed] =~= none.push(miss).push(read).push(probed));
    lemma_run_push(start, none, miss);
    lemma_run_push(start, none.push(miss), read);
    lemma_run_push(start, none.push(miss).push(read), probed);
}

/// Where the release has no file of the name computed for the platform,
/// the resolution ends with the error that says so, and the text of that
/// error holds the name that was looked for.
pub proof fn lemma_missing_asset_fails(
    at: ResolutionView,
    release: ReleaseView,
    platform: PlatformTarget,
)
    requires
        at.phase == (PhaseView::QueryingPlatform { release }),
        forall|i: int|
            0 <= i < release.assets.len() ==> (#[trigger] release.assets[i]).name != asset_name_of(
                at.tool.name,
                release.version,
                platform.arch,
                platform.os,
            ),
    ensures
        ({
            let asset_name = asset_name_of(
                at.tool.name,
                release.version,
                platform.arch,
                platform.os,
            );
            let error = ResolveErrorView::AssetNotFound { asset_name };
            &&& advance(at, EventView::PlatformQueried { platform }) == ended(at, Err(error))
            &&& contains(message_of(error, at.tool.remediation), asset_name)
        }),
{
    let asset_name = asset_name_of(at.tool.name, release.version, platform.arch, platform.os);
    lemma_first_named(release.assets, asset_name);
    lemma_missing_asset_is_named(asset_name, at.tool.remediation);
}

/// Where the executable of the release already lies in its place, nothing
/// is fetched: the resolution ends at once with the path to it, and hands
/// out nothing else whatever is reported to it afterwards.
pub proof fn lemma_present_binary_is_not_fetched(
    at: ResolutionView,
    plan: InstallPlanView,
    later: Seq<EventView>,
)
    requires
        at.phase == (PhaseView::ProbingBinary { plan }),
    ensures
        advance(at, EventView::FileProbed { is_file: true }) == installed(at, plan.binary_path),
        forall|i: int|
            0 <= i <= later.len() ==> #[trigger] requests(
                advance(at, EventView::FileProbed { is_file: true }),
                later,
            )[i] == (ActionView::Finish { outcome: Ok(plan.binary_path) }),
{
    let end = advance(at, EventView::FileProbed { is_file: true });
    assert forall|i: int| 0 <= i <= later.len() implies #[trigger] requests(end, later)[i] == (
    ActionView::Finish { outcome: Ok(plan.binary_path) }) by {
        lemma_finished_is_final(end, later.take(i));
    }
}

/// The remembered path is never cleared, and it changes only at the end of
/// an install that succeeded, to the path that is the outcome.
pub proof fn lemma_cache_changes_only_on_install(at: ResolutionView, event: EventView)
    ensures
        at.cached is Some ==> advance(at, event).cached is Some,
        advance(at, event).cached != at.cached ==> exists|path: Seq<char>|
            advance(at, event) == installed(at, path),
{
    let next = advance(at, event);
    if next.cached != at.cached {
        assert(next.cached is Some);
        assert(next == installed(at, next.cached->0));
    }
}

/// The search of the path, the settings and the remembered path never
/// fail: from them a resolution ends with a path or goes on.
pub proof fn lemma_only_the_install_fails(at: ResolutionView, event: EventView)
    requires
        at.phase is SearchingPath || at.phase is ReadingSettings || at.phase is ProbingCache,
    ensures
        !(advance(at, event).phase matches PhaseView::Finished { outcome: Err(_) }),
{
}

} // verus!
