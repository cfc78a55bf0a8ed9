use zed_flatbuffers::error::ResolveError;
use zed_flatbuffers::platform::{Arch, ArchiveKind, Os, PlatformTarget};
use zed_flatbuffers::protocol::{Action, Event, InstallStatus};
use zed_flatbuffers::prune::DirEntry;
use zed_flatbuffers::release::{Asset, ReleaseDescriptor};
use zed_flatbuffers::resolver::{Phase, Resolution, ResolutionState};
use zed_flatbuffers::settings::{BinarySettings, ToolSettings};
use zed_flatbuffers::tool::Tool;

const NAME: &str = "flatbuffers-language-server";
const DIR_V2: &str = "flatbuffers-language-server-v2";
const BIN_V2: &str = "flatbuffers-language-server-v2/flatbuffers-language-server";
const ASSET_V2: &str = "flatbuffers-language-server-v2-aarch64-apple-darwin.tar.gz";

fn mac() -> PlatformTarget {
    PlatformTarget { os: Os::Mac, arch: Arch::Aarch64 }
}

fn release_v2() -> ReleaseDescriptor {
    ReleaseDescriptor {
        version: "v2".to_string(),
        assets: vec![
            Asset {
                name: "flatbuffers-language-server-v2-x86_64-pc-windows-msvc.zip".to_string(),
                download_url: "https://example.org/win".to_string(),
            },
            Asset { name: ASSET_V2.to_string(), download_url: "https://example.org/mac".to_string() },
        ],
    }
}

fn settings_with(path: Option<&str>) -> Option<ToolSettings> {
    Some(ToolSettings { binary: Some(BinarySettings { path: path.map(|p| p.to_string()) }) })
}

fn remembered(path: &str) -> ResolutionState {
    ResolutionState { cached_binary_path: Some(path.to_string()) }
}

fn named(name: &str) -> DirEntry {
    DirEntry::Named { name: name.to_string(), exact: true }
}

/// Hands `answers` to a new resolution, one after the other, and gives back
/// everything it handed out.
fn drive(state: ResolutionState, answers: Vec<Event>) -> (Vec<Action>, Resolution) {
    let (mut resolution, first) = Resolution::begin(Tool::flatbuffers(), state);
    let mut actions = vec![first];
    for answer in answers {
        let (next, action) = resolution.step(answer);
        resolution = next;
        actions.push(action);
    }
    (actions, resolution)
}

fn up_to_the_install() -> Vec<Event> {
    vec![
        Event::PathSearched { found: None },
        Event::SettingsRead { settings: None },
        Event::StatusSignalled,
        Event::ReleaseFetched { release: Ok(release_v2()) },
        Event::PlatformQueried { platform: mac() },
    ]
}

fn up_to_the_download() -> Vec<Event> {
    let mut events = up_to_the_install();
    events.push(Event::DirectoryCreated { outcome: Ok(()) });
    events.push(Event::FileProbed { is_file: false });
    events.push(Event::StatusSignalled);
    events
}

#[test]
fn a_new_state_remembers_nothing() {
    assert_eq!(ResolutionState::new(), ResolutionState { cached_binary_path: None });
}

#[test]
fn a_resolution_begins_by_searching_the_path() {
    let (resolution, first) = Resolution::begin(Tool::flatbuffers(), ResolutionState::new());
    assert_eq!(first, Action::FindOnPath { name: NAME.to_string() });
    assert_eq!(resolution.phase, Phase::SearchingPath);
    assert_eq!(resolution.outcome(), None);
}

#[test]
fn a_binary_on_the_path_wins_over_everything() {
    let (actions, resolution) = drive(
        remembered("/cache/bin"),
        vec![Event::PathSearched { found: Some("/usr/local/bin/fls".to_string()) }],
    );
    assert_eq!(
        actions,
        vec![
            Action::FindOnPath { name: NAME.to_string() },
            Action::Finish { outcome: Ok("/usr/local/bin/fls".to_string()) },
        ]
    );
    assert_eq!(resolution.outcome(), Some(&Ok("/usr/local/bin/fls".to_string())));
    assert_eq!(resolution.into_state(), remembered("/cache/bin"));
}

#[test]
fn a_configured_path_wins_over_cache_and_network() {
    let (actions, resolution) = drive(
        remembered("/cache/bin"),
        vec![
            Event::PathSearched { found: None },
            Event::SettingsRead { settings: settings_with(Some("/opt/custom/fls")) },
        ],
    );
    assert_eq!(
        actions,
        vec![
            Action::FindOnPath { name: NAME.to_string() },
            Action::ReadSettings { name: NAME.to_string() },
            Action::Finish { outcome: Ok("/opt/custom/fls".to_string()) },
        ]
    );
    assert_eq!(resolution.into_state(), remembered("/cache/bin"));
}

#[test]
fn a_configured_path_is_not_checked() {
    let (actions, _) = drive(
        ResolutionState::new(),
        vec![
            Event::PathSearched { found: None },
            Event::SettingsRead { settings: settings_with(Some("no such file")) },
        ],
    );
    assert_eq!(actions[2], Action::Finish { outcome: Ok("no such file".to_string()) });
}

#[test]
fn an_empty_configured_path_is_passed_over() {
    let (actions, _) = drive(
        ResolutionState::new(),
        vec![
            Event::PathSearched { found: None },
            Event::SettingsRead { settings: settings_with(Some("")) },
        ],
    );
    assert_eq!(
        actions[2],
        Action::SignalStatus { status: InstallStatus::CheckingForUpdate }
    );
}

#[test]
fn missing_settings_are_no_error() {
    for settings in [None, Some(ToolSettings { binary: None }), settings_with(None)] {
        let (actions, _) = drive(
            remembered("/cache/bin"),
            vec![Event::PathSearched { found: None }, Event::SettingsRead { settings }],
        );
        assert_eq!(actions[2], Action::ProbeFile { path: "/cache/bin".to_string() });
    }
}

#[test]
fn a_cached_binary_that_exists_is_reused() {
    let (actions, resolution) = drive(
        remembered("/cache/bin"),
        vec![
            Event::PathSearched { found: None },
            Event::SettingsRead { settings: None },
            Event::FileProbed { is_file: true },
        ],
    );
    assert_eq!(
        actions,
        vec![
            Action::FindOnPath { name: NAME.to_string() },
            Action::ReadSettings { name: NAME.to_string() },
            Action::ProbeFile { path: "/cache/bin".to_string() },
            Action::Finish { outcome: Ok("/cache/bin".to_string()) },
        ]
    );
    assert_eq!(resolution.into_state(), remembered("/cache/bin"));
}

#[test]
fn a_cached_binary_that_is_gone_leads_to_the_install() {
    let (actions, resolution) = drive(
        remembered("/cache/bin"),
        vec![
            Event::PathSearched { found: None },
            Event::SettingsRead { settings: None },
            Event::FileProbed { is_file: false },
            Event::StatusSignalled,
        ],
    );
    assert_eq!(
        actions[3..],
        [
            Action::SignalStatus { status: InstallStatus::CheckingForUpdate },
            Action::FetchLatestRelease {
                repository: "smpanaro/flatbuffers-language-server".to_string(),
                require_assets: true,
                pre_release: false,
            },
        ]
    );
    assert_eq!(resolution.outcome(), None);
    assert_eq!(resolution.into_state(), remembered("/cache/bin"));
}

#[test]
fn a_full_install_prunes_the_old_version_and_remembers_the_new() {
    let mut events = up_to_the_download();
    events.push(Event::Downloaded { outcome: Ok(()) });
    events.push(Event::MadeExecutable { outcome: Ok(()) });
    events.push(Event::DirectoryListed {
        listing: Ok(vec![
            named("flatbuffers-language-server-v1"),
            named("extension.toml"),
            named(DIR_V2),
        ]),
    });
    events.push(Event::EntriesRemoved);
    let (actions, resolution) = drive(ResolutionState::new(), events);
    assert_eq!(
        actions,
        vec![
            Action::FindOnPath { name: NAME.to_string() },
            Action::ReadSettings { name: NAME.to_string() },
            Action::SignalStatus { status: InstallStatus::CheckingForUpdate },
            Action::FetchLatestRelease {
                repository: "smpanaro/flatbuffers-language-server".to_string(),
                require_assets: true,
                pre_release: false,
            },
            Action::QueryPlatform,
            Action::CreateDirectory { path: DIR_V2.to_string() },
            Action::ProbeFile { path: BIN_V2.to_string() },
            Action::SignalStatus { status: InstallStatus::Downloading },
            Action::Download {
                url: "https://example.org/mac".to_string(),
                destination: DIR_V2.to_string(),
                kind: ArchiveKind::GzipTar,
            },
            Action::MakeExecutable { path: BIN_V2.to_string() },
            Action::ListDirectory { path: ".".to_string() },
            Action::RemoveEntries { positions: vec![0] },
            Action::Finish { outcome: Ok(BIN_V2.to_string()) },
        ]
    );
    assert_eq!(resolution.into_state(), remembered(BIN_V2));
}

#[test]
fn an_install_on_windows_fetches_the_zip() {
    let mut events = up_to_the_install();
    events.pop();
    events.push(Event::PlatformQueried {
        platform: PlatformTarget { os: Os::Windows, arch: Arch::X86_64 },
    });
    events.push(Event::DirectoryCreated { outcome: Ok(()) });
    events.push(Event::FileProbed { is_file: false });
    events.push(Event::StatusSignalled);
    let (actions, _) = drive(ResolutionState::new(), events);
    assert_eq!(
        actions.last(),
        Some(&Action::Download {
            url: "https://example.org/win".to_string(),
            destination: DIR_V2.to_string(),
            kind: ArchiveKind::Zip,
        })
    );
}

#[test]
fn an_installed_binary_is_not_fetched_again() {
    let mut events = up_to_the_install();
    events.push(Event::DirectoryCreated { outcome: Ok(()) });
    events.push(Event::FileProbed { is_file: true });
    let (actions, resolution) = drive(ResolutionState::new(), events);
    assert_eq!(
        actions[5..],
        [
            Action::CreateDirectory { path: DIR_V2.to_string() },
            Action::ProbeFile { path: BIN_V2.to_string() },
            Action::Finish { outcome: Ok(BIN_V2.to_string()) },
        ]
    );
    assert!(!actions.iter().any(|a| matches!(a, Action::Download { .. })));
    assert!(!actions.iter().any(|a| matches!(a, Action::RemoveEntries { .. })));
    assert_eq!(resolution.into_state(), remembered(BIN_V2));
}

#[test]
fn a_directory_without_the_binary_is_installed_anew() {
    let (actions, _) = drive(ResolutionState::new(), up_to_the_download());
    assert_eq!(
        actions[7..],
        [
            Action::SignalStatus { status: InstallStatus::Downloading },
            Action::Download {
                url: "https://example.org/mac".to_string(),
                destination: DIR_V2.to_string(),
                kind: ArchiveKind::GzipTar,
            },
        ]
    );
}

#[test]
fn a_failed_release_lookup_ends_the_resolution() {
    let (actions, resolution) = drive(
        remembered("/cache/bin"),
        vec![
            Event::PathSearched { found: None },
            Event::SettingsRead { settings: None },
            Event::FileProbed { is_file: false },
            Event::StatusSignalled,
            Event::ReleaseFetched { release: Err("feed unreachable".to_string()) },
        ],
    );
    assert_eq!(
        actions.last(),
        Some(&Action::Finish {
            outcome: Err(ResolveError::ReleaseLookup { cause: "feed unreachable".to_string() }),
        })
    );
    assert_eq!(resolution.into_state(), remembered("/cache/bin"));
}

#[test]
fn a_release_without_the_asset_fails_and_names_it() {
    let mut events = up_to_the_install();
    events.pop();
    events.push(Event::PlatformQueried {
        platform: PlatformTarget { os: Os::Linux, arch: Arch::X86 },
    });
    let (actions, resolution) = drive(ResolutionState::new(), events);
    let wanted = "flatbuffers-language-server-v2-x86-unknown-linux-gnu.tar.gz";
    assert_eq!(
        actions.last(),
        Some(&Action::Finish {
            outcome: Err(ResolveError::AssetNotFound { asset_name: wanted.to_string() }),
        })
    );
    let Some(Err(error)) = resolution.outcome() else { panic!("the resolution did not fail") };
    assert!(error.message(&Tool::flatbuffers().remediation).contains(wanted));
    assert_eq!(resolution.into_state(), ResolutionState::new());
}

#[test]
fn a_directory_that_cannot_be_created_ends_the_resolution() {
    let mut events = up_to_the_install();
    events.push(Event::DirectoryCreated { outcome: Err("read-only file system".to_string()) });
    let (actions, _) = drive(ResolutionState::new(), events);
    assert_eq!(
        actions.last(),
        Some(&Action::Finish {
            outcome: Err(ResolveError::DirectoryCreate {
                directory: DIR_V2.to_string(),
                cause: "read-only file system".to_string(),
            }),
        })
    );
}

#[test]
fn a_failed_download_ends_the_resolution() {
    let mut events = up_to_the_download();
    events.push(Event::Downloaded { outcome: Err("404".to_string()) });
    let (actions, resolution) = drive(ResolutionState::new(), events);
    assert_eq!(
        actions.last(),
        Some(&Action::Finish { outcome: Err(ResolveError::Download { cause: "404".to_string() }) })
    );
    assert_eq!(resolution.into_state(), ResolutionState::new());
}

#[test]
fn a_refused_permission_ends_the_resolution() {
    let mut events = up_to_the_download();
    events.push(Event::Downloaded { outcome: Ok(()) });
    events.push(Event::MadeExecutable { outcome: Err("refused".to_string()) });
    let (actions, _) = drive(ResolutionState::new(), events);
    assert_eq!(
        actions.last(),
        Some(&Action::Finish {
            outcome: Err(ResolveError::Permission { cause: "refused".to_string() }),
        })
    );
}

#[test]
fn a_listing_that_fails_ends_the_resolution() {
    let mut events = up_to_the_download();
    events.push(Event::Downloaded { outcome: Ok(()) });
    events.push(Event::MadeExecutable { outcome: Ok(()) });
    events.push(Event::DirectoryListed { listing: Err("gone".to_string()) });
    let (actions, resolution) = drive(ResolutionState::new(), events);
    assert_eq!(
        actions.last(),
        Some(&Action::Finish {
            outcome: Err(ResolveError::DirectoryList { cause: "gone".to_string() }),
        })
    );
    assert_eq!(resolution.into_state(), ResolutionState::new());
}

#[test]
fn an_unreadable_entry_does_not_stop_the_install() {
    let mut events = up_to_the_download();
    events.push(Event::Downloaded { outcome: Ok(()) });
    events.push(Event::MadeExecutable { outcome: Ok(()) });
    events.push(Event::DirectoryListed {
        listing: Ok(vec![
            DirEntry::Unreadable,
            named("flatbuffers-language-server-v1"),
            named(DIR_V2),
            DirEntry::Named { name: "flatbuffers-language-server-\u{fffd}".to_string(), exact: false },
        ]),
    });
    events.push(Event::EntriesRemoved);
    let (actions, _) = drive(ResolutionState::new(), events);
    assert_eq!(
        actions[actions.len() - 2..],
        [
            Action::RemoveEntries { positions: vec![1, 3] },
            Action::Finish { outcome: Ok(BIN_V2.to_string()) },
        ]
    );
}

#[test]
fn an_answer_to_another_request_changes_nothing() {
    let (resolution, _) = Resolution::begin(Tool::flatbuffers(), remembered("/cache/bin"));
    let (resolution, action) = resolution.step(Event::FileProbed { is_file: true });
    assert_eq!(action, Action::FindOnPath { name: NAME.to_string() });
    assert_eq!(resolution.phase, Phase::SearchingPath);
    let (resolution, action) = resolution.step(Event::EntriesRemoved);
    assert_eq!(action, Action::FindOnPath { name: NAME.to_string() });
    let (resolution, action) = resolution.step(Event::PathSearched { found: None });
    assert_eq!(action, Action::ReadSettings { name: NAME.to_string() });
    let (resolution, action) = resolution.step(Event::PathSearched { found: Some("x".to_string()) });
    assert_eq!(action, Action::ReadSettings { name: NAME.to_string() });
    assert_eq!(resolution.phase, Phase::ReadingSettings);
}

#[test]
fn a_finished_resolution_stays_finished() {
    let (_, resolution) = drive(
        ResolutionState::new(),
        vec![Event::PathSearched { found: Some("/bin/fls".to_string()) }],
    );
    let (resolution, action) = resolution.step(Event::PathSearched { found: None });
    assert_eq!(action, Action::Finish { outcome: Ok("/bin/fls".to_string()) });
    let (resolution, action) = resolution.step(Event::Downloaded { outcome: Err("x".to_string()) });
    assert_eq!(action, Action::Finish { outcome: Ok("/bin/fls".to_string()) });
    assert_eq!(resolution.outcome(), Some(&Ok("/bin/fls".to_string())));
}

#[test]
fn the_state_carries_over_to_the_next_resolution() {
    let mut events = up_to_the_install();
    events.push(Event::DirectoryCreated { outcome: Ok(()) });
    events.push(Event::FileProbed { is_file: true });
    let (_, first) = drive(ResolutionState::new(), events);
    let (actions, second) = drive(
        first.into_state(),
        vec![
            Event::PathSearched { found: None },
            Event::SettingsRead { settings: None },
            Event::FileProbed { is_file: true },
        ],
    );
    assert_eq!(actions[2], Action::ProbeFile { path: BIN_V2.to_string() });
    assert_eq!(second.outcome(), Some(&Ok(BIN_V2.to_string())));
}

#[test]
fn each_phase_repeats_its_request() {
    let tool = Tool::flatbuffers();
    assert_eq!(Phase::SearchingPath.request(&tool), Action::FindOnPath { name: NAME.to_string() });
    assert_eq!(
        Phase::ProbingCache { path: "p".to_string() }.request(&tool),
        Action::ProbeFile { path: "p".to_string() }
    );
    assert_eq!(
        Phase::QueryingPlatform { release: release_v2() }.request(&tool),
        Action::QueryPlatform
    );
    assert_eq!(
        Phase::Finished { outcome: Err(ResolveError::Download { cause: "c".to_string() }) }
            .request(&tool),
        Action::Finish { outcome: Err(ResolveError::Download { cause: "c".to_string() }) }
    );
}
