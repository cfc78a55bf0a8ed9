use zed_flatbuffers::prune::{stale_entries, DirEntry};
use zed_flatbuffers::text::starts_with;

fn named(name: &str) -> DirEntry {
    DirEntry::Named { name: name.to_string(), exact: true }
}

#[test]
fn starts_with_compares_the_leading_characters() {
    assert!(starts_with("tool-1.2.3", "tool-"));
    assert!(starts_with("tool-", "tool-"));
    assert!(starts_with("anything", ""));
    assert!(starts_with("", ""));
    assert!(!starts_with("tool", "tool-"));
    assert!(!starts_with("", "t"));
    assert!(!starts_with("Tool-1", "tool-"));
    assert!(!starts_with("xtool-1", "tool-"));
    assert!(starts_with("gr\u{fc}n-1", "gr\u{fc}n-"));
    assert!(!starts_with("gru\u{308}n-1", "gr\u{fc}n-"));
}

#[test]
fn an_entry_is_stale_when_it_is_another_install() {
    assert!(named("tool-1.0.0").is_stale("tool-", "tool-2.0.0"));
    assert!(!named("tool-2.0.0").is_stale("tool-", "tool-2.0.0"));
    assert!(!named("notes.txt").is_stale("tool-", "tool-2.0.0"));
    assert!(!named("tool").is_stale("tool-", "tool-2.0.0"));
    assert!(named("tool-2.0.0.part").is_stale("tool-", "tool-2.0.0"));
    assert!(named("tool-2").is_stale("tool-", "tool-2.0.0"));
    assert!(!DirEntry::Unreadable.is_stale("tool-", "tool-2.0.0"));
}

#[test]
fn an_inexact_name_is_never_the_installed_directory() {
    let inexact = DirEntry::Named { name: "tool-2.0.0".to_string(), exact: false };
    assert!(inexact.is_stale("tool-", "tool-2.0.0"));
    let other = DirEntry::Named { name: "other-\u{fffd}".to_string(), exact: false };
    assert!(!other.is_stale("tool-", "tool-2.0.0"));
}

#[test]
fn old_versions_are_pruned_and_the_new_one_is_kept() {
    let listing = vec![named("tool-v1"), named("tool-v2")];
    assert_eq!(stale_entries(&listing, "tool-", "tool-v2"), vec![0]);
    let listing = vec![named("tool-v2"), named("tool-v1")];
    assert_eq!(stale_entries(&listing, "tool-", "tool-v2"), vec![1]);
}

#[test]
fn pruning_leaves_exactly_one_version_directory() {
    let listing = vec![
        named("tool-v1"),
        named("README.md"),
        named("tool-v2"),
        DirEntry::Unreadable,
        named("tool-v0"),
        named("tool-v2-old"),
        named("toolbox"),
    ];
    let stale = stale_entries(&listing, "tool-", "tool-v2");
    assert_eq!(stale, vec![0, 4, 5]);
    let left: Vec<&DirEntry> = listing
        .iter()
        .enumerate()
        .filter(|(i, _)| !stale.contains(i))
        .map(|(_, e)| e)
        .collect();
    let versions: Vec<&DirEntry> = left
        .into_iter()
        .filter(|e| matches!(e, DirEntry::Named { name, .. } if name.starts_with("tool-")))
        .collect();
    assert_eq!(versions, vec![&named("tool-v2")]);
}

#[test]
fn nothing_is_pruned_from_an_empty_or_clean_directory() {
    assert_eq!(stale_entries(&vec![], "tool-", "tool-v2"), Vec::<usize>::new());
    let listing = vec![named("tool-v2"), named("src"), DirEntry::Unreadable];
    assert_eq!(stale_entries(&listing, "tool-", "tool-v2"), Vec::<usize>::new());
}

#[test]
fn every_other_version_is_pruned() {
    let listing = vec![named("tool-a"), named("tool-b"), named("tool-c")];
    assert_eq!(stale_entries(&listing, "tool-", "tool-d"), vec![0, 1, 2]);
}
