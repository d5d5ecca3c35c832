//! Tree archiving and restore dispatch, end to end over in-memory
//! containers.

use parchbackup::archive::{archive_tree, should_include, TreeArchiver};
use parchbackup::container::{parse_container, Entry, EntryKind};
use parchbackup::errors::BackupError;
use parchbackup::namespace::RestoreDest;
use parchbackup::restore::{plan_restore, RestoreOutcome};

fn seg(parts: &[&str]) -> Vec<String> {
    parts.iter().map(|s| s.to_string()).collect()
}

fn dir(parts: &[&str]) -> Entry {
    Entry { path: seg(parts), kind: EntryKind::Dir }
}

fn file(parts: &[&str], content: &[u8]) -> Entry {
    Entry { path: seg(parts), kind: EntryKind::File(content.to_vec()) }
}

fn sample_tree() -> Vec<Entry> {
    vec![
        dir(&[]),
        dir(&["a"]),
        file(&["a", "x.txt"], b"xx"),
        dir(&["a", "sub"]),
        file(&["a", "sub", "y.txt"], b"yy"),
        dir(&["b"]),
        file(&["b", "z.txt"], b"zz"),
    ]
}

#[test]
fn archive_with_exclusion_keeps_exactly_the_planned_entries() {
    let bytes = archive_tree(&sample_tree(), vec![seg(&["b"])], false).unwrap();
    let entries = parse_container(&bytes).unwrap();
    let expected = vec![
        dir(&["a"]),
        file(&["a", "x.txt"], b"xx"),
        dir(&["a", "sub"]),
        file(&["a", "sub", "y.txt"], b"yy"),
    ];
    assert_eq!(entries, expected);
}

#[test]
fn archive_without_exclusions_keeps_everything_but_the_root() {
    let bytes = archive_tree(&sample_tree(), vec![], false).unwrap();
    let entries = parse_container(&bytes).unwrap();
    let mut expected = sample_tree();
    expected.remove(0);
    assert_eq!(entries, expected);
}

#[test]
fn nested_exclusion_skips_the_subtree_only() {
    let bytes = archive_tree(&sample_tree(), vec![seg(&["a", "sub"])], false).unwrap();
    let entries = parse_container(&bytes).unwrap();
    let expected = vec![
        dir(&["a"]),
        file(&["a", "x.txt"], b"xx"),
        dir(&["b"]),
        file(&["b", "z.txt"], b"zz"),
    ];
    assert_eq!(entries, expected);
}

#[test]
fn should_include_resolves_against_the_source_root() {
    let exclusions = vec![seg(&["b"])];
    assert!(should_include(&seg(&["a", "x.txt"]), &exclusions));
    assert!(!should_include(&seg(&["b"]), &exclusions));
    assert!(!should_include(&seg(&["b", "z.txt"]), &exclusions));
    // The root itself is never an entry.
    assert!(!should_include(&seg(&[]), &exclusions));
}

#[test]
fn cancelled_run_aborts_and_yields_no_artifact() {
    let r = archive_tree(&sample_tree(), vec![], true);
    assert_eq!(r, Err(BackupError::Cancelled));
}

#[test]
fn cancellation_mid_run_aborts_the_archiver() {
    let nodes = sample_tree();
    let mut arch = TreeArchiver::new(vec![]);
    assert_eq!(arch.offer(&nodes[1], false), Ok(true));
    let r = arch.offer(&nodes[2], true);
    assert_eq!(r, Err(BackupError::Cancelled));
}

#[test]
fn empty_tree_archives_to_an_empty_container() {
    let bytes = archive_tree(&vec![], vec![], false).unwrap();
    let entries = parse_container(&bytes).unwrap();
    assert!(entries.is_empty());
}

#[test]
fn garbage_bytes_are_not_a_container() {
    let junk: Vec<u8> = b"not an archive at all".to_vec();
    assert_eq!(parse_container(&junk), Err(BackupError::IoFailure));
}

#[test]
fn unknown_namespace_aborts_and_keeps_earlier_writes() {
    // A container whose second entry carries a foreign top-level segment.
    let nodes = vec![
        file(&["homeb", "notes.txt"], b"hello"),
        file(&["mystery", "x"], b"??"),
        file(&["sshb", "config"], b"later"),
    ];
    let bytes = archive_tree(&nodes, vec![], false).unwrap();
    let entries = parse_container(&bytes).unwrap();
    let plan = plan_restore(&entries);
    assert_eq!(plan.outcome, RestoreOutcome::UnknownNamespace("mystery".to_string()));
    // The write before the aborting entry stays; nothing after it is planned.
    assert_eq!(plan.writes.len(), 1);
    assert_eq!(plan.writes[0].dest, RestoreDest::HomeDir);
    assert_eq!(plan.writes[0].rel, seg(&["notes.txt"]));
    assert_eq!(plan.writes[0].kind, EntryKind::File(b"hello".to_vec()));
    assert!(plan.apps.is_empty());
    assert!(plan.flatpak.is_empty());
}

#[test]
fn tree_entries_route_to_their_fixed_destinations() {
    let nodes = vec![
        file(&["homeb", "doc.txt"], b"d"),
        file(&["gnupgb", "keyring"], b"g"),
        file(&["sshb", "config"], b"s"),
    ];
    let bytes = archive_tree(&nodes, vec![], false).unwrap();
    let entries = parse_container(&bytes).unwrap();
    let plan = plan_restore(&entries);
    assert_eq!(plan.outcome, RestoreOutcome::Completed);
    let dests: Vec<RestoreDest> = plan.writes.iter().map(|w| w.dest).collect();
    assert_eq!(dests, vec![RestoreDest::HomeDir, RestoreDest::GnupgDir, RestoreDest::SshDir]);
}

#[test]
fn an_unreadable_nested_archive_aborts_and_keeps_earlier_writes() {
    // A tree entry named like a nested container but holding junk bytes.
    let nodes = vec![
        file(&["homeb", "first.txt"], b"kept"),
        file(&["homeb", "old_backup.tar.gz"], b"not a container"),
        file(&["homeb", "after.txt"], b"never planned"),
    ];
    let bytes = archive_tree(&nodes, vec![], false).unwrap();
    let entries = parse_container(&bytes).unwrap();
    let plan = plan_restore(&entries);
    assert_eq!(plan.outcome, RestoreOutcome::IoFailure);
    assert_eq!(plan.writes.len(), 1);
    assert_eq!(plan.writes[0].rel, seg(&["first.txt"]));
}
