//! Consolidation, sealing and full backup/restore round trips.

use parchbackup::archive::archive_tree;
use parchbackup::cli::BackupArgs;
use parchbackup::consolidate::{consolidate_with_timestamp, Artifact};
use parchbackup::container::{parse_container, Entry, EntryKind};
use parchbackup::crypto::{decrypt_payload, encrypt_payload};
use parchbackup::errors::{BackupError, CryptoError};
use parchbackup::namespace::{Namespace, RestoreDest};
use parchbackup::restore::{plan_restore, restore_archive, RestoreOutcome};

fn seg(parts: &[&str]) -> Vec<String> {
    parts.iter().map(|s| s.to_string()).collect()
}

fn args(apps: bool, home: bool, keys: bool, flatpak: bool, key: Option<&str>) -> BackupArgs {
    BackupArgs {
        archive_path: None,
        apps,
        home,
        exclude_dir: vec![],
        flatpak,
        keys,
        encrypt: key.is_some(),
        encrypt_key: key.map(|k| k.to_string()),
    }
}

fn artifact(ns: Namespace, name: &str, content: &[u8]) -> Artifact {
    Artifact { ns, file_name: name.to_string(), content: content.to_vec() }
}

fn ts() -> String {
    "2024-05-06-07:08:09".to_string()
}

#[test]
fn consolidation_names_the_archive_from_timestamp_and_options() {
    let a = consolidate_with_timestamp(&vec![], &args(true, true, true, true, None), &ts()).unwrap();
    assert_eq!(a.name, "backup-2024-05-06-07:08:09-ahkf.tar.gz");
    assert!(!a.sealed);
    let sealed = consolidate_with_timestamp(
        &vec![],
        &args(true, false, false, true, Some("pw")),
        &ts(),
    )
    .unwrap();
    assert_eq!(sealed.name, "backup-2024-05-06-07:08:09-afe.tar.gz");
    assert!(sealed.sealed);
}

#[test]
fn consolidated_list_artifact_restores_to_the_install_list() {
    let artifacts = vec![artifact(Namespace::AppsList, "apps.txt", b"pkg1\npkg2")];
    let a = consolidate_with_timestamp(&artifacts, &args(true, false, false, false, None), &ts())
        .unwrap();
    let plan = restore_archive(&a.bytes, &a.name, false, &None).unwrap();
    assert_eq!(plan.outcome, RestoreOutcome::Completed);
    assert_eq!(plan.apps, vec![b"pkg1".to_vec(), b"pkg2".to_vec()]);
    assert!(plan.flatpak.is_empty());
    assert!(plan.writes.is_empty());
}

#[test]
fn consolidating_all_four_categories_round_trips() {
    // The home and key trees arrive as containers of their own, as the
    // collectors produce them; lists arrive as plain text.
    let home_tree = vec![
        Entry { path: seg(&["Documents"]), kind: EntryKind::Dir },
        Entry { path: seg(&["Documents", "a.txt"]), kind: EntryKind::File(b"A".to_vec()) },
    ];
    let home_bytes = archive_tree(&home_tree, vec![], false).unwrap();
    let ssh_tree = vec![Entry { path: seg(&["config"]), kind: EntryKind::File(b"S".to_vec()) }];
    let ssh_bytes = archive_tree(&ssh_tree, vec![], false).unwrap();
    let artifacts = vec![
        artifact(Namespace::AppsList, "apps.txt", b"pkg1\npkg2"),
        artifact(Namespace::HomeTree, "home_backup.tar.gz", &home_bytes),
        artifact(Namespace::SshTree, "ssh_backup.tar.gz", &ssh_bytes),
        artifact(Namespace::FlatpakList, "flatpak_apps.txt", b"org.app.One"),
    ];
    let a = consolidate_with_timestamp(&artifacts, &args(true, true, true, true, None), &ts())
        .unwrap();
    let plan = restore_archive(&a.bytes, &a.name, false, &None).unwrap();
    assert_eq!(plan.outcome, RestoreOutcome::Completed);
    assert_eq!(plan.apps, vec![b"pkg1".to_vec(), b"pkg2".to_vec()]);
    assert_eq!(plan.flatpak, vec![b"org.app.One".to_vec()]);
    // The embedded containers were expanded entry by entry, not written
    // verbatim: home content lands under the home base, byte for byte.
    assert_eq!(plan.writes.len(), 3);
    assert_eq!(plan.writes[0].dest, RestoreDest::HomeDir);
    assert_eq!(plan.writes[0].rel, seg(&["Documents"]));
    assert_eq!(plan.writes[0].kind, EntryKind::Dir);
    assert_eq!(plan.writes[1].dest, RestoreDest::HomeDir);
    assert_eq!(plan.writes[1].rel, seg(&["Documents", "a.txt"]));
    assert_eq!(plan.writes[1].kind, EntryKind::File(b"A".to_vec()));
    assert_eq!(plan.writes[2].dest, RestoreDest::SshDir);
    assert_eq!(plan.writes[2].rel, seg(&["config"]));
    assert_eq!(plan.writes[2].kind, EntryKind::File(b"S".to_vec()));
}

#[test]
fn sealing_round_trips_and_the_wrong_key_is_refused() {
    let data = b"the archive bytes".to_vec();
    let sealed = encrypt_payload(&data, &b"right key".to_vec()).unwrap();
    assert_ne!(sealed, data);
    let opened = decrypt_payload(&sealed, &b"right key".to_vec()).unwrap();
    assert_eq!(opened, data);
    let wrong = decrypt_payload(&sealed, &b"wrong key".to_vec());
    assert_eq!(wrong, Err(CryptoError::Decryption));
}

#[test]
fn sealed_archive_restores_with_the_key_and_only_with_it() {
    let artifacts = vec![artifact(Namespace::AppsList, "apps.txt", b"pkg1")];
    let a = consolidate_with_timestamp(
        &artifacts,
        &args(true, false, false, false, Some("hunter2")),
        &ts(),
    )
    .unwrap();
    assert!(a.sealed);
    // Without the decrypt flag the marker in the name refuses the restore.
    assert!(matches!(
        restore_archive(&a.bytes, &a.name, false, &None),
        Err(BackupError::DecryptionRequired)
    ));
    // The wrong key fails the open; it never yields corrupted entries.
    assert!(matches!(
        restore_archive(&a.bytes, &a.name, true, &Some("letmein".to_string())),
        Err(BackupError::OpenFailure)
    ));
    let plan = restore_archive(&a.bytes, &a.name, true, &Some("hunter2".to_string())).unwrap();
    assert_eq!(plan.outcome, RestoreOutcome::Completed);
    assert_eq!(plan.apps, vec![b"pkg1".to_vec()]);
}

#[test]
fn a_failed_consolidation_leaves_unconsumed_sources_untouched() {
    // Consolidation works on in-memory values; the at-most-once consumption
    // contract is visible here as: the artifacts are only read, never
    // altered, and deletion is the caller's step after a durable write.
    let artifacts = vec![artifact(Namespace::AppsList, "apps.txt", b"pkg1")];
    let before = artifacts[0].content.clone();
    let _ = consolidate_with_timestamp(&artifacts, &args(true, false, false, false, None), &ts());
    assert_eq!(artifacts[0].content, before);
}

#[test]
fn plaintext_container_parses_back_to_its_entries() {
    let artifacts = vec![artifact(Namespace::GnupgTree, "keyring.bin", b"\x01\x02")];
    let a = consolidate_with_timestamp(&artifacts, &args(false, false, true, false, None), &ts())
        .unwrap();
    let entries = parse_container(&a.bytes).unwrap();
    assert_eq!(entries.len(), 1);
    assert_eq!(entries[0].path, seg(&["gnupgb", "keyring.bin"]));
    assert_eq!(entries[0].kind, EntryKind::File(b"\x01\x02".to_vec()));
    // A non-container file under a tree namespace is written verbatim.
    let plan = plan_restore(&entries);
    assert_eq!(plan.writes.len(), 1);
    assert_eq!(plan.writes[0].dest, RestoreDest::GnupgDir);
    assert_eq!(plan.writes[0].rel, seg(&["keyring.bin"]));
}
