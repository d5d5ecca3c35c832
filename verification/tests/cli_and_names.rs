//! The command-line parser, the namespace mapping, the naming convention
//! and line splitting.

use parchbackup::backup::requested_namespaces;
use parchbackup::cli::{parse_cli, BackupArgs, CliError, Commands};
use parchbackup::errors::BackupError;
use parchbackup::naming::{archive_name, is_transient_backup_name, name_marks_encrypted};
use parchbackup::namespace::{artifact_file_name, parse_tag, tag, Namespace};
use parchbackup::restore::{determine_restore_path, split_lines};
use parchbackup::namespace::RestoreDest;

fn argv(parts: &[&str]) -> Vec<String> {
    parts.iter().map(|s| s.to_string()).collect()
}

#[test]
fn every_tag_parses_back_to_its_namespace() {
    let all = [
        Namespace::AppsList,
        Namespace::HomeTree,
        Namespace::FlatpakList,
        Namespace::GnupgTree,
        Namespace::SshTree,
    ];
    for ns in all {
        assert_eq!(parse_tag(&tag(ns)), Some(ns));
    }
    assert_eq!(parse_tag(&"attic".to_string()), None);
    assert_eq!(parse_tag(&String::new()), None);
}

#[test]
fn namespace_tags_and_artifact_names_are_the_fixed_ones() {
    assert_eq!(tag(Namespace::AppsList), "appsb");
    assert_eq!(tag(Namespace::HomeTree), "homeb");
    assert_eq!(tag(Namespace::FlatpakList), "flatpakb");
    assert_eq!(tag(Namespace::GnupgTree), "gnupgb");
    assert_eq!(tag(Namespace::SshTree), "sshb");
    assert_eq!(artifact_file_name(Namespace::AppsList), "apps.txt");
    assert_eq!(artifact_file_name(Namespace::HomeTree), "home_backup.tar.gz");
    assert_eq!(artifact_file_name(Namespace::FlatpakList), "flatpak_apps.txt");
    assert_eq!(artifact_file_name(Namespace::GnupgTree), "gnupg_backup.tar.gz");
    assert_eq!(artifact_file_name(Namespace::SshTree), "ssh_backup.tar.gz");
}

#[test]
fn archive_names_follow_the_convention() {
    let ts = "2024-05-06-07:08:09".to_string();
    assert_eq!(
        archive_name(&ts, true, true, true, true, false),
        "backup-2024-05-06-07:08:09-ahkf.tar.gz"
    );
    assert_eq!(
        archive_name(&ts, false, true, false, false, true),
        "backup-2024-05-06-07:08:09-he.tar.gz"
    );
    assert_eq!(archive_name(&ts, false, false, false, false, false), "backup-2024-05-06-07:08:09-.tar.gz");
}

#[test]
fn the_encryption_marker_is_detected_exactly() {
    assert!(name_marks_encrypted(&"backup-2024-05-06-07:08:09-ahkfe.tar.gz".to_string()));
    assert!(!name_marks_encrypted(&"backup-2024-05-06-07:08:09-ahkf.tar.gz".to_string()));
    assert!(!name_marks_encrypted(&"backup-2024-05-06-07:08:09-.tar.gz".to_string()));
    assert!(!name_marks_encrypted(&"short".to_string()));
}

#[test]
fn transient_artifact_names_are_recognized() {
    assert!(is_transient_backup_name(&"home_backup.tar.gz".to_string()));
    assert!(is_transient_backup_name(&"gnupg_backup.tar.gz".to_string()));
    assert!(is_transient_backup_name(&"ssh_backup.tar.gz".to_string()));
    assert!(is_transient_backup_name(&"x_backup.tar.gz".to_string()));
    // Only names of the convention match: the dot is literal, the suffix is
    // anchored at the end, and the label must be nonempty.
    assert!(!is_transient_backup_name(&"home_backup.tarXgz".to_string()));
    assert!(!is_transient_backup_name(&"a_backup.tarxgz".to_string()));
    assert!(!is_transient_backup_name(&"_backup.tar.gz".to_string()));
    assert!(!is_transient_backup_name(&"home_backup.tar.gz.old".to_string()));
    assert!(!is_transient_backup_name(&"apps.txt".to_string()));
    assert!(!is_transient_backup_name(&"flatpak_apps.txt".to_string()));
    assert!(!is_transient_backup_name(&"home_backup.tar".to_string()));
}

#[test]
fn split_lines_matches_text_line_conventions() {
    assert_eq!(
        split_lines(&b"pkg1\npkg2".to_vec()),
        vec![b"pkg1".to_vec(), b"pkg2".to_vec()]
    );
    assert_eq!(
        split_lines(&b"pkg1\npkg2\n".to_vec()),
        vec![b"pkg1".to_vec(), b"pkg2".to_vec()]
    );
    assert_eq!(
        split_lines(&b"a\r\nb".to_vec()),
        vec![b"a".to_vec(), b"b".to_vec()]
    );
    assert_eq!(split_lines(&b"\n".to_vec()), vec![Vec::<u8>::new()]);
    assert_eq!(split_lines(&Vec::new()), Vec::<Vec<u8>>::new());
    // A carriage return is stripped only before a newline; a final line
    // without one keeps its bytes.
    assert_eq!(split_lines(&b"a\r".to_vec()), vec![b"a\r".to_vec()]);
    assert_eq!(
        split_lines(&b"x\r\ny\r".to_vec()),
        vec![b"x".to_vec(), b"y\r".to_vec()]
    );
}

#[test]
fn restore_paths_follow_the_fixed_routing() {
    let (dest, rel) = determine_restore_path(&argv(&["homeb", "Documents", "a.txt"])).unwrap();
    assert_eq!(dest, RestoreDest::HomeDir);
    assert_eq!(rel, argv(&["Documents", "a.txt"]));
    let (dest, rel) = determine_restore_path(&argv(&["appsb", "apps.txt"])).unwrap();
    assert_eq!(dest, RestoreDest::WorkingDir);
    assert_eq!(rel, argv(&["apps.txt"]));
    assert_eq!(
        determine_restore_path(&argv(&["attic", "x"])),
        Err(BackupError::UnknownNamespace)
    );
}

#[test]
fn backup_flags_parse_with_their_defaults() {
    let cli = parse_cli(&argv(&["backup", "--apps", "--home"])).unwrap();
    match cli.command {
        Commands::Backup(b) => {
            assert_eq!(b.archive_path, Some("/home/backup".to_string()));
            assert!(b.apps && b.home);
            assert!(!b.flatpak && !b.keys && !b.encrypt);
            assert!(b.exclude_dir.is_empty());
            assert_eq!(b.encrypt_key, None);
        },
        _ => panic!("expected the backup subcommand"),
    }
}

#[test]
fn exclude_dir_takes_a_run_of_values() {
    let cli = parse_cli(&argv(&["backup", "--home", "--exclude-dir", "b", "c/d", "--apps"]))
        .unwrap();
    match cli.command {
        Commands::Backup(b) => {
            assert_eq!(b.exclude_dir, argv(&["b", "c/d"]));
            assert!(b.apps && b.home);
        },
        _ => panic!("expected the backup subcommand"),
    }
}

#[test]
fn encrypt_and_its_key_must_come_together() {
    assert!(matches!(
        parse_cli(&argv(&["backup", "--apps", "--encrypt"])),
        Err(CliError::EncryptRequiresKey)
    ));
    assert!(matches!(
        parse_cli(&argv(&["backup", "--apps", "--encrypt-key", "pw"])),
        Err(CliError::KeyRequiresEncrypt)
    ));
    let cli = parse_cli(&argv(&["backup", "--apps", "--encrypt", "--encrypt-key", "pw"])).unwrap();
    match cli.command {
        Commands::Backup(b) => {
            assert!(b.encrypt);
            assert_eq!(b.encrypt_key, Some("pw".to_string()));
        },
        _ => panic!("expected the backup subcommand"),
    }
}

#[test]
fn restore_takes_a_positional_archive_path() {
    let cli = parse_cli(&argv(&["restore", "ar.tar.gz", "--decrypt", "--decrypt-key", "pw"]))
        .unwrap();
    match cli.command {
        Commands::Restore(r) => {
            assert_eq!(r.archive_path, "ar.tar.gz");
            assert!(r.decrypt);
            assert_eq!(r.decrypt_key, Some("pw".to_string()));
        },
        _ => panic!("expected the restore subcommand"),
    }
    assert!(matches!(parse_cli(&argv(&["restore"])), Err(CliError::MissingArchivePath)));
    assert!(matches!(
        parse_cli(&argv(&["restore", "a", "--decrypt"])),
        Err(CliError::DecryptRequiresKey)
    ));
}

#[test]
fn unknown_input_is_rejected() {
    assert!(matches!(parse_cli(&argv(&[])), Err(CliError::MissingCommand)));
    assert!(matches!(parse_cli(&argv(&["schedule"])), Err(CliError::UnknownCommand)));
    assert!(matches!(parse_cli(&argv(&["backup", "--nope"])), Err(CliError::UnknownFlag)));
    assert!(matches!(parse_cli(&argv(&["backup", "stray"])), Err(CliError::UnexpectedArg)));
    assert!(matches!(parse_cli(&argv(&["backup", "--archive-path"])), Err(CliError::MissingValue)));
}

#[test]
fn sources_are_collected_in_the_fixed_order() {
    let args = BackupArgs {
        archive_path: None,
        apps: true,
        home: true,
        exclude_dir: vec![],
        flatpak: true,
        keys: true,
        encrypt: false,
        encrypt_key: None,
    };
    assert_eq!(
        requested_namespaces(&args),
        vec![
            Namespace::AppsList,
            Namespace::HomeTree,
            Namespace::FlatpakList,
            Namespace::GnupgTree,
            Namespace::SshTree,
        ]
    );
    let none = BackupArgs { apps: false, home: false, flatpak: false, keys: false, ..args };
    assert!(requested_namespaces(&none).is_empty());
}
