//! The command-line surface: the option structures the two subcommands
//! take, and a parser from plain argument strings to them.

use vstd::prelude::*;

verus! {

/// Options of the backup subcommand.
pub struct BackupArgs {
    /// Directory the consolidated archive is placed in.
    pub archive_path: Option<String>,
    /// Back up the installed-package list.
    pub apps: bool,
    /// Back up the home directory.
    pub home: bool,
    /// Directories excluded from the home backup, relative to the home
    /// directory.
    pub exclude_dir: Vec<String>,
    /// Back up the Flatpak application list.
    pub flatpak: bool,
    /// Back up the GPG and SSH key directories.
    pub keys: bool,
    /// Seal the consolidated archive.
    pub encrypt: bool,
    /// The passphrase for sealing; present exactly when `encrypt` is set.
    pub encrypt_key: Option<String>,
}

/// Mathematical image of the backup options.
pub ghost struct BackupArgsView {
    pub archive_path: Option<Seq<char>>,
    pub apps: bool,
    pub home: bool,
    pub exclude_dir: Seq<Seq<char>>,
    pub flatpak: bool,
    pub keys: bool,
    pub encrypt: bool,
    pub encrypt_key: Option<Seq<char>>,
}

impl View for BackupArgs {
    type V = BackupArgsView;

    open spec fn view(&self) -> BackupArgsView {
        BackupArgsView {
            archive_path: match self.archive_path {
                Some(p) => Some(p@),
                None => None,
            },
            apps: self.apps,
            home: self.home,
            exclude_dir: self.exclude_dir.deep_view(),
            flatpak: self.flatpak,
            keys: self.keys,
            encrypt: self.encrypt,
            encrypt_key: match self.encrypt_key {
                Some(k) => Some(k@),
                None => None,
            },
        }
    }
}

/// Options of the restore subcommand.
pub struct RestoreArgs {
    /// Path of the archive to restore.
    pub archive_path: String,
    /// Open the archive through the decryption boundary.
    pub decrypt: bool,
    /// The passphrase for opening; present exactly when `decrypt` is set.
    pub decrypt_key: Option<String>,
}

/// The selected subcommand with its options.
pub enum Commands {
    /// Consolidate the requested sources into one archive.
    Backup(BackupArgs),
    /// Restore a consolidated archive.
    Restore(RestoreArgs),
}

/// Mathematical image of the restore options.
pub ghost struct RestoreArgsView {
    pub archive_path: Seq<char>,
    pub decrypt: bool,
    pub decrypt_key: Option<Seq<char>>,
}

impl View for RestoreArgs {
    type V = RestoreArgsView;

    open spec fn view(&self) -> RestoreArgsView {
        RestoreArgsView {
            archive_path: self.archive_path@,
            decrypt: self.decrypt,
            decrypt_key: match self.decrypt_key {
                Some(k) => Some(k@),
                None => None,
            },
        }
    }
}

/// A parsed command line.
pub struct Cli {
    /// The selected subcommand.
    pub command: Commands,
}

/// Mathematical image of a subcommand.
pub ghost enum CommandsView {
    Backup(BackupArgsView),
    Restore(RestoreArgsView),
}

impl View for Commands {
    type V = CommandsView;

    open spec fn view(&self) -> CommandsView {
        match self {
            Commands::Backup(b) => CommandsView::Backup(b@),
            Commands::Restore(r) => CommandsView::Restore(r@),
        }
    }
}

/// Mathematical image of a parsed command line.
pub ghost struct CliView {
    pub command: CommandsView,
}

impl View for Cli {
    type V = CliView;

    open spec fn view(&self) -> CliView {
        CliView { command: self.command@ }
    }
}

/// Why a command line was rejected.
#[derive(Clone, Copy, PartialEq, Eq, Structural, Debug)]
pub enum CliError {
    /// No subcommand was given.
    MissingCommand,
    /// The first argument is not a known subcommand.
    UnknownCommand,
    /// An argument beginning with the flag prefix is not a known flag.
    UnknownFlag,
    /// A positional argument appeared where none is expected.
    UnexpectedArg,
    /// A flag that takes a value came last, or without a value.
    MissingValue,
    /// The restore subcommand needs its archive path.
    MissingArchivePath,
    /// Sealing was requested without a passphrase.
    EncryptRequiresKey,
    /// A sealing passphrase was given without requesting sealing.
    KeyRequiresEncrypt,
    /// Opening was requested without a passphrase.
    DecryptRequiresKey,
    /// An opening passphrase was given without requesting opening.
    KeyRequiresDecrypt,
}

/// An argument that looks like a flag: it begins with the flag prefix.
pub open spec fn is_flag_like(s: Seq<char>) -> bool {
    s.len() >= 2 && s[0] == '-' && s[1] == '-'
}

/// The backup options before any flag is read: everything off, and the
/// archive placed in the default backup directory.
pub open spec fn init_backup_view() -> BackupArgsView {
    BackupArgsView {
        archive_path: Some("/home/backup"@),
        apps: false,
        home: false,
        exclude_dir: Seq::<Seq<char>>::empty(),
        flatpak: false,
        keys: false,
        encrypt: false,
        encrypt_key: None,
    }
}

/// Reads the backup flags from token `i` on. `--exclude-dir` consumes every
/// following token up to the next flag; the two option pairs (`--encrypt`
/// with `--encrypt-key`) must be given together.
pub open spec fn parse_backup_from(toks: Seq<Seq<char>>, i: int, acc: BackupArgsView) -> Result<
    BackupArgsView,
    CliError,
>
    decreases toks.len() - i, 0int,
{
    if i < 0 || i >= toks.len() {
        if acc.encrypt && acc.encrypt_key is None {
            Err(CliError::EncryptRequiresKey)
        } else if acc.encrypt_key is Some && !acc.encrypt {
            Err(CliError::KeyRequiresEncrypt)
        } else {
            Ok(acc)
        }
    } else {
        let t = toks[i];
        if t == "--apps"@ {
            parse_backup_from(toks, i + 1, BackupArgsView { apps: true, ..acc })
        } else if t == "--home"@ {
            parse_backup_from(toks, i + 1, BackupArgsView { home: true, ..acc })
        } else if t == "--flatpak"@ {
            parse_backup_from(toks, i + 1, BackupArgsView { flatpak: true, ..acc })
        } else if t == "--keys"@ {
            parse_backup_from(toks, i + 1, BackupArgsView { keys: true, ..acc })
        } else if t == "--encrypt"@ {
            parse_backup_from(toks, i + 1, BackupArgsView { encrypt: true, ..acc })
        } else if t == "--archive-path"@ {
            if i + 1 < toks.len() {
                parse_backup_from(
                    toks,
                    i + 2,
                    BackupArgsView { archive_path: Some(toks[i + 1]), ..acc },
                )
            } else {
                Err(CliError::MissingValue)
            }
        } else if t == "--encrypt-key"@ {
            if i + 1 < toks.len() {
                parse_backup_from(
                    toks,
                    i + 2,
                    BackupArgsView { encrypt_key: Some(toks[i + 1]), ..acc },
                )
            } else {
                Err(CliError::MissingValue)
            }
        } else if t == "--exclude-dir"@ {
            if i + 1 < toks.len() && !is_flag_like(toks[i + 1]) {
                parse_exclude_values(toks, i + 1, acc)
            } else {
                Err(CliError::MissingValue)
            }
        } else if is_flag_like(t) {
            Err(CliError::UnknownFlag)
        } else {
            Err(CliError::UnexpectedArg)
        }
    }
}

/// Consumes the value run of `--exclude-dir`: token `j` and every following
/// token up to the next flag join the exclusion list.
pub open spec fn parse_exclude_values(
    toks: Seq<Seq<char>>,
    j: int,
    acc: BackupArgsView,
) -> Result<BackupArgsView, CliError>
    decreases toks.len() - j, 1int,
{
    if j < 0 || j >= toks.len() {
        parse_backup_from(toks, j, acc)
    } else {
        let acc2 = BackupArgsView { exclude_dir: acc.exclude_dir.push(toks[j]), ..acc };
        if j + 1 < toks.len() && !is_flag_like(toks[j + 1]) {
            parse_exclude_values(toks, j + 1, acc2)
        } else {
            parse_backup_from(toks, j + 1, acc2)
        }
    }
}

/// Reads the restore arguments from token `i` on: one positional archive
/// path, and the option pair `--decrypt` with `--decrypt-key`.
pub open spec fn parse_restore_from(
    toks: Seq<Seq<char>>,
    i: int,
    path: Option<Seq<char>>,
    decrypt: bool,
    key: Option<Seq<char>>,
) -> Result<RestoreArgsView, CliError>
    decreases toks.len() - i,
{
    if i < 0 || i >= toks.len() {
        match path {
            None => Err(CliError::MissingArchivePath),
            Some(p) => {
                if decrypt && key is None {
                    Err(CliError::DecryptRequiresKey)
                } else if key is Some && !decrypt {
                    Err(CliError::KeyRequiresDecrypt)
                } else {
                    Ok(RestoreArgsView { archive_path: p, decrypt: decrypt, decrypt_key: key })
                }
            },
        }
    } else {
        let t = toks[i];
        if t == "--decrypt"@ {
            parse_restore_from(toks, i + 1, path, true, key)
        } else if t == "--decrypt-key"@ {
            if i + 1 < toks.len() {
                parse_restore_from(toks, i + 2, path, decrypt, Some(toks[i + 1]))
            } else {
                Err(CliError::MissingValue)
            }
        } else if is_flag_like(t) {
            Err(CliError::UnknownFlag)
        } else if path is None {
            parse_restore_from(toks, i + 1, Some(t), decrypt, key)
        } else {
            Err(CliError::UnexpectedArg)
        }
    }
}

/// What parsing a command line yields: the subcommand named by the first
/// token with its options read from the rest.
pub open spec fn parse_cli_spec(toks: Seq<Seq<char>>) -> Result<CliView, CliError> {
    if toks.len() == 0 {
        Err(CliError::MissingCommand)
    } else if toks[0] == "backup"@ {
        match parse_backup_from(toks, 1, init_backup_view()) {
            Ok(b) => Ok(CliView { command: CommandsView::Backup(b) }),
            Err(e) => Err(e),
        }
    } else if toks[0] == "restore"@ {
        match parse_restore_from(toks, 1, None, false, None) {
            Ok(r) => Ok(CliView { command: CommandsView::Restore(r) }),
            Err(e) => Err(e),
        }
    } else {
        Err(CliError::UnknownCommand)
    }
}

/// Whether an argument begins with the flag prefix.
fn flag_like(s: &String) -> (r: bool)
    ensures
        r == is_flag_like(s@),
{
    let n = s.as_str().unicode_len();
    if n < 2 {
        return false;
    }
    s.as_str().get_char(0) == '-' && s.as_str().get_char(1) == '-'
}

/// Reads the backup flags.
fn parse_backup_args(args: &Vec<String>) -> (r: Result<BackupArgs, CliError>)
    requires
        args@.len() >= 1,
    ensures
        (match r {
            Ok(b) => parse_backup_from(args.deep_view(), 1, init_backup_view()) == Ok::<
                BackupArgsView,
                CliError,
            >(b@),
            Err(e) => parse_backup_from(args.deep_view(), 1, init_backup_view()) == Err::<
                BackupArgsView,
                CliError,
            >(e),
        }),
{
    let ghost dv = args.deep_view();
    let mut archive_path: Option<String> = Some("/home/backup".to_owned());
    let mut apps = false;
    let mut home = false;
    let mut exclude_dir: Vec<String> = Vec::new();
    let mut flatpak = false;
    let mut keys = false;
    let mut encrypt = false;
    let mut encrypt_key: Option<String> = None;
    let ghost init = init_backup_view();
    proof {
        assert(exclude_dir.deep_view() =~~= Seq::<Seq<char>>::empty());
    }
    let n = args.len();
    let mut i: usize = 1;
    while i < n
        invariant
            1 <= i <= n,
            n == args@.len(),
            dv == args.deep_view(),
            parse_backup_from(dv, 1, init) == parse_backup_from(
                dv,
                i as int,
                BackupArgsView {
                    archive_path: match archive_path {
                        Some(p) => Some(p@),
                        None => None,
                    },
                    apps: apps,
                    home: home,
                    exclude_dir: exclude_dir.deep_view(),
                    flatpak: flatpak,
                    keys: keys,
                    encrypt: encrypt,
                    encrypt_key: match encrypt_key {
                        Some(k) => Some(k@),
                        None => None,
                    },
                },
            ),
            init == init_backup_view(),
        decreases n - i,
    {
        let t = &args[i];
        proof {
            assert(t@ == dv[i as int]);
        }
        if *t == "--apps".to_owned() {
            apps = true;
            i = i + 1;
        } else if *t == "--home".to_owned() {
            home = true;
            i = i + 1;
        } else if *t == "--flatpak".to_owned() {
            flatpak = true;
            i = i + 1;
        } else if *t == "--keys".to_owned() {
            keys = true;
            i = i + 1;
        } else if *t == "--encrypt".to_owned() {
            encrypt = true;
            i = i + 1;
        } else if *t == "--archive-path".to_owned() {
            if i + 1 < n {
                archive_path = Some(args[i + 1].clone());
                i = i + 2;
            } else {
                return Err(CliError::MissingValue);
            }
        } else if *t == "--encrypt-key".to_owned() {
            if i + 1 < n {
                encrypt_key = Some(args[i + 1].clone());
                i = i + 2;
            } else {
                return Err(CliError::MissingValue);
            }
        } else if *t == "--exclude-dir".to_owned() {
            if i + 1 < n && !flag_like(&args[i + 1]) {
                let mut j = i + 1;
                let mut more = true;
                while more
                    invariant
                        i + 1 <= j <= n,
                        n == args@.len(),
                        dv == args.deep_view(),
                        init == init_backup_view(),
                        more ==> j < n && !is_flag_like(dv[j as int]),
                        ({
                            let cur = BackupArgsView {
                                archive_path: match archive_path {
                                    Some(p) => Some(p@),
                                    None => None,
                                },
                                apps: apps,
                                home: home,
                                exclude_dir: exclude_dir.deep_view(),
                                flatpak: flatpak,
                                keys: keys,
                                encrypt: encrypt,
                                encrypt_key: match encrypt_key {
                                    Some(k) => Some(k@),
                                    None => None,
                                },
                            };
                            if more {
                                parse_backup_from(dv, 1, init) == parse_exclude_values(
                                    dv,
                                    j as int,
                                    cur,
                                )
                            } else {
                                parse_backup_from(dv, 1, init) == parse_backup_from(
                                    dv,
                                    j as int,
                                    cur,
                                )
                            }
                        }),
                    decreases n - j,
                {
                    let ghost ex0 = exclude_dir.deep_view();
                    exclude_dir.push(args[j].clone());
                    proof {
                        assert(exclude_dir.deep_view() =~~= ex0.push(dv[j as int]));
                    }
                    j = j + 1;
                    if j < n {
                        more = !flag_like(&args[j]);
                    } else {
                        more = false;
                    }
                }
                i = j;
            } else {
                return Err(CliError::MissingValue);
            }
        } else if flag_like(t) {
            return Err(CliError::UnknownFlag);
        } else {
            return Err(CliError::UnexpectedArg);
        }
    }
    if encrypt && encrypt_key.is_none() {
        return Err(CliError::EncryptRequiresKey);
    }
    if encrypt_key.is_some() && !encrypt {
        return Err(CliError::KeyRequiresEncrypt);
    }
    Ok(BackupArgs { archive_path, apps, home, exclude_dir, flatpak, keys, encrypt, encrypt_key })
}

/// Reads the restore arguments.
fn parse_restore_args(args: &Vec<String>) -> (r: Result<RestoreArgs, CliError>)
    requires
        args@.len() >= 1,
    ensures
        (match r {
            Ok(a) => parse_restore_from(args.deep_view(), 1, None, false, None) == Ok::<
                RestoreArgsView,
                CliError,
            >(a@),
            Err(e) => parse_restore_from(args.deep_view(), 1, None, false, None) == Err::<
                RestoreArgsView,
                CliError,
            >(e),
        }),
{
    let ghost dv = args.deep_view();
    let mut archive_path: Option<String> = None;
    let mut decrypt = false;
    let mut decrypt_key: Option<String> = None;
    let n = args.len();
    let mut i: usize = 1;
    while i < n
        invariant
            1 <= i <= n,
            n == args@.len(),
            dv == args.deep_view(),
            parse_restore_from(dv, 1, None, false, None) == parse_restore_from(
                dv,
                i as int,
                match archive_path {
                    Some(p) => Some(p@),
                    None => None,
                },
                decrypt,
                match decrypt_key {
                    Some(k) => Some(k@),
                    None => None,
                },
            ),
        decreases n - i,
    {
        let t = &args[i];
        proof {
            assert(t@ == dv[i as int]);
        }
        if *t == "--decrypt".to_owned() {
            decrypt = true;
            i = i + 1;
        } else if *t == "--decrypt-key".to_owned() {
            if i + 1 < n {
                decrypt_key = Some(args[i + 1].clone());
                i = i + 2;
            } else {
                return Err(CliError::MissingValue);
            }
        } else if flag_like(t) {
            return Err(CliError::UnknownFlag);
        } else if archive_path.is_none() {
            archive_path = Some(t.clone());
            i = i + 1;
        } else {
            return Err(CliError::UnexpectedArg);
        }
    }
    match archive_path {
        None => Err(CliError::MissingArchivePath),
        Some(p) => {
            if decrypt && decrypt_key.is_none() {
                return Err(CliError::DecryptRequiresKey);
            }
            if decrypt_key.is_some() && !decrypt {
                return Err(CliError::KeyRequiresDecrypt);
            }
            Ok(RestoreArgs { archive_path: p, decrypt, decrypt_key })
        },
    }
}

/// Parses a command line (the arguments after the program name) into the
/// subcommand and its options.
pub fn parse_cli(args: &Vec<String>) -> (r: Result<Cli, CliError>)
    ensures
        (match r {
            Ok(c) => parse_cli_spec(args.deep_view()) == Ok::<CliView, CliError>(c@),
            Err(e) => parse_cli_spec(args.deep_view()) == Err::<CliView, CliError>(e),
        }),
{
    let ghost dv = args.deep_view();
    if args.len() == 0 {
        return Err(CliError::MissingCommand);
    }
    let cmd = &args[0];
    proof {
        assert(cmd@ == dv[0]);
    }
    if *cmd == "backup".to_owned() {
        match parse_backup_args(args) {
            Ok(b) => Ok(Cli { command: Commands::Backup(b) }),
            Err(e) => Err(e),
        }
    } else if *cmd == "restore".to_owned() {
        match parse_restore_args(args) {
            Ok(a) => Ok(Cli { command: Commands::Restore(a) }),
            Err(e) => Err(e),
        }
    } else {
        Err(CliError::UnknownCommand)
    }
}

} // verus!
