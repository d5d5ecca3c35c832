//! Backup orchestration decisions: which sources a run collects, and what
//! option set it proceeds with when no source was requested explicitly.
//!
//! The collectors themselves (package managers, directory traversal) run
//! outside the library; it decides which of them to invoke and in what
//! order, and how a confirmation to "back up everything" turns into a full
//! option set.

use vstd::prelude::*;
use crate::cli::BackupArgs;
use crate::namespace::Namespace;

verus! {

/// The sources a backup run collects for an option set, in the fixed
/// collection order: apps, home, Flatpak, then the two key directories.
pub open spec fn requested_sources(args: BackupArgs) -> Seq<Namespace> {
    (if args.apps {
        seq![Namespace::AppsList]
    } else {
        Seq::<Namespace>::empty()
    }) + (if args.home {
        seq![Namespace::HomeTree]
    } else {
        Seq::<Namespace>::empty()
    }) + (if args.flatpak {
        seq![Namespace::FlatpakList]
    } else {
        Seq::<Namespace>::empty()
    }) + (if args.keys {
        seq![Namespace::GnupgTree, Namespace::SshTree]
    } else {
        Seq::<Namespace>::empty()
    })
}

/// Whether the option set requests any source at all.
pub open spec fn any_source_requested(args: BackupArgs) -> bool {
    args.apps || args.home || args.flatpak || args.keys
}

/// Lists the sources a backup run collects, in collection order.
pub fn requested_namespaces(args: &BackupArgs) -> (r: Vec<Namespace>)
    ensures
        r@ == requested_sources(*args),
        r@.len() > 0 <==> any_source_requested(*args),
{
    let mut out: Vec<Namespace> = Vec::new();
    if args.apps {
        out.push(Namespace::AppsList);
    }
    if args.home {
        out.push(Namespace::HomeTree);
    }
    if args.flatpak {
        out.push(Namespace::FlatpakList);
    }
    if args.keys {
        out.push(Namespace::GnupgTree);
        out.push(Namespace::SshTree);
    }
    proof {
        assert(out@ =~= requested_sources(*args));
    }
    out
}

/// An owned copy of an optional string.
fn clone_opt_string(o: &Option<String>) -> (r: Option<String>)
    ensures
        (match o {
            Some(s) => r is Some && r->0@ == s@,
            None => r is None,
        }),
{
    match o {
        Some(s) => Some(s.clone()),
        None => None,
    }
}

/// An owned copy of a string list.
fn clone_string_list(v: &Vec<String>) -> (r: Vec<String>)
    ensures
        r.deep_view() == v.deep_view(),
{
    let mut out: Vec<String> = Vec::new();
    let n = v.len();
    for i in 0..n
        invariant
            n == v.len(),
            out@.len() == i,
            forall|k: int| 0 <= k < i ==> out@[k]@ == v@[k]@,
    {
        out.push(v[i].clone());
    }
    proof {
        assert(out.deep_view() =~~= v.deep_view());
    }
    out
}

/// The option set a backup run proceeds with.
///
/// When the caller requested at least one source, the run uses the options
/// as given. When nothing was requested, the run asks whether to back up
/// everything: on confirmation it proceeds with all four sources, sealing
/// exactly when a passphrase was given; otherwise it proceeds not at all
/// (the run exits gracefully and cleans up).
pub fn effective_backup_args(args: &BackupArgs, confirm_all: bool, key: Option<String>) -> (r:
    Option<BackupArgs>)
    ensures
        any_source_requested(*args) ==> r is Some && r->0@ == args@,
        !any_source_requested(*args) && confirm_all ==> r is Some && {
            let e = r->0@;
            &&& e.apps && e.home && e.flatpak && e.keys
            &&& e.archive_path == args@.archive_path
            &&& e.exclude_dir == args@.exclude_dir
            &&& e.encrypt == (key is Some)
            &&& e.encrypt_key == (match key {
                Some(k) => Some(k@),
                None => None::<Seq<char>>,
            })
        },
        !any_source_requested(*args) && !confirm_all ==> r is None,
{
    if args.apps || args.home || args.flatpak || args.keys {
        Some(
            BackupArgs {
                archive_path: clone_opt_string(&args.archive_path),
                apps: args.apps,
                home: args.home,
                exclude_dir: clone_string_list(&args.exclude_dir),
                flatpak: args.flatpak,
                keys: args.keys,
                encrypt: args.encrypt,
                encrypt_key: clone_opt_string(&args.encrypt_key),
            },
        )
    } else if confirm_all {
        let encrypt = key.is_some();
        Some(
            BackupArgs {
                archive_path: clone_opt_string(&args.archive_path),
                apps: true,
                home: true,
                exclude_dir: clone_string_list(&args.exclude_dir),
                flatpak: true,
                keys: true,
                encrypt,
                encrypt_key: key,
            },
        )
    } else {
        None
    }
}

} // verus!
