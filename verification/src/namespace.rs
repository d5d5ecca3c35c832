//! The closed set of artifact namespaces and their fixed restore routing.

use vstd::prelude::*;
use crate::container::valid_segment;

verus! {

/// Semantic category of an artifact inside the consolidated container.
///
/// Every top-level path segment of a consolidated container must equal the
/// tag of one of these five namespaces; any other segment is a structural
/// error on restore.
#[derive(Clone, Copy, PartialEq, Eq, Structural, Debug)]
pub enum Namespace {
    /// Newline-delimited list of installed package identifiers.
    AppsList,
    /// The user's home directory tree.
    HomeTree,
    /// Newline-delimited list of installed Flatpak application identifiers.
    FlatpakList,
    /// The GPG key directory tree.
    GnupgTree,
    /// The SSH key directory tree.
    SshTree,
}

/// The tag under which a namespace's entries are filed in the container.
pub open spec fn tag_chars(ns: Namespace) -> Seq<char> {
    match ns {
        Namespace::AppsList => "appsb"@,
        Namespace::HomeTree => "homeb"@,
        Namespace::FlatpakList => "flatpakb"@,
        Namespace::GnupgTree => "gnupgb"@,
        Namespace::SshTree => "sshb"@,
    }
}

/// The exhaustive mapping from a raw top-level path segment back to a
/// namespace; unknown segments map to `None` rather than to a default.
pub open spec fn parse_tag_chars(s: Seq<char>) -> Option<Namespace> {
    if s == tag_chars(Namespace::AppsList) {
        Some(Namespace::AppsList)
    } else if s == tag_chars(Namespace::HomeTree) {
        Some(Namespace::HomeTree)
    } else if s == tag_chars(Namespace::FlatpakList) {
        Some(Namespace::FlatpakList)
    } else if s == tag_chars(Namespace::GnupgTree) {
        Some(Namespace::GnupgTree)
    } else if s == tag_chars(Namespace::SshTree) {
        Some(Namespace::SshTree)
    } else {
        None
    }
}

/// The namespace tag as an owned string.
pub fn tag(ns: Namespace) -> (r: String)
    ensures
        r@ == tag_chars(ns),
{
    match ns {
        Namespace::AppsList => "appsb".to_owned(),
        Namespace::HomeTree => "homeb".to_owned(),
        Namespace::FlatpakList => "flatpakb".to_owned(),
        Namespace::GnupgTree => "gnupgb".to_owned(),
        Namespace::SshTree => "sshb".to_owned(),
    }
}

/// Parses a top-level path segment into its namespace.
pub fn parse_tag(s: &String) -> (r: Option<Namespace>)
    ensures
        r == parse_tag_chars(s@),
{
    if *s == "appsb".to_owned() {
        Some(Namespace::AppsList)
    } else if *s == "homeb".to_owned() {
        Some(Namespace::HomeTree)
    } else if *s == "flatpakb".to_owned() {
        Some(Namespace::FlatpakList)
    } else if *s == "gnupgb".to_owned() {
        Some(Namespace::GnupgTree)
    } else if *s == "sshb".to_owned() {
        Some(Namespace::SshTree)
    } else {
        None
    }
}

/// Parsing a namespace's own tag gives that namespace back: the mapping
/// between namespaces and tags is a bijection onto the five known tags.
pub proof fn lemma_tag_round_trip(ns: Namespace)
    ensures
        parse_tag_chars(tag_chars(ns)) == Some(ns),
{
    reveal_strlit("appsb");
    reveal_strlit("homeb");
    reveal_strlit("flatpakb");
    reveal_strlit("gnupgb");
    reveal_strlit("sshb");
    assert("appsb"@.len() == 5);
    assert("homeb"@.len() == 5);
    assert("flatpakb"@.len() == 8);
    assert("gnupgb"@.len() == 6);
    assert("sshb"@.len() == 4);
    assert("appsb"@[0] == 'a');
    assert("homeb"@[0] == 'h');
}

/// Only nonempty segments parse to a namespace.
pub proof fn lemma_parse_tag_some_nonempty(s: Seq<char>)
    ensures
        parse_tag_chars(s) is Some ==> s.len() > 0,
{
    reveal_strlit("appsb");
    reveal_strlit("homeb");
    reveal_strlit("flatpakb");
    reveal_strlit("gnupgb");
    reveal_strlit("sshb");
}

/// Destination policy of a namespace on restore: the base under which its
/// entries land. This mapping is fixed, not user-configurable.
#[derive(Clone, Copy, PartialEq, Eq, Structural, Debug)]
pub enum RestoreDest {
    /// The working directory (package lists only live in memory; nothing of
    /// them is written, the working directory is only their nominal base).
    WorkingDir,
    /// The user's home directory.
    HomeDir,
    /// `.gnupg` under the user's home directory.
    GnupgDir,
    /// `.ssh` under the user's home directory.
    SshDir,
}

/// Whether entries of this namespace are accumulated as in-memory lines
/// rather than written to the filesystem.
pub open spec fn is_list_namespace(ns: Namespace) -> bool {
    ns == Namespace::AppsList || ns == Namespace::FlatpakList
}

/// The fixed routing from a namespace to its restore base directory.
pub open spec fn route(ns: Namespace) -> RestoreDest {
    match ns {
        Namespace::AppsList => RestoreDest::WorkingDir,
        Namespace::FlatpakList => RestoreDest::WorkingDir,
        Namespace::HomeTree => RestoreDest::HomeDir,
        Namespace::GnupgTree => RestoreDest::GnupgDir,
        Namespace::SshTree => RestoreDest::SshDir,
    }
}

/// The file name under which each source collector leaves its artifact
/// before consolidation.
pub open spec fn artifact_file_name_chars(ns: Namespace) -> Seq<char> {
    match ns {
        Namespace::AppsList => "apps.txt"@,
        Namespace::HomeTree => "home_backup.tar.gz"@,
        Namespace::FlatpakList => "flatpak_apps.txt"@,
        Namespace::GnupgTree => "gnupg_backup.tar.gz"@,
        Namespace::SshTree => "ssh_backup.tar.gz"@,
    }
}

/// Every namespace tag is a storable path segment, so it can stand as the
/// first segment of a container entry path.
pub proof fn lemma_tag_valid_segment(ns: Namespace)
    ensures
        valid_segment(tag_chars(ns)),
{
    reveal_strlit("appsb");
    reveal_strlit("homeb");
    reveal_strlit("flatpakb");
    reveal_strlit("gnupgb");
    reveal_strlit("sshb");
}

/// The artifact file name of a namespace as an owned string.
pub fn artifact_file_name(ns: Namespace) -> (r: String)
    ensures
        r@ == artifact_file_name_chars(ns),
{
    match ns {
        Namespace::AppsList => "apps.txt".to_owned(),
        Namespace::HomeTree => "home_backup.tar.gz".to_owned(),
        Namespace::FlatpakList => "flatpak_apps.txt".to_owned(),
        Namespace::GnupgTree => "gnupg_backup.tar.gz".to_owned(),
        Namespace::SshTree => "ssh_backup.tar.gz".to_owned(),
    }
}

} // verus!
