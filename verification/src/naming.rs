//! The on-disk archive naming convention.
//!
//! A consolidated archive is named `backup-<timestamp>-<tagchars>.tar.gz`,
//! where the tag characters say, in fixed canonical order, which categories
//! the archive holds — `a` (apps), `h` (home), `k` (keys), `f` (flatpak) —
//! with a trailing `e` exactly when the archive is sealed. Consumers rely
//! on the name only to detect that encryption marker; namespace dispatch is
//! driven solely by in-container path prefixes.
//!
//! The same module knows which file names are transient per-category
//! artifacts, so that a cancelled run can clean them up.

use vstd::prelude::*;
use vstd::string::*;
use crate::namespace::{artifact_file_name_chars, Namespace};

verus! {

/// The category tag characters of an archive name, in canonical order,
/// with the encryption marker last.
pub open spec fn components_chars(
    apps: bool,
    home: bool,
    keys: bool,
    flatpak: bool,
    encrypt: bool,
) -> Seq<char> {
    (if apps { "a"@ } else { Seq::<char>::empty() })
    + (if home { "h"@ } else { Seq::<char>::empty() })
    + (if keys { "k"@ } else { Seq::<char>::empty() })
    + (if flatpak { "f"@ } else { Seq::<char>::empty() })
    + (if encrypt { "e"@ } else { Seq::<char>::empty() })
}

/// The deterministic archive name for a timestamp and an option set.
pub open spec fn archive_name_chars(
    ts: Seq<char>,
    apps: bool,
    home: bool,
    keys: bool,
    flatpak: bool,
    encrypt: bool,
) -> Seq<char> {
    "backup-"@ + ts + "-"@ + components_chars(apps, home, keys, flatpak, encrypt) + ".tar.gz"@
}

/// Builds the category tag characters of an archive name.
pub fn archive_components(apps: bool, home: bool, keys: bool, flatpak: bool, encrypt: bool) -> (r:
    String)
    ensures
        r@ == components_chars(apps, home, keys, flatpak, encrypt),
{
    let mut s = String::new();
    if apps {
        s.append("a");
    }
    if home {
        s.append("h");
    }
    if keys {
        s.append("k");
    }
    if flatpak {
        s.append("f");
    }
    if encrypt {
        s.append("e");
    }
    proof {
        assert(s@ =~= components_chars(apps, home, keys, flatpak, encrypt));
    }
    s
}

/// Builds the archive name for a timestamp and an option set.
pub fn archive_name(
    timestamp: &String,
    apps: bool,
    home: bool,
    keys: bool,
    flatpak: bool,
    encrypt: bool,
) -> (r: String)
    ensures
        r@ == archive_name_chars(timestamp@, apps, home, keys, flatpak, encrypt),
{
    let mut s = "backup-".to_owned();
    s.append(timestamp.as_str());
    s.append("-");
    let comps = archive_components(apps, home, keys, flatpak, encrypt);
    s.append(comps.as_str());
    s.append(".tar.gz");
    proof {
        assert(s@ =~= archive_name_chars(timestamp@, apps, home, keys, flatpak, encrypt));
    }
    s
}

/// The suffix that marks a sealed archive: the encryption tag character
/// directly before the container extension.
pub open spec fn marker_suffix() -> Seq<char> {
    "e.tar.gz"@
}

/// Whether an archive file name carries the encryption marker.
pub open spec fn marks_encrypted(name: Seq<char>) -> bool {
    marker_suffix().is_suffix_of(name)
}

/// Checks an archive file name for the encryption marker.
pub fn name_marks_encrypted(name: &String) -> (r: bool)
    ensures
        r == marks_encrypted(name@),
{
    proof {
        reveal_strlit("e.tar.gz");
    }
    let suffix = "e.tar.gz";
    let n = name.as_str().unicode_len();
    let m = suffix.unicode_len();
    if n < m {
        return false;
    }
    let start = n - m;
    for i in 0..m
        invariant
            m == marker_suffix().len(),
            start == n - m,
            n == name@.len(),
            m <= n,
            suffix@ == marker_suffix(),
            forall|k: int| 0 <= k < i ==> marker_suffix()[k] == name@[start + k],
    {
        if suffix.get_char(i) != name.as_str().get_char(start + i) {
            assert(!marks_encrypted(name@)) by {
                assert(marker_suffix()[i as int] != name@[start + i]);
                assert(!marker_suffix().is_suffix_of(name@));
            }
            return false;
        }
    }
    proof {
        assert(marker_suffix() =~= name@.subrange(
            name@.len() - marker_suffix().len(),
            name@.len() as int,
        ));
    }
    true
}

/// An archive built for a given option set carries the encryption marker
/// exactly when the option set asked for encryption, whatever the
/// timestamp.
pub proof fn lemma_name_marker(
    ts: Seq<char>,
    apps: bool,
    home: bool,
    keys: bool,
    flatpak: bool,
    encrypt: bool,
)
    ensures
        marks_encrypted(archive_name_chars(ts, apps, home, keys, flatpak, encrypt)) == encrypt,
{
    reveal_strlit("backup-");
    reveal_strlit("-");
    reveal_strlit(".tar.gz");
    reveal_strlit("e.tar.gz");
    reveal_strlit("a");
    reveal_strlit("h");
    reveal_strlit("k");
    reveal_strlit("f");
    reveal_strlit("e");
    let name = archive_name_chars(ts, apps, home, keys, flatpak, encrypt);
    let comps = components_chars(apps, home, keys, flatpak, encrypt);
    let head = "backup-"@ + ts + "-"@ + comps;
    assert(name =~= head + ".tar.gz"@);
    assert(head.len() >= 8);
    if encrypt {
        assert(comps.last() == 'e');
        assert(head.last() == 'e');
        assert(marker_suffix() =~= name.subrange(name.len() - 8, name.len() as int));
    } else {
        // The character before the extension is a category tag or the
        // separator, never the encryption marker.
        let c = head.last();
        if flatpak {
            assert(comps.last() == 'f');
            assert(c == 'f');
        } else if keys {
            assert(comps.last() == 'k');
            assert(c == 'k');
        } else if home {
            assert(comps.last() == 'h');
            assert(c == 'h');
        } else if apps {
            assert(comps.last() == 'a');
            assert(c == 'a');
        } else {
            assert(comps =~= Seq::<char>::empty());
            assert(head =~= "backup-"@ + ts + "-"@);
            assert(c == '-');
        }
        assert(c == 'a' || c == 'h' || c == 'k' || c == 'f' || c == '-');
        if marks_encrypted(name) {
            assert(marker_suffix().len() == 8);
            assert(marker_suffix() == name.subrange(name.len() - 8, name.len() as int));
            assert(marker_suffix()[0] == 'e');
            assert(name.subrange(name.len() - 8, name.len() as int)[0] == name[name.len() - 8]);
            assert(name[name.len() - 8] == 'e');
            assert(name[name.len() - 8] == c);
            assert(false);
        }
    }
}

/// The suffix of a transient per-category artifact name; the convention is
/// a nonempty label followed by `_backup.tar.gz`.
pub open spec fn transient_suffix() -> Seq<char> {
    "_backup.tar.gz"@
}

/// Whether a file name is a transient per-category artifact of a backup
/// run, to be removed by cleanup after a cancellation: a nonempty label
/// followed by `_backup.tar.gz`.
pub open spec fn is_transient_name(name: Seq<char>) -> bool {
    name.len() > transient_suffix().len() && transient_suffix().is_suffix_of(name)
}

/// Checks a file name against the transient artifact convention.
pub fn is_transient_backup_name(name: &String) -> (r: bool)
    ensures
        r == is_transient_name(name@),
{
    proof {
        reveal_strlit("_backup.tar.gz");
    }
    let suffix = "_backup.tar.gz";
    let n = name.as_str().unicode_len();
    let m = suffix.unicode_len();
    if n <= m {
        return false;
    }
    let start = n - m;
    for i in 0..m
        invariant
            m == transient_suffix().len(),
            start == n - m,
            n == name@.len(),
            m < n,
            suffix@ == transient_suffix(),
            forall|k: int| 0 <= k < i ==> transient_suffix()[k] == name@[start + k],
    {
        if suffix.get_char(i) != name.as_str().get_char(start + i) {
            assert(!is_transient_name(name@)) by {
                assert(transient_suffix()[i as int] != name@[start + i]);
                assert(!transient_suffix().is_suffix_of(name@));
            }
            return false;
        }
    }
    proof {
        assert(transient_suffix() =~= name@.subrange(
            name@.len() - transient_suffix().len(),
            name@.len() as int,
        ));
    }
    true
}

/// The tree artifacts (home, GPG keys, SSH keys) leave transient files the
/// cleanup recognizes; the plain list artifacts are not matched.
pub proof fn lemma_artifact_names_transient(ns: Namespace)
    ensures
        is_transient_name(artifact_file_name_chars(ns)) == (ns == Namespace::HomeTree || ns
            == Namespace::GnupgTree || ns == Namespace::SshTree),
{
    reveal_strlit("apps.txt");
    reveal_strlit("home_backup.tar.gz");
    reveal_strlit("flatpak_apps.txt");
    reveal_strlit("gnupg_backup.tar.gz");
    reveal_strlit("ssh_backup.tar.gz");
    reveal_strlit("_backup.tar.gz");
    assert(transient_suffix().len() == 14);
    match ns {
        Namespace::AppsList => {
            assert(artifact_file_name_chars(ns).len() == 8);
        },
        Namespace::HomeTree => {
            let name = "home_backup.tar.gz"@;
            assert(name.len() == 18);
            assert(transient_suffix() =~= name.subrange(4, 18));
            assert(transient_suffix().is_suffix_of(name));
        },
        Namespace::FlatpakList => {
            let name = "flatpak_apps.txt"@;
            assert(name.len() == 16);
            if transient_suffix().is_suffix_of(name) {
                assert(transient_suffix() == name.subrange(2, 16));
                assert(transient_suffix()[0] == '_');
                assert(name.subrange(2, 16)[0] == name[2]);
                assert(name[2] == 'a');
                assert(false);
            }
        },
        Namespace::GnupgTree => {
            let name = "gnupg_backup.tar.gz"@;
            assert(name.len() == 19);
            assert(transient_suffix() =~= name.subrange(5, 19));
            assert(transient_suffix().is_suffix_of(name));
        },
        Namespace::SshTree => {
            let name = "ssh_backup.tar.gz"@;
            assert(name.len() == 17);
            assert(transient_suffix() =~= name.subrange(3, 17));
            assert(transient_suffix().is_suffix_of(name));
        },
    }
}

} // verus!
