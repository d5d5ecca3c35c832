//! The consolidator: merges the collected artifacts into one namespaced
//! container and optionally seals it.
//!
//! Each artifact becomes one file entry filed under its namespace tag, in
//! collector order. The caller writes the resulting bytes to disk and only
//! then deletes the consumed sources; on any error the construction is
//! abandoned whole and nothing promises a partial-but-valid archive.

use vstd::prelude::*;
use vstd::string::*;
use vstd::utf8::encode_utf8;
use crate::cli::BackupArgs;
use crate::container::{
    all_entries_valid, builder_entries, container_bytes, container_writer_add_file,
    container_writer_finish, container_writer_new, parsed_container, valid_segment, EntryKindView,
    EntryView,
};
use crate::crypto::{derived_key, encrypt_payload, opened, sealed};
use crate::errors::BackupError;
use crate::naming::{archive_name, archive_name_chars};
use crate::namespace::{lemma_tag_valid_segment, tag, tag_chars, Namespace};

verus! {

/// One collected backup artifact, pending consolidation: its namespace,
/// the file name it was left under, and its content.
pub struct Artifact {
    /// The category the artifact belongs to.
    pub ns: Namespace,
    /// The artifact's own file name (no directory part).
    pub file_name: String,
    /// The artifact's bytes.
    pub content: Vec<u8>,
}

/// Mathematical image of an artifact.
pub ghost struct ArtifactView {
    pub ns: Namespace,
    pub file_name: Seq<char>,
    pub content: Seq<u8>,
}

impl View for Artifact {
    type V = ArtifactView;

    open spec fn view(&self) -> ArtifactView {
        ArtifactView { ns: self.ns, file_name: self.file_name@, content: self.content@ }
    }
}

impl DeepView for Artifact {
    type V = ArtifactView;

    open spec fn deep_view(&self) -> ArtifactView {
        self.view()
    }
}

/// An artifact the consolidator accepts: its file name is a storable path
/// segment.
pub open spec fn valid_artifact(a: ArtifactView) -> bool {
    valid_segment(a.file_name)
}

/// The container entry an artifact becomes: a file under its namespace tag.
pub open spec fn entry_of_artifact(a: ArtifactView) -> EntryView {
    EntryView { path: seq![tag_chars(a.ns), a.file_name], kind: EntryKindView::File(a.content) }
}

/// The entries of a consolidated container, in collector order.
pub open spec fn entries_of_artifacts(artifacts: Seq<ArtifactView>) -> Seq<EntryView> {
    artifacts.map_values(|a: ArtifactView| entry_of_artifact(a))
}

/// A finished consolidated archive: its deterministic file name, its bytes,
/// and whether the bytes are sealed.
pub struct ConsolidatedArchive {
    /// The archive file name, carrying the category tags and, when sealed,
    /// the encryption marker.
    pub name: String,
    /// The archive bytes: the container stream, or its seal.
    pub bytes: Vec<u8>,
    /// Whether sealing was requested and succeeded. When sealing was
    /// requested but failed, the valid plaintext container is handed back
    /// with this unset, so the caller can report the failure explicitly
    /// rather than lose the archive.
    pub sealed: bool,
}

/// The passphrase an option set carries, empty when there is none.
pub open spec fn key_chars(args: BackupArgs) -> Seq<char> {
    match args.encrypt_key {
        Some(k) => k@,
        None => Seq::<char>::empty(),
    }
}

/// What a successfully consolidated archive holds for the given artifacts
/// and option set: the container of exactly their entries, sealed under the
/// derived key when sealing was requested and succeeded.
pub open spec fn consolidated_contents_ok(
    c: ConsolidatedArchive,
    artifacts: Seq<ArtifactView>,
    encrypt: bool,
    key: Seq<char>,
) -> bool {
    let es = entries_of_artifacts(artifacts);
    let plain = container_bytes(es);
    &&& parsed_container(plain) == Some(es)
    &&& !encrypt ==> !c.sealed && c.bytes@ == plain
    &&& encrypt && c.sealed ==> c.bytes@ == sealed(plain, derived_key(encode_utf8(key)))
        && opened(c.bytes@, derived_key(encode_utf8(key))) == Some(plain)
    &&& encrypt && !c.sealed ==> c.bytes@ == plain
}

/// Relies on `chrono::Utc::now` and its formatter for the fixed pattern
/// `%Y-%m-%d-%H:%M:%S`. The result depends on the clock; nothing is assumed
/// of it.
#[verifier::external_body]
fn now_timestamp() -> (r: String) {
    chrono::Utc::now().format("%Y-%m-%d-%H:%M:%S").to_string()
}

/// Consolidates the collected artifacts into one archive named for the
/// given timestamp and the option set.
///
/// Construction always succeeds for storable artifacts: the archive holds
/// the container of exactly the artifacts' entries, in collector order.
/// When sealing was requested the container is sealed under the key derived
/// from the passphrase — owed whenever the container is within the cipher's
/// length cap; a sealing failure beyond it hands the valid plaintext
/// container back with `sealed` unset, to be reported rather than lost.
pub fn consolidate_with_timestamp(
    artifacts: &Vec<Artifact>,
    args: &BackupArgs,
    timestamp: &String,
) -> (r: Result<ConsolidatedArchive, BackupError>)
    requires
        forall|i: int|
            0 <= i < artifacts.deep_view().len() ==> valid_artifact(
                #[trigger] artifacts.deep_view()[i],
            ),
        args.encrypt ==> args.encrypt_key is Some,
    ensures
        r is Ok,
        consolidated_contents_ok(
            r->Ok_0,
            artifacts.deep_view(),
            args.encrypt,
            key_chars(*args),
        ),
        r->Ok_0.name@ == archive_name_chars(
            timestamp@,
            args.apps,
            args.home,
            args.keys,
            args.flatpak,
            args.encrypt,
        ),
        args.encrypt && container_bytes(entries_of_artifacts(artifacts.deep_view())).len()
            <= 0xF_FFFF_FFE0 ==> r->Ok_0.sealed,
{
    let ghost avs = artifacts.deep_view();
    let mut w = container_writer_new();
    let n = artifacts.len();
    for i in 0..n
        invariant
            n == artifacts.len(),
            avs == artifacts.deep_view(),
            forall|k: int| 0 <= k < avs.len() ==> valid_artifact(#[trigger] avs[k]),
            builder_entries(w) == entries_of_artifacts(avs.take(i as int)),
            all_entries_valid(builder_entries(w)),
    {
        let a = &artifacts[i];
        let mut path: Vec<String> = Vec::new();
        path.push(tag(a.ns));
        path.push(a.file_name.clone());
        proof {
            lemma_tag_valid_segment(a.ns);
            assert(path.deep_view() =~= seq![tag_chars(a@.ns), a@.file_name]);
        }
        if !container_writer_add_file(&mut w, &path, &a.content) {
            return Err(BackupError::IoFailure);
        }
        proof {
            assert(builder_entries(w) == entries_of_artifacts(avs.take(i as int)).push(
                entry_of_artifact(avs[i as int]),
            ));
            assert(entries_of_artifacts(avs.take(i + 1)) =~= entries_of_artifacts(
                avs.take(i as int),
            ).push(entry_of_artifact(avs[i as int])));
        }
    }
    proof {
        assert(avs.take(n as int) =~= avs);
    }
    let plain = match container_writer_finish(w) {
        Some(v) => v,
        None => {
            return Err(BackupError::IoFailure);
        },
    };
    let name = archive_name(timestamp, args.apps, args.home, args.keys, args.flatpak, args.encrypt);
    if args.encrypt {
        if let Some(key) = &args.encrypt_key {
            let kb = key.as_str().as_bytes_vec();
            match encrypt_payload(&plain, &kb) {
                Ok(c) => Ok(ConsolidatedArchive { name, bytes: c, sealed: true }),
                Err(_) => Ok(ConsolidatedArchive { name, bytes: plain, sealed: false }),
            }
        } else {
            Err(BackupError::IoFailure)
        }
    } else {
        Ok(ConsolidatedArchive { name, bytes: plain, sealed: false })
    }
}

/// Consolidates the collected artifacts into one archive named from the
/// current time and the option set, as the backup pipeline does.
pub fn consolidate_backups(artifacts: &Vec<Artifact>, args: &BackupArgs) -> (r: Result<
    ConsolidatedArchive,
    BackupError,
>)
    requires
        forall|i: int|
            0 <= i < artifacts.deep_view().len() ==> valid_artifact(
                #[trigger] artifacts.deep_view()[i],
            ),
        args.encrypt ==> args.encrypt_key is Some,
    ensures
        r is Ok,
        consolidated_contents_ok(
            r->Ok_0,
            artifacts.deep_view(),
            args.encrypt,
            key_chars(*args),
        ),
        exists|ts: Seq<char>|
            r->Ok_0.name@ == archive_name_chars(
                ts,
                args.apps,
                args.home,
                args.keys,
                args.flatpak,
                args.encrypt,
            ),
        args.encrypt && container_bytes(entries_of_artifacts(artifacts.deep_view())).len()
            <= 0xF_FFFF_FFE0 ==> r->Ok_0.sealed,
{
    let ts = now_timestamp();
    consolidate_with_timestamp(artifacts, args, &ts)
}

} // verus!
