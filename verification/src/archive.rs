//! The tree archiver: turns a traversed directory tree into a container,
//! applying path-prefix exclusions and observing cooperative cancellation.
//!
//! The traversal itself (reading directories and file contents) happens
//! outside the library; each visited node is handed in as an [`Entry`]
//! whose path is relative to the traversal root. The archiver decides,
//! per node, whether it is cancelled, skipped or appended, and finally
//! yields the container stream.

use vstd::prelude::*;
use crate::container::{
    all_entries_valid, builder_entries, container_bytes, container_writer_add_dir,
    container_writer_add_file, container_writer_finish, container_writer_new, parsed_container,
    valid_entry, valid_rel_path, ContainerWriter, Entry, EntryKind, EntryView,
};
use crate::errors::BackupError;

verus! {

/// A path falls under one of the exclusions: some exclusion, resolved
/// against the traversal root, is a segment-wise prefix of the path.
pub open spec fn excluded(path: Seq<Seq<char>>, exclusions: Seq<Seq<Seq<char>>>) -> bool {
    exists|j: int| 0 <= j < exclusions.len() && (#[trigger] exclusions[j]).is_prefix_of(path)
}

/// A node makes it into the archive: it is not the traversal root itself
/// (the zero-length relative path) and it is not excluded.
pub open spec fn included(path: Seq<Seq<char>>, exclusions: Seq<Seq<Seq<char>>>) -> bool {
    path.len() > 0 && !excluded(path, exclusions)
}

/// The entries an uncancelled, fault-free archiving run produces: the
/// visited nodes, in traversal order, minus the excluded ones and minus
/// the root itself.
pub open spec fn plan(nodes: Seq<EntryView>, exclusions: Seq<Seq<Seq<char>>>) -> Seq<EntryView> {
    nodes.filter(|n: EntryView| included(n.path, exclusions))
}

/// Whether `prefix` is a segment-wise prefix of `path`.
fn is_segment_prefix(prefix: &Vec<String>, path: &Vec<String>) -> (r: bool)
    ensures
        r == prefix.deep_view().is_prefix_of(path.deep_view()),
{
    if prefix.len() > path.len() {
        return false;
    }
    let n = prefix.len();
    for k in 0..n
        invariant
            n == prefix.len() <= path.len(),
            forall|m: int| 0 <= m < k ==> prefix.deep_view()[m] == path.deep_view()[m],
    {
        if prefix[k] != path[k] {
            assert(prefix.deep_view()[k as int] != path.deep_view()[k as int]);
            return false;
        }
    }
    assert(prefix.deep_view() =~= path.deep_view().subrange(0, prefix.len() as int));
    true
}

/// Whether a visited node belongs in the archive: not the root, and not
/// equal to or nested under any exclusion.
pub fn should_include(rel: &Vec<String>, exclusions: &Vec<Vec<String>>) -> (r: bool)
    ensures
        r == included(rel.deep_view(), exclusions.deep_view()),
{
    if rel.len() == 0 {
        return false;
    }
    let n = exclusions.len();
    for j in 0..n
        invariant
            n == exclusions.len(),
            forall|m: int|
                0 <= m < j ==> !(#[trigger] exclusions.deep_view()[m]).is_prefix_of(
                    rel.deep_view(),
                ),
    {
        if is_segment_prefix(&exclusions[j], rel) {
            assert(excluded(rel.deep_view(), exclusions.deep_view())) by {
                assert(exclusions.deep_view()[j as int].is_prefix_of(rel.deep_view()));
            }
            return false;
        }
    }
    true
}

/// An in-progress directory archiving run.
///
/// Nodes are offered one at a time, in traversal order, each together with
/// the cancellation flag's value observed for it; `finish` then yields the
/// container stream. Appending a storable node to the in-memory writer
/// always succeeds; should an append ever fail regardless, the run is
/// poisoned and every later call fails rather than yield a partial archive.
pub struct TreeArchiver {
    writer: ContainerWriter,
    exclusions: Vec<Vec<String>>,
    failed: bool,
}

impl TreeArchiver {
    /// The entries appended so far, in order.
    pub closed spec fn entries(self) -> Seq<EntryView> {
        builder_entries(self.writer)
    }

    /// The exclusion set the run was started with.
    pub closed spec fn exclusions_view(self) -> Seq<Seq<Seq<char>>> {
        self.exclusions.deep_view()
    }

    /// Whether an append has failed; the run's output is then unusable.
    pub closed spec fn has_failed(self) -> bool {
        self.failed
    }

    /// As long as the run has not failed, everything appended was a
    /// storable entry.
    pub closed spec fn wf(self) -> bool {
        !self.failed ==> all_entries_valid(self.entries())
    }

    /// Starts an archiving run with the given exclusion set (each exclusion
    /// a relative path, given as its segments, resolved against the
    /// traversal root).
    pub fn new(exclusions: Vec<Vec<String>>) -> (r: Self)
        ensures
            r.entries() == Seq::<EntryView>::empty(),
            r.exclusions_view() == exclusions.deep_view(),
            !r.has_failed(),
            r.wf(),
    {
        TreeArchiver { writer: container_writer_new(), exclusions, failed: false }
    }

    /// Offers the next visited node, together with the cancellation flag's
    /// value observed for it.
    ///
    /// If the flag is set the run aborts with `Cancelled` — this is not a
    /// partial success, the caller must discard the run. Otherwise the node
    /// is skipped (`Ok(false)`) when it is the root or excluded, and
    /// appended (`Ok(true)`) when it is included; a failed append poisons
    /// the run with `IoFailure`.
    pub fn offer(&mut self, node: &Entry, cancelled: bool) -> (r: Result<bool, BackupError>)
        requires
            old(self).wf(),
            valid_rel_path(node@.path),
        ensures
            final(self).wf(),
            final(self).exclusions_view() == old(self).exclusions_view(),
            cancelled ==> r == Err::<bool, BackupError>(BackupError::Cancelled) && *final(self)
                == *old(self),
            match r {
                Ok(true) => !cancelled && !old(self).has_failed() && included(
                    node@.path,
                    old(self).exclusions_view(),
                ) && !final(self).has_failed() && final(self).entries() == old(
                    self,
                ).entries().push(node@),
                Ok(false) => !cancelled && !old(self).has_failed() && !included(
                    node@.path,
                    old(self).exclusions_view(),
                ) && *final(self) == *old(self),
                Err(e) => e == BackupError::Cancelled && cancelled || e == BackupError::IoFailure
                    && !cancelled && final(self).has_failed(),
            },
            !cancelled && !old(self).has_failed() && !included(
                node@.path,
                old(self).exclusions_view(),
            ) ==> r == Ok::<bool, BackupError>(false),
            !cancelled && !old(self).has_failed() && included(
                node@.path,
                old(self).exclusions_view(),
            ) ==> r == Ok::<bool, BackupError>(true),
    {
        if cancelled {
            return Err(BackupError::Cancelled);
        }
        if self.failed {
            return Err(BackupError::IoFailure);
        }
        if !should_include(&node.path, &self.exclusions) {
            return Ok(false);
        }
        let appended = match &node.kind {
            EntryKind::Dir => container_writer_add_dir(&mut self.writer, &node.path),
            EntryKind::File(c) => container_writer_add_file(&mut self.writer, &node.path, c),
        };
        if appended {
            Ok(true)
        } else {
            self.failed = true;
            Err(BackupError::IoFailure)
        }
    }

    /// Finalizes the run, writing the container trailer, and yields the
    /// container stream; parsing that stream gives back exactly the
    /// appended entries.
    pub fn finish(self) -> (r: Result<Vec<u8>, BackupError>)
        requires
            self.wf(),
        ensures
            !self.has_failed() ==> r is Ok,
            r is Ok ==> !self.has_failed() && r->Ok_0@ == container_bytes(self.entries())
                && parsed_container(r->Ok_0@) == Some(self.entries()),
            r is Err ==> r->Err_0 == BackupError::IoFailure,
            self.has_failed() ==> r is Err,
    {
        if self.failed {
            return Err(BackupError::IoFailure);
        }
        match container_writer_finish(self.writer) {
            Some(v) => Ok(v),
            None => Err(BackupError::IoFailure),
        }
    }
}

/// Archives a whole traversed tree at once.
///
/// `cancelled` is the cancellation flag's value for the run: a run that is
/// already cancelled and has at least one node to visit aborts with
/// `Cancelled` and produces no output at all. A fault-free run yields the
/// container stream of exactly the planned entries: the visited nodes, in
/// order, minus the excluded ones and minus the root.
pub fn archive_tree(nodes: &Vec<Entry>, exclusions: Vec<Vec<String>>, cancelled: bool) -> (r:
    Result<Vec<u8>, BackupError>)
    requires
        forall|i: int| 0 <= i < nodes@.len() ==> valid_rel_path((#[trigger] nodes@[i])@.path),
    ensures
        cancelled && nodes@.len() > 0 ==> r == Err::<Vec<u8>, BackupError>(BackupError::Cancelled),
        !(cancelled && nodes@.len() > 0) ==> r is Ok,
        r is Ok ==> {
            let planned = plan(nodes.deep_view(), exclusions.deep_view());
            r->Ok_0@ == container_bytes(planned) && parsed_container(r->Ok_0@) == Some(planned)
        },
        r is Err ==> r->Err_0 == BackupError::Cancelled,
{
    let ghost exclv = exclusions.deep_view();
    let mut arch = TreeArchiver::new(exclusions);
    let n = nodes.len();
    for i in 0..n
        invariant
            n == nodes.len(),
            forall|k: int| 0 <= k < nodes@.len() ==> valid_rel_path((#[trigger] nodes@[k])@.path),
            arch.wf(),
            !arch.has_failed(),
            arch.exclusions_view() == exclv,
            arch.entries() == plan(nodes.deep_view().take(i as int), exclv),
            cancelled ==> i == 0,
    {
        match arch.offer(&nodes[i], cancelled) {
            Ok(_) => {
                proof {
                    reveal(Seq::filter);
                    let dv = nodes.deep_view();
                    assert(dv.take(i + 1).drop_last() =~= dv.take(i as int));
                    assert(dv.take(i + 1).last() == dv[i as int]);
                }
            },
            Err(e) => {
                return Err(e);
            },
        }
    }
    proof {
        assert(nodes.deep_view().take(n as int) =~= nodes.deep_view());
    }
    arch.finish()
}

} // verus!
