//! The restorer: opens a consolidated container, classifies every entry by
//! its namespace tag, and routes it — package-list entries accumulate into
//! in-memory line lists, tree entries become filesystem write actions at
//! their fixed destination, and a nested container embedded as a single
//! file entry is expanded recursively rather than written verbatim.
//!
//! The restorer computes a [`RestorePlan`]; the caller performs the write
//! actions and invokes the install collaborators with the accumulated
//! lists. An unknown namespace tag or an unreadable nested container aborts
//! the plan at that entry: actions planned for earlier entries stay (they
//! are not rolled back), nothing is planned past the aborting entry.

use vstd::prelude::*;
use vstd::string::*;
use vstd::utf8::encode_utf8;
use crate::container::{
    parse_container, parsed_container, Entry, EntryKind, EntryKindView, EntryView,
};
use crate::crypto::{decrypt_payload, derived_key, opened};
use crate::errors::BackupError;
use crate::consolidate::{entries_of_artifacts, entry_of_artifact, valid_artifact, ArtifactView};
use crate::naming::{marks_encrypted, name_marks_encrypted};
use crate::namespace::{is_list_namespace, parse_tag, parse_tag_chars, route, tag_chars, Namespace,
    RestoreDest};

verus! {

/// A line ended by a newline, with a carriage return directly before that
/// newline stripped, as text line splitting does.
pub open spec fn strip_cr(line: Seq<u8>) -> Seq<u8> {
    if line.len() > 0 && line.last() == 13u8 {
        line.drop_last()
    } else {
        line
    }
}

/// The lines of `bytes` from position `i` on, the current line having
/// started at `start`, appended to `acc`: lines end at newline bytes, a
/// carriage return is stripped only before such a newline, a final line
/// without a trailing newline counts as it stands, and a wholly empty
/// trailing line does not.
pub open spec fn lines_from(bytes: Seq<u8>, i: int, start: int, acc: Seq<Seq<u8>>) -> Seq<Seq<u8>>
    decreases bytes.len() - i,
{
    if i < 0 || i >= bytes.len() {
        if 0 <= start < bytes.len() {
            acc.push(bytes.subrange(start, bytes.len() as int))
        } else {
            acc
        }
    } else if bytes[i] == 10u8 {
        lines_from(bytes, i + 1, i + 1, acc.push(strip_cr(bytes.subrange(start, i))))
    } else {
        lines_from(bytes, i + 1, start, acc)
    }
}

/// The lines of a byte text, as `lines` splits it: ended by `\n` or
/// `\r\n`, the final line ending optional.
pub open spec fn lines_of(bytes: Seq<u8>) -> Seq<Seq<u8>> {
    lines_from(bytes, 0, 0, Seq::<Seq<u8>>::empty())
}

/// Splits a byte text into its lines.
pub fn split_lines(bytes: &Vec<u8>) -> (r: Vec<Vec<u8>>)
    ensures
        r.deep_view() == lines_of(bytes@),
{
    let mut acc: Vec<Vec<u8>> = Vec::new();
    assert(acc.deep_view() =~~= Seq::<Seq<u8>>::empty());
    let mut start: usize = 0;
    let n = bytes.len();
    for i in 0..n
        invariant
            start <= i <= n,
            n == bytes@.len(),
            lines_of(bytes@) == lines_from(bytes@, i as int, start as int, acc.deep_view()),
    {
        if bytes[i] == 10u8 {
            let piece = vstd::slice::slice_subrange(bytes.as_slice(), start, i);
            let mut line = vstd::slice::slice_to_vec(piece);
            if line.len() > 0 && line[line.len() - 1] == 13u8 {
                line.pop();
            }
            assert(line@ =~= strip_cr(bytes@.subrange(start as int, i as int)));
            let ghost acc0 = acc.deep_view();
            acc.push(line);
            assert(acc.deep_view() =~~= acc0.push(strip_cr(
                bytes@.subrange(start as int, i as int),
            )));
            start = i + 1;
        }
    }
    if start < n {
        let piece = vstd::slice::slice_subrange(bytes.as_slice(), start, n);
        let line = vstd::slice::slice_to_vec(piece);
        let ghost acc0 = acc.deep_view();
        acc.push(line);
        assert(acc.deep_view() =~~= acc0.push(bytes@.subrange(start as int, n as int)));
    }
    acc
}

/// One planned filesystem write: the routing base, the path under it, and
/// what to put there.
#[derive(Clone, PartialEq, Eq, Debug)]
pub struct WriteAction {
    /// The routing base directory.
    pub dest: RestoreDest,
    /// The path under the base, as its segments.
    pub rel: Vec<String>,
    /// A directory to create or a file with its content.
    pub kind: EntryKind,
}

/// Mathematical image of a write action.
pub ghost struct WriteActionView {
    pub dest: RestoreDest,
    pub rel: Seq<Seq<char>>,
    pub kind: EntryKindView,
}

impl View for WriteAction {
    type V = WriteActionView;

    open spec fn view(&self) -> WriteActionView {
        WriteActionView { dest: self.dest, rel: self.rel.deep_view(), kind: self.kind@ }
    }
}

impl DeepView for WriteAction {
    type V = WriteActionView;

    open spec fn deep_view(&self) -> WriteActionView {
        self.view()
    }
}

/// How a restore run ended.
#[derive(Clone, PartialEq, Eq, Debug)]
pub enum RestoreOutcome {
    /// Every entry was dispatched.
    Completed,
    /// An entry's top-level segment is not a known namespace tag; the run
    /// stopped at that entry.
    UnknownNamespace(String),
    /// A nested container could not be read; the run stopped at that entry.
    IoFailure,
}

/// Mathematical image of a restore outcome.
pub ghost enum RestoreOutcomeView {
    Completed,
    UnknownNamespace(Seq<char>),
    IoFailure,
}

impl View for RestoreOutcome {
    type V = RestoreOutcomeView;

    open spec fn view(&self) -> RestoreOutcomeView {
        match self {
            RestoreOutcome::Completed => RestoreOutcomeView::Completed,
            RestoreOutcome::UnknownNamespace(s) => RestoreOutcomeView::UnknownNamespace(s@),
            RestoreOutcome::IoFailure => RestoreOutcomeView::IoFailure,
        }
    }
}

/// What restoring a container yields: the accumulated package and Flatpak
/// line lists, the filesystem write actions in entry order, and how the run
/// ended.
pub struct RestorePlan {
    /// Lines accumulated from package-list entries.
    pub apps: Vec<Vec<u8>>,
    /// Lines accumulated from Flatpak-list entries.
    pub flatpak: Vec<Vec<u8>>,
    /// The filesystem writes, in entry order.
    pub writes: Vec<WriteAction>,
    /// How the run ended.
    pub outcome: RestoreOutcome,
}

/// Mathematical image of a restore plan.
pub ghost struct RestoreView {
    pub apps: Seq<Seq<u8>>,
    pub flatpak: Seq<Seq<u8>>,
    pub writes: Seq<WriteActionView>,
    pub outcome: RestoreOutcomeView,
}

impl View for RestorePlan {
    type V = RestoreView;

    open spec fn view(&self) -> RestoreView {
        RestoreView {
            apps: self.apps.deep_view(),
            flatpak: self.flatpak.deep_view(),
            writes: self.writes.deep_view(),
            outcome: self.outcome@,
        }
    }
}

/// The plan of a run that has dispatched nothing yet.
pub open spec fn empty_restore() -> RestoreView {
    RestoreView {
        apps: Seq::<Seq<u8>>::empty(),
        flatpak: Seq::<Seq<u8>>::empty(),
        writes: Seq::<WriteActionView>::empty(),
        outcome: RestoreOutcomeView::Completed,
    }
}

/// The bytes an entry carries: a file's content, nothing for a directory.
pub open spec fn entry_content(e: EntryView) -> Seq<u8> {
    match e.kind {
        EntryKindView::File(c) => c,
        EntryKindView::Dir => Seq::<u8>::empty(),
    }
}

/// Whether a file name marks a nested compressed container: it has the
/// reserved compression suffix as an extension.
pub open spec fn is_nested_name(s: Seq<char>) -> bool {
    s.len() > 3 && s.subrange(s.len() - 3, s.len() as int) == ".gz"@
}

/// An entry's top-level path segment; empty for an entry without a path.
pub open spec fn first_segment(e: EntryView) -> Seq<char> {
    if e.path.len() > 0 {
        e.path[0]
    } else {
        Seq::<char>::empty()
    }
}

/// What one entry contributes to the restore.
pub ghost enum EntryStep {
    /// Lines to append to a list accumulator.
    Lines(Namespace, Seq<Seq<u8>>),
    /// Filesystem writes to plan.
    Writes(Seq<WriteActionView>),
    /// The run stops at this entry.
    Abort(RestoreOutcomeView),
}

/// The write actions a nested container contributes: each nested entry
/// lands beside the embedding entry, under the same routing base.
pub open spec fn nested_writes(
    dest: RestoreDest,
    parent: Seq<Seq<char>>,
    nested: Seq<EntryView>,
) -> Seq<WriteActionView> {
    nested.map_values(
        |ne: EntryView| WriteActionView { dest: dest, rel: parent + ne.path, kind: ne.kind },
    )
}

/// The dispatch of one entry: unknown tags abort; list namespaces
/// accumulate the entry's text lines; tree namespaces plan a write at the
/// routed destination, expanding a nested container into the writes of its
/// own entries — or aborting when it cannot be read.
pub open spec fn entry_step(e: EntryView) -> EntryStep {
    match parse_tag_chars(first_segment(e)) {
        Option::None => EntryStep::Abort(RestoreOutcomeView::UnknownNamespace(first_segment(e))),
        Option::Some(ns) => {
            if is_list_namespace(ns) {
                EntryStep::Lines(ns, lines_of(entry_content(e)))
            } else {
                let rel = e.path.subrange(1, e.path.len() as int);
                if rel.len() > 0 && is_nested_name(rel.last()) {
                    match parsed_container(entry_content(e)) {
                        Option::Some(nes) => EntryStep::Writes(
                            nested_writes(route(ns), rel.drop_last(), nes),
                        ),
                        Option::None => EntryStep::Abort(RestoreOutcomeView::IoFailure),
                    }
                } else {
                    EntryStep::Writes(
                        seq![WriteActionView { dest: route(ns), rel: rel, kind: e.kind }],
                    )
                }
            }
        },
    }
}

/// The restore of `entries` from position `i` on, everything before having
/// accumulated into `acc`: entries are dispatched in container order until
/// all are done or one aborts; an abort keeps what was accumulated and
/// records the outcome.
pub open spec fn restore_from(entries: Seq<EntryView>, i: int, acc: RestoreView) -> RestoreView
    decreases entries.len() - i,
{
    if i < 0 || i >= entries.len() {
        acc
    } else {
        match entry_step(entries[i]) {
            EntryStep::Lines(ns, ls) => {
                let acc2 = if ns == Namespace::AppsList {
                    RestoreView { apps: acc.apps + ls, ..acc }
                } else {
                    RestoreView { flatpak: acc.flatpak + ls, ..acc }
                };
                restore_from(entries, i + 1, acc2)
            },
            EntryStep::Writes(ws) => restore_from(
                entries,
                i + 1,
                RestoreView { writes: acc.writes + ws, ..acc },
            ),
            EntryStep::Abort(o) => RestoreView { outcome: o, ..acc },
        }
    }
}

/// What restoring a container's entries yields.
pub open spec fn restore_spec(entries: Seq<EntryView>) -> RestoreView {
    restore_from(entries, 0, empty_restore())
}

/// An owned copy of a byte vector.
fn clone_bytes(v: &Vec<u8>) -> (r: Vec<u8>)
    ensures
        r@ == v@,
{
    let r = v.clone();
    proof {
        assert forall|i: int| 0 <= i < v@.len() implies r@[i] == v@[i] by {
            assert(cloned::<u8>(v@[i], r@[i]));
        }
        assert(r@ =~= v@);
    }
    r
}

/// An owned copy of an entry kind.
fn clone_kind(k: &EntryKind) -> (r: EntryKind)
    ensures
        r@ == k@,
{
    match k {
        EntryKind::Dir => EntryKind::Dir,
        EntryKind::File(c) => EntryKind::File(clone_bytes(c)),
    }
}

/// An owned copy of a segment path.
fn clone_segments(v: &Vec<String>) -> (r: Vec<String>)
    ensures
        r.deep_view() == v.deep_view(),
{
    let mut out: Vec<String> = Vec::new();
    let n = v.len();
    for i in 0..n
        invariant
            n == v.len(),
            out@.len() == i,
            forall|k: int| 0 <= k < i ==> out@[k]@ == v@[k]@,
    {
        out.push(v[i].clone());
    }
    proof {
        assert(out.deep_view() =~~= v.deep_view());
    }
    out
}

/// The path with its top-level segment stripped.
fn strip_first(p: &Vec<String>) -> (r: Vec<String>)
    requires
        p@.len() >= 1,
    ensures
        r.deep_view() == p.deep_view().subrange(1, p.deep_view().len() as int),
{
    let mut out: Vec<String> = Vec::new();
    let n = p.len();
    let mut i: usize = 1;
    while i < n
        invariant
            1 <= i <= n,
            n == p@.len(),
            out@.len() == i - 1,
            forall|k: int| 0 <= k < i - 1 ==> out@[k]@ == p@[k + 1]@,
        decreases n - i,
    {
        out.push(p[i].clone());
        i = i + 1;
    }
    proof {
        assert(out.deep_view() =~~= p.deep_view().subrange(1, p.deep_view().len() as int));
    }
    out
}

/// The concatenation of two segment paths.
fn concat_segments(a: &Vec<String>, b: &Vec<String>) -> (r: Vec<String>)
    ensures
        r.deep_view() == a.deep_view() + b.deep_view(),
{
    let mut out = clone_segments(a);
    let mut tail = clone_segments(b);
    out.append(&mut tail);
    proof {
        assert(out.deep_view() =~~= a.deep_view() + b.deep_view());
    }
    out
}

/// The routing base of a namespace.
pub fn route_dest(ns: Namespace) -> (r: RestoreDest)
    ensures
        r == route(ns),
{
    match ns {
        Namespace::AppsList => RestoreDest::WorkingDir,
        Namespace::FlatpakList => RestoreDest::WorkingDir,
        Namespace::HomeTree => RestoreDest::HomeDir,
        Namespace::GnupgTree => RestoreDest::GnupgDir,
        Namespace::SshTree => RestoreDest::SshDir,
    }
}

/// Whether a file name marks a nested compressed container.
fn is_nested_file_name(s: &String) -> (r: bool)
    ensures
        r == is_nested_name(s@),
{
    proof {
        reveal_strlit(".gz");
    }
    let n = s.as_str().unicode_len();
    if n <= 3 {
        return false;
    }
    let c1 = s.as_str().get_char(n - 3);
    let c2 = s.as_str().get_char(n - 2);
    let c3 = s.as_str().get_char(n - 1);
    let hit = c1 == '.' && c2 == 'g' && c3 == 'z';
    proof {
        let tail = s@.subrange(s@.len() - 3, s@.len() as int);
        if hit {
            assert(tail =~= ".gz"@);
        } else {
            if tail == ".gz"@ {
                assert(c1 == tail[0] && c2 == tail[1] && c3 == tail[2]);
                assert(false);
            }
        }
    }
    hit
}

/// Determines where a container entry lands on restore: the routing base
/// of its namespace and the entry path with the namespace segment
/// stripped. An unknown top-level segment is a structural error.
pub fn determine_restore_path(entry_path: &Vec<String>) -> (r: Result<
    (RestoreDest, Vec<String>),
    BackupError,
>)
    ensures
        match parse_tag_chars(first_segment_of(entry_path.deep_view())) {
            Some(ns) => r is Ok && r->Ok_0.0 == route(ns) && r->Ok_0.1.deep_view()
                == entry_path.deep_view().subrange(1, entry_path.deep_view().len() as int),
            None => r == Err::<(RestoreDest, Vec<String>), BackupError>(
                BackupError::UnknownNamespace,
            ),
        },
{
    let seg: String = if entry_path.len() > 0 {
        entry_path[0].clone()
    } else {
        String::new()
    };
    match parse_tag(&seg) {
        Some(ns) => {
            proof {
                crate::namespace::lemma_parse_tag_some_nonempty(seg@);
            }
            let rel = strip_first(entry_path);
            Ok((route_dest(ns), rel))
        },
        None => Err(BackupError::UnknownNamespace),
    }
}

/// A path's top-level segment; empty for the empty path.
pub open spec fn first_segment_of(p: Seq<Seq<char>>) -> Seq<char> {
    if p.len() > 0 {
        p[0]
    } else {
        Seq::<char>::empty()
    }
}

/// Computes the restore plan of a container's entries: dispatches them in
/// container order until all are done or one aborts.
pub fn plan_restore(entries: &Vec<Entry>) -> (r: RestorePlan)
    ensures
        r@ == restore_spec(entries.deep_view()),
{
    let ghost dv = entries.deep_view();
    let mut apps: Vec<Vec<u8>> = Vec::new();
    let mut flatpak: Vec<Vec<u8>> = Vec::new();
    let mut writes: Vec<WriteAction> = Vec::new();
    proof {
        assert(apps.deep_view() =~~= Seq::<Seq<u8>>::empty());
        assert(flatpak.deep_view() =~~= Seq::<Seq<u8>>::empty());
        assert(writes.deep_view() =~= Seq::<WriteActionView>::empty());
    }
    let n = entries.len();
    let mut i: usize = 0;
    while i < n
        invariant
            i <= n,
            n == entries.len(),
            dv == entries.deep_view(),
            restore_spec(dv) == restore_from(
                dv,
                i as int,
                RestoreView {
                    apps: apps.deep_view(),
                    flatpak: flatpak.deep_view(),
                    writes: writes.deep_view(),
                    outcome: RestoreOutcomeView::Completed,
                },
            ),
        decreases n - i,
    {
        let ghost acc0 = RestoreView {
            apps: apps.deep_view(),
            flatpak: flatpak.deep_view(),
            writes: writes.deep_view(),
            outcome: RestoreOutcomeView::Completed,
        };
        let e = &entries[i];
        proof {
            assert(e@ == dv[i as int]);
        }
        let seg: String = if e.path.len() > 0 {
            e.path[0].clone()
        } else {
            String::new()
        };
        proof {
            assert(seg@ == first_segment(dv[i as int]));
        }
        match parse_tag(&seg) {
            None => {
                proof {
                    assert(entry_step(dv[i as int]) == EntryStep::Abort(
                        RestoreOutcomeView::UnknownNamespace(seg@),
                    ));
                }
                return RestorePlan {
                    apps,
                    flatpak,
                    writes,
                    outcome: RestoreOutcome::UnknownNamespace(seg),
                };
            },
            Some(ns) => {
                proof {
                    crate::namespace::lemma_parse_tag_some_nonempty(seg@);
                    assert(dv[i as int].path.len() > 0);
                }
                match ns {
                    Namespace::AppsList => {
                        let mut ls = match &e.kind {
                            EntryKind::File(c) => split_lines(c),
                            EntryKind::Dir => Vec::new(),
                        };
                        proof {
                            assert(ls.deep_view() =~~= lines_of(entry_content(dv[i as int])));
                        }
                        let ghost a0 = apps.deep_view();
                        apps.append(&mut ls);
                        proof {
                            assert(apps.deep_view() =~~= a0 + lines_of(
                                entry_content(dv[i as int]),
                            ));
                            assert(entry_step(dv[i as int]) == EntryStep::Lines(
                                Namespace::AppsList,
                                lines_of(entry_content(dv[i as int])),
                            ));
                        }
                    },
                    Namespace::FlatpakList => {
                        let mut ls = match &e.kind {
                            EntryKind::File(c) => split_lines(c),
                            EntryKind::Dir => Vec::new(),
                        };
                        proof {
                            assert(ls.deep_view() =~~= lines_of(entry_content(dv[i as int])));
                        }
                        let ghost f0 = flatpak.deep_view();
                        flatpak.append(&mut ls);
                        proof {
                            assert(flatpak.deep_view() =~~= f0 + lines_of(
                                entry_content(dv[i as int]),
                            ));
                            assert(entry_step(dv[i as int]) == EntryStep::Lines(
                                Namespace::FlatpakList,
                                lines_of(entry_content(dv[i as int])),
                            ));
                        }
                    },
                    _ => {
                        let ghost relv = dv[i as int].path.subrange(
                            1,
                            dv[i as int].path.len() as int,
                        );
                        let rel = strip_first(&e.path);
                        let nested = rel.len() > 0 && {
                            let last = &rel[rel.len() - 1];
                            is_nested_file_name(last)
                        };
                        proof {
                            assert(rel.deep_view() == relv);
                            assert(nested == (relv.len() > 0 && is_nested_name(relv.last())));
                        }
                        if nested {
                            let parsed = match &e.kind {
                                EntryKind::File(c) => parse_container(c),
                                EntryKind::Dir => {
                                    let nob: Vec<u8> = Vec::new();
                                    parse_container(&nob)
                                },
                            };
                            match parsed {
                                Ok(nes) => {
                                    let ghost nesv = nes.deep_view();
                                    proof {
                                        assert(parsed_container(entry_content(dv[i as int]))
                                            == Some(nesv));
                                    }
                                    let mut parent = rel;
                                    parent.pop();
                                    proof {
                                        assert(parent.deep_view() =~~= relv.drop_last());
                                    }
                                    let dest = route_dest(ns);
                                    let ghost ws = nested_writes(route(ns), relv.drop_last(), nesv);
                                    let ghost w0 = writes.deep_view();
                                    let m = nes.len();
                                    for j in 0..m
                                        invariant
                                            m == nes.len(),
                                            nesv == nes.deep_view(),
                                            parent.deep_view() == relv.drop_last(),
                                            dest == route(ns),
                                            ws == nested_writes(route(ns), relv.drop_last(), nesv),
                                            ws.len() == m,
                                            writes.deep_view() =~= w0 + ws.take(j as int),
                                    {
                                        let ghost wpre = writes@;
                                        let ghost dvpre = writes.deep_view();
                                        let rel2 = concat_segments(&parent, &nes[j].path);
                                        let kind2 = clone_kind(&nes[j].kind);
                                        writes.push(WriteAction { dest, rel: rel2, kind: kind2 });
                                        proof {
                                            assert(nes[j as int]@ == nesv[j as int]);
                                            assert(ws[j as int] == WriteActionView {
                                                dest: route(ns),
                                                rel: relv.drop_last() + nesv[j as int].path,
                                                kind: nesv[j as int].kind,
                                            });
                                            let dvw = writes.deep_view();
                                            let target = w0 + ws.take(j + 1);
                                            assert(dvpre.len() == wpre.len());
                                            assert(dvw.len() == target.len());
                                            assert forall|k: int| 0 <= k < dvw.len() implies dvw[k]
                                                == target[k] by {
                                                assert(dvw[k] == writes@[k]@);
                                                if k < wpre.len() {
                                                    assert(writes@[k] == wpre[k]);
                                                    assert(dvpre[k] == wpre[k]@);
                                                    assert(dvpre[k] == (w0 + ws.take(j as int))[k]);
                                                    assert((w0 + ws.take(j as int))[k] == target[k]);
                                                } else {
                                                    assert(writes@[k]@ == ws[j as int]);
                                                    assert(target[k] == ws.take(j + 1)[j as int]);
                                                }
                                            }
                                            assert(dvw =~= target);
                                        }
                                    }
                                    proof {
                                        assert(ws.take(m as int) =~= ws);
                                        assert(writes.deep_view() =~= w0 + ws);
                                        assert(entry_step(dv[i as int]) == EntryStep::Writes(ws));
                                    }
                                },
                                Err(_) => {
                                    proof {
                                        assert(entry_step(dv[i as int]) == EntryStep::Abort(
                                            RestoreOutcomeView::IoFailure,
                                        ));
                                    }
                                    return RestorePlan {
                                        apps,
                                        flatpak,
                                        writes,
                                        outcome: RestoreOutcome::IoFailure,
                                    };
                                },
                            }
                        } else {
                            let dest = route_dest(ns);
                            let kind2 = clone_kind(&e.kind);
                            let ghost w0 = writes.deep_view();
                            writes.push(WriteAction { dest, rel, kind: kind2 });
                            proof {
                                let ws = seq![
                                    WriteActionView {
                                        dest: route(ns),
                                        rel: relv,
                                        kind: dv[i as int].kind,
                                    },
                                ];
                                assert(writes.deep_view() =~= w0 + ws);
                                assert(entry_step(dv[i as int]) == EntryStep::Writes(ws));
                            }
                        }
                    },
                }
                i = i + 1;
            },
        }
    }
    RestorePlan { apps, flatpak, writes, outcome: RestoreOutcome::Completed }
}

/// Whether an entry's dispatch aborts the run.
pub open spec fn step_aborts(s: EntryStep) -> bool {
    match s {
        EntryStep::Abort(_) => true,
        _ => false,
    }
}

/// The outcome an aborting dispatch records.
pub open spec fn step_outcome(s: EntryStep) -> RestoreOutcomeView {
    match s {
        EntryStep::Abort(o) => o,
        _ => RestoreOutcomeView::Completed,
    }
}

/// Restoring from `i` on, with the first abort at `k`, accumulates exactly
/// the contributions of the entries before `k` and records the aborting
/// outcome.
proof fn lemma_restore_from_abort(entries: Seq<EntryView>, i: int, k: int, acc: RestoreView)
    requires
        0 <= i <= k < entries.len(),
        step_aborts(entry_step(entries[k])),
        forall|m: int| i <= m < k ==> !step_aborts(entry_step(#[trigger] entries[m])),
    ensures
        ({
            let upto = restore_from(entries.take(k), i, acc);
            restore_from(entries, i, acc) == RestoreView {
                apps: upto.apps,
                flatpak: upto.flatpak,
                writes: upto.writes,
                outcome: step_outcome(entry_step(entries[k])),
            }
        }),
    decreases k - i,
{
    assert(entries.take(k).len() == k);
    if i == k {
    } else {
        assert(entries.take(k)[i] == entries[i]);
        match entry_step(entries[i]) {
            EntryStep::Lines(ns, ls) => {
                let acc2 = if ns == Namespace::AppsList {
                    RestoreView { apps: acc.apps + ls, ..acc }
                } else {
                    RestoreView { flatpak: acc.flatpak + ls, ..acc }
                };
                lemma_restore_from_abort(entries, i + 1, k, acc2);
            },
            EntryStep::Writes(ws) => {
                lemma_restore_from_abort(
                    entries,
                    i + 1,
                    k,
                    RestoreView { writes: acc.writes + ws, ..acc },
                );
            },
            EntryStep::Abort(_) => {
                assert(false);
            },
        }
    }
}

/// A restore without an abort keeps the outcome it started with.
proof fn lemma_restore_from_no_abort(entries: Seq<EntryView>, i: int, acc: RestoreView)
    requires
        0 <= i,
        forall|m: int| i <= m < entries.len() ==> !step_aborts(entry_step(#[trigger] entries[m])),
    ensures
        restore_from(entries, i, acc).outcome == acc.outcome,
    decreases entries.len() - i,
{
    if i < entries.len() {
        match entry_step(entries[i]) {
            EntryStep::Lines(ns, ls) => {
                let acc2 = if ns == Namespace::AppsList {
                    RestoreView { apps: acc.apps + ls, ..acc }
                } else {
                    RestoreView { flatpak: acc.flatpak + ls, ..acc }
                };
                lemma_restore_from_no_abort(entries, i + 1, acc2);
            },
            EntryStep::Writes(ws) => {
                lemma_restore_from_no_abort(
                    entries,
                    i + 1,
                    RestoreView { writes: acc.writes + ws, ..acc },
                );
            },
            EntryStep::Abort(_) => {
                assert(false);
            },
        }
    }
}

/// A restore stops at the first entry whose top-level path segment is not
/// a known namespace tag: the outcome records that segment, and the lists
/// and writes are exactly those of the entries before it — they stay (no
/// rollback), and nothing past the aborting entry is planned.
pub proof fn lemma_unknown_namespace_aborts(entries: Seq<EntryView>, k: int)
    requires
        0 <= k < entries.len(),
        parse_tag_chars(first_segment(entries[k])) is None,
        forall|m: int| 0 <= m < k ==> !step_aborts(entry_step(#[trigger] entries[m])),
    ensures
        restore_spec(entries).outcome == RestoreOutcomeView::UnknownNamespace(
            first_segment(entries[k]),
        ),
        restore_spec(entries).apps == restore_spec(entries.take(k)).apps,
        restore_spec(entries).flatpak == restore_spec(entries.take(k)).flatpak,
        restore_spec(entries).writes == restore_spec(entries.take(k)).writes,
        restore_spec(entries.take(k)).outcome == RestoreOutcomeView::Completed,
{
    lemma_restore_from_abort(entries, 0, k, empty_restore());
    assert(entries.take(k).len() == k);
    assert(forall|m: int|
        0 <= m < k ==> !step_aborts(entry_step(#[trigger] entries.take(k)[m])));
    lemma_restore_from_no_abort(entries.take(k), 0, empty_restore());
}

/// The text lines that the artifacts of one list namespace contribute on
/// restore, in collector order, from position `i` on.
pub open spec fn list_lines_from(artifacts: Seq<ArtifactView>, i: int, ns: Namespace) -> Seq<
    Seq<u8>,
>
    decreases artifacts.len() - i,
{
    if i < 0 || i >= artifacts.len() {
        Seq::<Seq<u8>>::empty()
    } else {
        (if artifacts[i].ns == ns {
            lines_of(artifacts[i].content)
        } else {
            Seq::<Seq<u8>>::empty()
        }) + list_lines_from(artifacts, i + 1, ns)
    }
}

/// The writes one artifact contributes on restore: none for a list
/// artifact; an embedded container's own entries, laid out beside it, for a
/// tree artifact with the compression suffix; the file itself otherwise.
pub open spec fn artifact_writes(a: ArtifactView) -> Seq<WriteActionView> {
    if is_list_namespace(a.ns) {
        Seq::<WriteActionView>::empty()
    } else if is_nested_name(a.file_name) {
        match parsed_container(a.content) {
            Option::Some(nes) => nested_writes(route(a.ns), Seq::<Seq<char>>::empty(), nes),
            Option::None => Seq::<WriteActionView>::empty(),
        }
    } else {
        seq![
            WriteActionView {
                dest: route(a.ns),
                rel: seq![a.file_name],
                kind: EntryKindView::File(a.content),
            },
        ]
    }
}

/// The writes the artifacts contribute on restore, in collector order,
/// from position `i` on.
pub open spec fn artifact_writes_from(artifacts: Seq<ArtifactView>, i: int) -> Seq<WriteActionView>
    decreases artifacts.len() - i,
{
    if i < 0 || i >= artifacts.len() {
        Seq::<WriteActionView>::empty()
    } else {
        artifact_writes(artifacts[i]) + artifact_writes_from(artifacts, i + 1)
    }
}

/// Every artifact restores cleanly: whatever carries the compression suffix
/// is a readable container.
pub open spec fn artifacts_restorable(artifacts: Seq<ArtifactView>) -> bool {
    forall|i: int|
        0 <= i < artifacts.len() ==> {
            let a = #[trigger] artifacts[i];
            is_list_namespace(a.ns) || !is_nested_name(a.file_name) || parsed_container(a.content)
                is Some
        }
}

/// The dispatch of an artifact's container entry, spelled out over the
/// artifact itself.
proof fn lemma_artifact_entry_step(a: ArtifactView)
    requires
        valid_artifact(a),
    ensures
        is_list_namespace(a.ns) ==> entry_step(entry_of_artifact(a)) == EntryStep::Lines(
            a.ns,
            lines_of(a.content),
        ),
        !is_list_namespace(a.ns) && is_nested_name(a.file_name) ==> entry_step(
            entry_of_artifact(a),
        ) == (match parsed_container(a.content) {
            Option::Some(nes) => EntryStep::Writes(
                nested_writes(route(a.ns), Seq::<Seq<char>>::empty(), nes),
            ),
            Option::None => EntryStep::Abort(RestoreOutcomeView::IoFailure),
        }),
        !is_list_namespace(a.ns) && !is_nested_name(a.file_name) ==> entry_step(
            entry_of_artifact(a),
        ) == EntryStep::Writes(artifact_writes(a)),
{
    let e = entry_of_artifact(a);
    assert(e.path.len() == 2);
    assert(first_segment(e) == tag_chars(a.ns));
    crate::namespace::lemma_tag_round_trip(a.ns);
    assert(entry_content(e) == a.content);
    if !is_list_namespace(a.ns) {
        let rel = e.path.subrange(1, e.path.len() as int);
        assert(rel =~= seq![a.file_name]);
        assert(rel.len() == 1 && rel.last() == a.file_name);
        assert(rel.drop_last() =~= Seq::<Seq<char>>::empty());
        if is_nested_name(a.file_name) {
            match parsed_container(a.content) {
                Option::Some(nes) => {
                    assert(nested_writes(route(a.ns), rel.drop_last(), nes) == nested_writes(
                        route(a.ns),
                        Seq::<Seq<char>>::empty(),
                        nes,
                    ));
                },
                Option::None => {},
            }
        } else {
            assert(seq![
                WriteActionView { dest: route(a.ns), rel: rel, kind: e.kind },
            ] =~= artifact_writes(a));
        }
    }
}

/// Restoring the artifacts' entries from position `i` on appends exactly
/// their list lines and writes to the accumulator and keeps its outcome.
proof fn lemma_restore_artifacts_from(artifacts: Seq<ArtifactView>, i: int, acc: RestoreView)
    requires
        0 <= i,
        forall|k: int| 0 <= k < artifacts.len() ==> valid_artifact(#[trigger] artifacts[k]),
        artifacts_restorable(artifacts),
    ensures
        (restore_from(entries_of_artifacts(artifacts), i, acc) == RestoreView {
            apps: acc.apps + list_lines_from(artifacts, i, Namespace::AppsList),
            flatpak: acc.flatpak + list_lines_from(artifacts, i, Namespace::FlatpakList),
            writes: acc.writes + artifact_writes_from(artifacts, i),
            outcome: acc.outcome,
        }),
    decreases artifacts.len() - i,
{
    let es = entries_of_artifacts(artifacts);
    assert(es.len() == artifacts.len());
    if i >= artifacts.len() {
        assert(acc.apps + list_lines_from(artifacts, i, Namespace::AppsList) =~= acc.apps);
        assert(acc.flatpak + list_lines_from(artifacts, i, Namespace::FlatpakList) =~= acc.flatpak);
        assert(acc.writes + artifact_writes_from(artifacts, i) =~= acc.writes);
    } else {
        let a = artifacts[i];
        assert(es[i] == entry_of_artifact(a));
        lemma_artifact_entry_step(a);
        if is_list_namespace(a.ns) {
            if a.ns == Namespace::AppsList {
                let acc2 = RestoreView { apps: acc.apps + lines_of(a.content), ..acc };
                lemma_restore_artifacts_from(artifacts, i + 1, acc2);
                assert((acc.apps + lines_of(a.content)) + list_lines_from(
                    artifacts,
                    i + 1,
                    Namespace::AppsList,
                ) =~= acc.apps + list_lines_from(artifacts, i, Namespace::AppsList));
                assert(acc.flatpak + list_lines_from(artifacts, i + 1, Namespace::FlatpakList)
                    =~= acc.flatpak + list_lines_from(artifacts, i, Namespace::FlatpakList));
                assert(acc.writes + artifact_writes_from(artifacts, i + 1) =~= acc.writes
                    + artifact_writes_from(artifacts, i));
            } else {
                let acc2 = RestoreView { flatpak: acc.flatpak + lines_of(a.content), ..acc };
                lemma_restore_artifacts_from(artifacts, i + 1, acc2);
                assert((acc.flatpak + lines_of(a.content)) + list_lines_from(
                    artifacts,
                    i + 1,
                    Namespace::FlatpakList,
                ) =~= acc.flatpak + list_lines_from(artifacts, i, Namespace::FlatpakList));
                assert(acc.apps + list_lines_from(artifacts, i + 1, Namespace::AppsList)
                    =~= acc.apps + list_lines_from(artifacts, i, Namespace::AppsList));
                assert(acc.writes + artifact_writes_from(artifacts, i + 1) =~= acc.writes
                    + artifact_writes_from(artifacts, i));
            }
        } else {
            let ws = artifact_writes(a);
            assert(entry_step(es[i]) == EntryStep::Writes(ws));
            let acc2 = RestoreView { writes: acc.writes + ws, ..acc };
            lemma_restore_artifacts_from(artifacts, i + 1, acc2);
            assert((acc.writes + ws) + artifact_writes_from(artifacts, i + 1) =~= acc.writes
                + artifact_writes_from(artifacts, i));
            assert(acc.apps + list_lines_from(artifacts, i + 1, Namespace::AppsList) =~= acc.apps
                + list_lines_from(artifacts, i, Namespace::AppsList));
            assert(acc.flatpak + list_lines_from(artifacts, i + 1, Namespace::FlatpakList)
                =~= acc.flatpak + list_lines_from(artifacts, i, Namespace::FlatpakList));
        }
    }
}

/// Restoring the container a consolidation produced recovers every
/// artifact: provided each embedded container can be read, the run
/// completes, the two accumulators hold exactly the list artifacts' lines
/// in collector order, and the writes are exactly the tree artifacts'
/// contents — each embedded container expanded into its own entries — at
/// their namespaces' fixed destinations.
pub proof fn lemma_consolidate_restore_round_trip(artifacts: Seq<ArtifactView>)
    requires
        forall|i: int| 0 <= i < artifacts.len() ==> valid_artifact(#[trigger] artifacts[i]),
    ensures
        (artifacts_restorable(artifacts) ==> restore_spec(entries_of_artifacts(artifacts))
            == RestoreView {
            apps: list_lines_from(artifacts, 0, Namespace::AppsList),
            flatpak: list_lines_from(artifacts, 0, Namespace::FlatpakList),
            writes: artifact_writes_from(artifacts, 0),
            outcome: RestoreOutcomeView::Completed,
        }),
{
    if artifacts_restorable(artifacts) {
        lemma_restore_artifacts_from(artifacts, 0, empty_restore());
        assert(Seq::<Seq<u8>>::empty() + list_lines_from(artifacts, 0, Namespace::AppsList)
            =~= list_lines_from(artifacts, 0, Namespace::AppsList));
        assert(Seq::<Seq<u8>>::empty() + list_lines_from(artifacts, 0, Namespace::FlatpakList)
            =~= list_lines_from(artifacts, 0, Namespace::FlatpakList));
        assert(Seq::<WriteActionView>::empty() + artifact_writes_from(artifacts, 0)
            =~= artifact_writes_from(artifacts, 0));
    }
}

/// Opens a consolidated archive's bytes and computes its restore plan.
///
/// An archive whose file name carries the encryption marker must be opened
/// through the decryption boundary: without `decrypt` it is refused with
/// `DecryptionRequired`, and a failed open (wrong key or tampered bytes) is
/// `OpenFailure`. An archive without the marker is read directly. Bytes
/// that are not a well-formed container are `IoFailure`; otherwise the
/// entries' restore plan is returned.
pub fn restore_archive(
    data: &Vec<u8>,
    name: &String,
    decrypt: bool,
    key: &Option<String>,
) -> (r: Result<RestorePlan, BackupError>)
    requires
        decrypt ==> key is Some,
    ensures
        marks_encrypted(name@) && !decrypt ==> r == Err::<RestorePlan, BackupError>(
            BackupError::DecryptionRequired,
        ),
        marks_encrypted(name@) && decrypt ==> match opened(
            data@,
            derived_key(encode_utf8(key->0@)),
        ) {
            Option::None => r == Err::<RestorePlan, BackupError>(BackupError::OpenFailure),
            Option::Some(p) => match parsed_container(p) {
                Option::None => r == Err::<RestorePlan, BackupError>(BackupError::IoFailure),
                Option::Some(es) => r is Ok && r->Ok_0@ == restore_spec(es),
            },
        },
        !marks_encrypted(name@) ==> match parsed_container(data@) {
            Option::None => r == Err::<RestorePlan, BackupError>(BackupError::IoFailure),
            Option::Some(es) => r is Ok && r->Ok_0@ == restore_spec(es),
        },
{
    if name_marks_encrypted(name) {
        if !decrypt {
            return Err(BackupError::DecryptionRequired);
        }
        if let Some(k) = key {
            let kb = k.as_str().as_bytes_vec();
            match decrypt_payload(data, &kb) {
                Ok(p) => match parse_container(&p) {
                    Ok(es) => Ok(plan_restore(&es)),
                    Err(_) => Err(BackupError::IoFailure),
                },
                Err(_) => Err(BackupError::OpenFailure),
            }
        } else {
            Err(BackupError::OpenFailure)
        }
    } else {
        match parse_container(data) {
            Ok(es) => Ok(plan_restore(&es)),
            Err(_) => Err(BackupError::IoFailure),
        }
    }
}

} // verus!
