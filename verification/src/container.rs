//! The archive container boundary.
//!
//! A container is a gzip-compressed tar stream. The library models a
//! container as a sequence of entries, each a path (as its segments) plus
//! either a directory marker or file content. Writing and reading the
//! stream itself is delegated to the `tar` and `flate2` crates behind
//! trusted wrappers; everything around them is verified against the two
//! uninterpreted functions `container_bytes` (what the writer emits) and
//! `parsed_container` (what the reader recovers).

use vstd::prelude::*;
use crate::errors::BackupError;

verus! {

/// What one container entry holds.
#[derive(Clone, PartialEq, Eq, Debug)]
pub enum EntryKind {
    /// A directory marker.
    Dir,
    /// A regular file with its content.
    File(Vec<u8>),
}

/// One container entry: a relative path, given as its segments, and its
/// kind. The first segment of an entry of a consolidated container is a
/// namespace tag.
#[derive(Clone, PartialEq, Eq, Debug)]
pub struct Entry {
    /// The path segments, top-most first.
    pub path: Vec<String>,
    /// Directory marker or file content.
    pub kind: EntryKind,
}

/// Mathematical image of an entry's kind.
pub ghost enum EntryKindView {
    Dir,
    File(Seq<u8>),
}

/// Mathematical image of a container entry.
pub ghost struct EntryView {
    pub path: Seq<Seq<char>>,
    pub kind: EntryKindView,
}

impl View for EntryKind {
    type V = EntryKindView;

    open spec fn view(&self) -> EntryKindView {
        match self {
            EntryKind::Dir => EntryKindView::Dir,
            EntryKind::File(c) => EntryKindView::File(c@),
        }
    }
}

impl DeepView for EntryKind {
    type V = EntryKindView;

    open spec fn deep_view(&self) -> EntryKindView {
        self.view()
    }
}

impl View for Entry {
    type V = EntryView;

    open spec fn view(&self) -> EntryView {
        EntryView { path: self.path.deep_view(), kind: self.kind@ }
    }
}

impl DeepView for Entry {
    type V = EntryView;

    open spec fn deep_view(&self) -> EntryView {
        self.view()
    }
}

/// A path segment the container stores and gives back unchanged: nonempty,
/// free of separators and NUL, and not one of the two relative-reference
/// names.
pub open spec fn valid_segment(s: Seq<char>) -> bool {
    &&& s.len() > 0
    &&& forall|i: int| 0 <= i < s.len() ==> s[i] != '/' && s[i] != '\0'
    &&& !(s.len() == 1 && s[0] == '.')
    &&& !(s.len() == 2 && s[0] == '.' && s[1] == '.')
}

/// Every segment of the path is storable; the path itself may be empty
/// (the root of a traversal).
pub open spec fn valid_rel_path(p: Seq<Seq<char>>) -> bool {
    forall|i: int| 0 <= i < p.len() ==> valid_segment(#[trigger] p[i])
}

/// A path that can name a container entry: storable and nonempty.
pub open spec fn valid_entry_path(p: Seq<Seq<char>>) -> bool {
    valid_rel_path(p) && p.len() > 0
}

/// An entry the container writer accepts.
pub open spec fn valid_entry(e: EntryView) -> bool {
    valid_entry_path(e.path)
}

/// Checks that a name can stand as a container path segment.
pub fn is_valid_segment_name(s: &String) -> (r: bool)
    ensures
        r == valid_segment(s@),
{
    let n = s.as_str().unicode_len();
    if n == 0 {
        return false;
    }
    if n == 1 && s.as_str().get_char(0) == '.' {
        return false;
    }
    if n == 2 && s.as_str().get_char(0) == '.' && s.as_str().get_char(1) == '.' {
        return false;
    }
    for i in 0..n
        invariant
            n == s@.len(),
            forall|k: int| 0 <= k < i ==> s@[k] != '/' && s@[k] != '\0',
    {
        let c = s.as_str().get_char(i);
        if c == '/' || c == '\0' {
            return false;
        }
    }
    true
}

/// All entries of a sequence are acceptable to the writer.
pub open spec fn all_entries_valid(es: Seq<EntryView>) -> bool {
    forall|i: int| 0 <= i < es.len() ==> valid_entry(#[trigger] es[i])
}

/// A container writer: a tar stream builder over an in-memory gzip
/// compressor. The writer itself is opaque to verification; the entries it
/// holds are tracked through `builder_entries`.
#[verifier::external_body]
pub struct ContainerWriter {
    inner: tar::Builder<flate2::write::GzEncoder<Vec<u8>>>,
}

/// The entries appended so far to a container writer, in order.
pub uninterp spec fn builder_entries(b: ContainerWriter) -> Seq<EntryView>;

/// The byte stream the container writer produces for a sequence of valid
/// entries. It is a function of the entries alone: the writer pads sizes
/// and checksums deterministically and the compressor is run with fixed
/// settings.
pub uninterp spec fn container_bytes(entries: Seq<EntryView>) -> Seq<u8>;

/// What the container reader recovers from a byte stream: the entries in
/// storage order, or nothing if the stream is not a well-formed container.
pub uninterp spec fn parsed_container(bytes: Seq<u8>) -> Option<Seq<EntryView>>;

/// Relies on `tar::Builder::new` over `flate2::write::GzEncoder::new` with
/// an empty in-memory sink: a fresh writer holds no entries.
#[verifier::external_body]
pub(crate) fn container_writer_new() -> (b: ContainerWriter)
    ensures
        builder_entries(b) == Seq::<EntryView>::empty(),
{
    ContainerWriter {
        inner: tar::Builder::new(
            flate2::write::GzEncoder::new(Vec::new(), flate2::Compression::default()),
        ),
    }
}

/// Relies on `tar::Builder::append_data` with a directory-typed header: it
/// appends exactly one directory entry under the given path. For a storable
/// path the call cannot fail: the header validation rejects only what
/// `valid_segment` already excludes (absolute paths, `..`, separators, NUL),
/// over-long names go through the GNU long-name extension, and the sink is
/// in-memory.
#[verifier::external_body]
pub(crate) fn container_writer_add_dir(
    b: &mut ContainerWriter,
    path: &Vec<String>,
) -> (r: bool)
    requires
        valid_entry_path(path.deep_view()),
    ensures
        r,
        builder_entries(*final(b)) == builder_entries(*old(b)).push(
            EntryView { path: path.deep_view(), kind: EntryKindView::Dir },
        ),
{
    let p: std::path::PathBuf = path.iter().collect();
    let mut h = tar::Header::new_gnu();
    h.set_entry_type(tar::EntryType::dir());
    h.set_size(0);
    b.inner.append_data(&mut h, &p, std::io::empty()).is_ok()
}

/// Relies on `tar::Builder::append_data` with a file-typed header: it
/// appends exactly one file entry with the given content. As with the
/// directory form, the call cannot fail for a storable path over the
/// in-memory sink.
#[verifier::external_body]
pub(crate) fn container_writer_add_file(
    b: &mut ContainerWriter,
    path: &Vec<String>,
    content: &Vec<u8>,
) -> (r: bool)
    requires
        valid_entry_path(path.deep_view()),
    ensures
        r,
        builder_entries(*final(b)) == builder_entries(*old(b)).push(
            EntryView { path: path.deep_view(), kind: EntryKindView::File(content@) },
        ),
{
    let p: std::path::PathBuf = path.iter().collect();
    let mut h = tar::Header::new_gnu();
    h.set_size(content.len() as u64);
    b.inner.append_data(&mut h, &p, content.as_slice()).is_ok()
}

/// Relies on `tar::Builder::into_inner` and `flate2::write::GzEncoder::finish`:
/// finalizing writes the container trailer exactly once and yields the whole
/// stream, and reading that stream back enumerates, in storage order,
/// exactly the entries that were appended. Both finishing steps only write
/// into the in-memory sink, so they cannot fail.
#[verifier::external_body]
pub(crate) fn container_writer_finish(b: ContainerWriter) -> (r: Option<Vec<u8>>)
    requires
        all_entries_valid(builder_entries(b)),
    ensures
        r is Some,
        r->0@ == container_bytes(builder_entries(b)),
        r is Some ==> parsed_container(container_bytes(builder_entries(b))) == Some(
            builder_entries(b),
        ),
{
    match b.inner.into_inner() {
        Ok(enc) => enc.finish().ok(),
        Err(_) => None,
    }
}

/// Relies on `tar::Archive::entries` over `flate2::read::GzDecoder`: the
/// reader enumerates the container's entries in storage order, each with
/// its stored path and content, and fails on a stream that is not a
/// well-formed container.
#[verifier::external_body]
fn container_parse_raw(bytes: &Vec<u8>) -> (r: Option<Vec<Entry>>)
    ensures
        match r {
            Some(v) => parsed_container(bytes@) == Some(v.deep_view()),
            None => parsed_container(bytes@) is None,
        },
{
    let mut ar = tar::Archive::new(flate2::read::GzDecoder::new(bytes.as_slice()));
    let mut out: Vec<Entry> = Vec::new();
    for ent in ar.entries().ok()? {
        let mut ent = ent.ok()?;
        let path = ent.path().ok()?.iter().map(|s| s.to_string_lossy().into_owned()).collect();
        let kind = if ent.header().entry_type().is_dir() {
            EntryKind::Dir
        } else {
            let mut c = Vec::new();
            std::io::Read::read_to_end(&mut ent, &mut c).ok()?;
            EntryKind::File(c)
        };
        out.push(Entry { path, kind });
    }
    Some(out)
}

/// Decodes a container stream into its entries, in storage order.
///
/// Returns `IoFailure` exactly when the bytes are not a well-formed
/// container.
pub fn parse_container(bytes: &Vec<u8>) -> (r: Result<Vec<Entry>, BackupError>)
    ensures
        match parsed_container(bytes@) {
            Some(es) => r is Ok && r->Ok_0.deep_view() == es,
            None => r == Err::<Vec<Entry>, BackupError>(BackupError::IoFailure),
        },
{
    match container_parse_raw(bytes) {
        Some(v) => Ok(v),
        None => Err(BackupError::IoFailure),
    }
}

} // verus!
