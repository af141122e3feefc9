//! The archive container: an in-memory deflate-compressed zip written
//! entry by entry. The zip crate does the writing; its writer is held in
//! an opaque builder behind trusted wrappers whose contracts track the
//! entries written: name, payload, and Unix permission bits, in order.

use vstd::prelude::*;
use std::io::Cursor;
use std::io::Write;

verus! {

/// One archive entry as the model sees it: entry name, payload bytes,
/// and the Unix permission bits it was written with.
pub type ArchiveEntry = (Seq<char>, Seq<u8>, u32);

/// An in-memory zip archive being written. Opaque: its contents are
/// tracked only through [`archive_entries`].
#[verifier::external_body]
pub struct ArchiveWriter {
    inner: zip::ZipWriter<Cursor<Vec<u8>>>,
}

/// The entries written so far into an archive writer, in writing order.
pub uninterp spec fn archive_entries(w: ArchiveWriter) -> Seq<ArchiveEntry>;

/// Whether appending one more entry to an archive holding the given
/// entries succeeds. The writer is in memory, so success depends only on
/// the entries so far and on the new entry's name, payload and
/// permission bits; in practice the zip crate refuses only pathological
/// entry names.
pub uninterp spec fn zip_add_ok(
    entries: Seq<ArchiveEntry>,
    name: Seq<char>,
    data: Seq<u8>,
    permissions: u32,
) -> bool;

/// Whether closing an in-memory archive holding the given entries
/// succeeds (the zip crate refuses only pathological entry sets, such as
/// names too long for the central directory).
pub uninterp spec fn zip_finish_ok(entries: Seq<ArchiveEntry>) -> bool;

/// The bytes of the finished deflate-compressed archive holding the
/// given entries. The writer is configured with no clock (fixed
/// timestamps) and fixed compression settings, and each entry carries
/// its permission bits, so the output is a function of the entries
/// alone.
pub uninterp spec fn zip_bytes_of(entries: Seq<ArchiveEntry>) -> Seq<u8>;

/// Relies on zip::ZipWriter::new over an in-memory cursor: a new archive
/// with no entries yet.
#[verifier::external_body]
pub fn archive_new() -> (w: ArchiveWriter)
    ensures
        archive_entries(w) == Seq::<ArchiveEntry>::empty(),
{
    ArchiveWriter { inner: zip::ZipWriter::new(Cursor::new(Vec::new())) }
}

/// Relies on zip::ZipWriter::start_file (deflate compression, the given
/// Unix permission bits, the crate's fixed default timestamp) and on its
/// Write::write_all, which cannot fail into a plain Vec once the entry
/// is begun: on success, exactly one entry with this name, payload and
/// permission bits was appended; success itself is deterministic in the
/// writer's entries and the arguments.
#[verifier::external_body]
pub fn archive_add(w: &mut ArchiveWriter, name: &String, data: &Vec<u8>, permissions: u32) -> (r:
    Result<(), ()>)
    ensures
        r is Ok <==> zip_add_ok(archive_entries(*old(w)), name@, data@, permissions),
        r is Ok ==> archive_entries(*final(w)) == archive_entries(*old(w)).push(
            (name@, data@, permissions),
        ),
{
    let options = zip::write::SimpleFileOptions::default().compression_method(
        zip::CompressionMethod::Deflated,
    ).unix_permissions(permissions);
    if w.inner.start_file(name.as_str(), options).is_err() {
        return Err(());
    }
    w.inner.write_all(data.as_slice()).map_err(|_| ())
}

/// Relies on zip::ZipWriter::finish and Cursor::into_inner: on success,
/// the archive bytes of exactly the entries written, in order; success
/// is deterministic in those entries.
#[verifier::external_body]
pub fn archive_finish(w: ArchiveWriter) -> (r: Result<Vec<u8>, ()>)
    ensures
        r is Ok <==> zip_finish_ok(archive_entries(w)),
        r matches Ok(bytes) ==> bytes@ == zip_bytes_of(archive_entries(w)),
{
    match w.inner.finish() {
        Ok(cursor) => Ok(cursor.into_inner()),
        Err(_) => Err(()),
    }
}

} // verus!
