//! Packing named byte entries into one in-memory zip archive, through the
//! `zip` crate's `ZipWriter` over a `Cursor<Vec<u8>>`.
use vstd::prelude::*;
use std::io::Cursor;
use std::io::Write;
use zip::result::ZipError;
use zip::ZipWriter;

verus! {

/// A `zip::ZipWriter` over an in-memory `Cursor<Vec<u8>>`, held opaque: the
/// names below say what it holds and what finishing it yields.
#[verifier::external_body]
pub struct ZipBuffer {
    writer: ZipWriter<Cursor<Vec<u8>>>,
}

/// The `zip` crate's error type, carried opaque.
#[verifier::external_type_specification]
#[verifier::external_body]
pub struct ExZipError(zip::result::ZipError);

/// `std::io::Error`, carried opaque.
#[verifier::external_type_specification]
#[verifier::external_body]
pub struct ExIoError(std::io::Error);

/// The entries (name, data) that a writer holds, in the order they were started.
pub uninterp spec fn zip_entries(z: ZipBuffer) -> Seq<(Seq<char>, Seq<u8>)>;

/// The writer is open (not closed by a failed step) and the data of each of
/// its entries is below 2 GiB, far from the 4 GiB at which an entry needs the
/// large-file option. Writes and seeks on the in-memory cursor do not fail, so
/// an open writer's steps succeed.
pub uninterp spec fn zip_open(z: ZipBuffer) -> bool;

/// The largest entry size (exclusive) that the archive steps are promised to accept.
pub open spec fn entry_limit() -> nat {
    0x8000_0000
}

/// The archive bytes that finishing the writer `z` yields. The crate is built
/// without its `time` feature, so every entry carries the fixed DOS epoch
/// timestamp and the bytes depend on the writer's state alone.
pub uninterp spec fn zip_bytes(z: ZipBuffer) -> Seq<u8>;

/// `ZipWriter::new` over an empty `Cursor<Vec<u8>>`: a writer that holds no entry.
#[verifier::external_body]
fn zip_writer_new() -> (z: ZipBuffer)
    ensures
        zip_entries(z) == Seq::<(Seq<char>, Seq<u8>)>::empty(),
        zip_open(z),
{
    ZipBuffer { writer: ZipWriter::new(Cursor::new(Vec::new())) }
}

/// `ZipWriter::start_file` with deflate compression: on success the writer
/// holds one more entry, named `name`, with no data yet. An open writer starts
/// the entry and stays open. What the writer holds after an error is left
/// unsaid.
#[verifier::external_body]
fn zip_start_file(z: &mut ZipBuffer, name: &str) -> (r: Result<(), ZipError>)
    ensures
        r is Ok ==> zip_entries(*final(z)) == zip_entries(*old(z)).push((name@, Seq::<u8>::empty())),
        zip_open(*old(z)) ==> r is Ok && zip_open(*final(z)),
{
    let opts = zip::write::FileOptions::default().compression_method(zip::CompressionMethod::Deflated);
    z.writer.start_file(name, opts)
}

/// `Write::write_all` on a `ZipWriter`: on success `data` is appended to the
/// data of the entry last started; the other entries are unchanged. An open
/// writer accepts data that keeps the entry below 2 GiB and stays open. What
/// the writer holds after an error is left unsaid.
#[verifier::external_body]
fn zip_write_all(z: &mut ZipBuffer, data: &[u8]) -> (r: Result<(), std::io::Error>)
    requires
        zip_entries(*old(z)).len() > 0,
    ensures
        r is Ok ==> ({
            let before = zip_entries(*old(z));
            let last = before.last();
            zip_entries(*final(z)) == before.drop_last().push((last.0, last.1 + data@))
        }),
        zip_open(*old(z)) && zip_entries(*old(z)).last().1.len() + data@.len() < entry_limit()
            ==> r is Ok && zip_open(*final(z)),
{
    z.writer.write_all(data)
}

/// `ZipWriter::finish`: on success, the bytes of the finished archive; an
/// open writer finishes.
#[verifier::external_body]
fn zip_finish(z: &mut ZipBuffer) -> (r: Result<Vec<u8>, ZipError>)
    ensures
        r matches Ok(b) ==> b@ == zip_bytes(*old(z)),
        zip_open(*old(z)) ==> r is Ok,
{
    z.writer.finish().map(|c| c.into_inner())
}

/// The step at which packing an archive failed.
pub enum ArchiveError {
    /// Starting the entry with this index failed.
    StartEntry(usize),
    /// Writing the data of the entry with this index failed.
    WriteEntry(usize),
    /// Finishing the archive failed.
    Finish,
}

/// The (name, data) views of a list of entries.
pub open spec fn entries_view(entries: Seq<(String, Vec<u8>)>) -> Seq<(Seq<char>, Seq<u8>)> {
    entries.map_values(|e: (String, Vec<u8>)| (e.0@, e.1@))
}

/// Every entry's data is below the entry limit.
pub open spec fn entries_fit(entries: Seq<(Seq<char>, Seq<u8>)>) -> bool {
    forall|k: int| 0 <= k < entries.len() ==> (#[trigger] entries[k]).1.len() < entry_limit()
}

/// Packs `entries` into a deflate-compressed zip archive, in order. It
/// succeeds whenever every entry is below 2 GiB; on success the bytes are
/// those of a writer that holds exactly these entries; a failed entry is
/// reported by its index.
pub fn zip_archive(entries: &Vec<(String, Vec<u8>)>) -> (r: Result<Vec<u8>, ArchiveError>)
    ensures
        entries_fit(entries_view(entries@)) ==> r is Ok,
        r matches Ok(b) ==> exists|z: ZipBuffer|
            zip_entries(z) == entries_view(entries@) && b@ == zip_bytes(z),
        r matches Err(ArchiveError::StartEntry(i)) ==> i < entries@.len(),
        r matches Err(ArchiveError::WriteEntry(i)) ==> i < entries@.len(),
{
    let mut z = zip_writer_new();
    let mut i: usize = 0;
    while i < entries.len()
        invariant
            i <= entries@.len(),
            zip_entries(z) == entries_view(entries@.subrange(0, i as int)),
            entries_fit(entries_view(entries@)) ==> zip_open(z),
        decreases entries@.len() - i,
    {
        let name = &entries[i].0;
        let data = &entries[i].1;
        proof {
            if entries_fit(entries_view(entries@)) {
                assert(entries_view(entries@)[i as int].1 == data@);
            }
        }
        match zip_start_file(&mut z, name.as_str()) {
            Ok(()) => {},
            Err(_) => {
                return Err(ArchiveError::StartEntry(i));
            },
        }
        match zip_write_all(&mut z, data.as_slice()) {
            Ok(()) => {},
            Err(_) => {
                return Err(ArchiveError::WriteEntry(i));
            },
        }
        proof {
            let prev = entries_view(entries@.subrange(0, i as int));
            let next = entries_view(entries@.subrange(0, i + 1));
            assert(next =~= prev.push((name@, data@)));
            assert(Seq::<u8>::empty() + data@ =~= data@);
            assert(prev.push((name@, Seq::<u8>::empty())).drop_last() =~= prev);
        }
        i = i + 1;
    }
    assert(entries@.subrange(0, entries@.len() as int) =~= entries@);
    match zip_finish(&mut z) {
        Ok(b) => Ok(b),
        Err(_) => Err(ArchiveError::Finish),
    }
}

} // verus!
