//! The archive codec: a folder tree, given as a flat list of files with
//! relative paths, packed into a single buffer and back.
//!
//! The byte format is the zip container, produced and parsed by the
//! `zip` crate with fixed file options, so the buffer is a function of
//! the entry list alone. Walking a real directory into a `FolderFile`
//! list and writing extracted entries back to disk are the embedding
//! application's job.

use vstd::prelude::*;

verus! {

/// One regular file of a folder tree.
pub struct FolderFile {
    /// Path relative to the folder being packed, with `/` separators.
    pub rel_path: String,
    /// The file's contents.
    pub data: Vec<u8>,
    /// The file's modification time, in seconds since the epoch.
    pub modified: u64,
}

/// The (name, contents) views of a file list, in order.
pub open spec fn entry_views(files: Seq<FolderFile>) -> Seq<(Seq<char>, Seq<u8>)> {
    files.map_values(|f: FolderFile| (f.rel_path@, f.data@))
}

/// The greatest modification time in the list, `0` when it is empty
/// (directories themselves contribute no timestamp).
pub open spec fn latest_modified(files: Seq<FolderFile>) -> u64
    decreases files.len(),
{
    if files.len() == 0 {
        0u64
    } else {
        let rest = latest_modified(files.drop_last());
        if files.last().modified > rest {
            files.last().modified
        } else {
            rest
        }
    }
}

/// `latest_modified` really is the maximum: no file is newer, and some
/// file (of a non-empty list) is exactly that old.
pub proof fn lemma_latest_modified_is_max(files: Seq<FolderFile>)
    ensures
        forall|i: int| 0 <= i < files.len() ==> #[trigger] files[i].modified <= latest_modified(
            files,
        ),
        files.len() > 0 ==> exists|i: int|
            0 <= i < files.len() && #[trigger] files[i].modified == latest_modified(files),
        files.len() == 0 ==> latest_modified(files) == 0,
    decreases files.len(),
{
    if files.len() > 0 {
        let front = files.drop_last();
        lemma_latest_modified_is_max(front);
        assert forall|i: int|
            0 <= i < files.len() implies #[trigger] files[i].modified <= latest_modified(
            files,
        ) by {
            if i < front.len() {
                assert(front[i] == files[i]);
            }
        }
        if files.last().modified > latest_modified(front) {
            assert(files[files.len() - 1].modified == latest_modified(files));
        } else if front.len() > 0 {
            let j = choose|j: int|
                0 <= j < front.len() && #[trigger] front[j].modified == latest_modified(front);
            assert(files[j].modified == latest_modified(files));
        } else {
            assert(files[0].modified == latest_modified(files));
        }
    }
}

#[verifier::external_type_specification]
#[verifier::external_body]
#[verifier::reject_recursive_types(T)]
pub struct ExCursor<T>(std::io::Cursor<T>);

/// An archive writer over an in-memory buffer. The writer type's own
/// trait bounds keep it from being declared to the verifier directly,
/// so it is held opaquely here.
#[verifier::external_body]
pub struct ArchiveWriter {
    inner: zip::ZipWriter<std::io::Cursor<Vec<u8>>>,
}

#[verifier::external_type_specification]
#[verifier::external_body]
#[verifier::reject_recursive_types(R)]
pub struct ExZipArchive<R>(zip::ZipArchive<R>);

/// The archive buffer that the writer produces for an entry list: the
/// fixed file options pin the stored timestamp and method (and the
/// writer's platform constant is fixed at build time), so the bytes
/// depend on the names and contents alone.
pub uninterp spec fn zip_encoding(entries: Seq<(Seq<char>, Seq<u8>)>) -> Seq<u8>;

/// The entries written to an archive writer so far.
pub uninterp spec fn zw_entries(w: ArchiveWriter) -> Seq<(Seq<char>, Seq<u8>)>;

/// The entry names the writer accepts: `start_file` validates the name
/// and rejects, for instance, one whose encoded form overflows the
/// container's 16-bit name field.
pub uninterp spec fn encodable(name: Seq<char>) -> bool;

/// The entries of an opened archive.
pub uninterp spec fn za_entries(a: zip::ZipArchive<std::io::Cursor<Vec<u8>>>) -> Seq<
    (Seq<char>, Seq<u8>),
>;

/// Whether an opened archive came out of this writer, so that reading
/// any of its entries succeeds.
pub uninterp spec fn za_intact(a: zip::ZipArchive<std::io::Cursor<Vec<u8>>>) -> bool;

/// Relies on `zip::ZipWriter::new`: a writer over a fresh in-memory
/// buffer holds no entries yet.
#[verifier::external_body]
fn zw_new() -> (w: ArchiveWriter)
    ensures
        zw_entries(w) == Seq::<(Seq<char>, Seq<u8>)>::empty(),
{
    ArchiveWriter { inner: zip::ZipWriter::new(std::io::Cursor::new(Vec::new())) }
}

/// Relies on `zip::ZipWriter::start_file` with the crate's constant
/// default options plus the large-file flag, followed by
/// `std::io::Write::write_all`: together they append one entry with
/// this name and these bytes. With the large-file flag the writer's
/// 32-bit size checks are off (entries of any length are written with
/// 64-bit size records), and writes into an in-memory buffer cannot
/// fail, so the only remaining failure sources are the writer's name
/// checks: a name it rejects, or a name already written. An acceptable
/// fresh name is always written.
#[verifier::external_body]
fn zw_add(w: &mut ArchiveWriter, name: &str, data: &Vec<u8>) -> (r: Result<(), String>)
    ensures
        r is Ok ==> zw_entries(*final(w)) == zw_entries(*old(w)).push((name@, data@)),
        (encodable(name@) && (forall|i: int|
            0 <= i < zw_entries(*old(w)).len() ==> (#[trigger] zw_entries(*old(w))[i]).0
                != name@)) ==> r is Ok,
{
    let options = zip::write::SimpleFileOptions::DEFAULT.large_file(true);
    if let Err(e) = w.inner.start_file(name, options) {
        return Err(e.to_string());
    }
    if let Err(e) = std::io::Write::write_all(&mut w.inner, data.as_slice()) {
        return Err(e.to_string());
    }
    Ok(())
}

/// Relies on `zip::ZipWriter::finish`: the finished buffer is determined
/// by the entries alone, since the file options are fixed. Every entry
/// carries the large-file flag, so no size check can trip while the
/// last entry is flushed; writing the central directory into a
/// Vec-backed cursor cannot fail and the writer never leaves its plain
/// unencrypted state, so finishing always succeeds.
#[verifier::external_body]
fn zw_finish(w: ArchiveWriter) -> (r: Result<Vec<u8>, String>)
    ensures
        r is Ok,
        r matches Ok(bytes) ==> bytes@ == zip_encoding(zw_entries(w)),
{
    match w.inner.finish() {
        Ok(c) => Ok(c.into_inner()),
        Err(e) => Err(e.to_string()),
    }
}

/// Whether opening `bytes` gave back, for every entry list the writer
/// encodes to `bytes`, an intact archive holding exactly those entries.
pub open spec fn opened_back(
    bytes: Seq<u8>,
    r: Result<zip::ZipArchive<std::io::Cursor<Vec<u8>>>, String>,
) -> bool {
    forall|es: Seq<(Seq<char>, Seq<u8>)>|
        bytes == #[trigger] zip_encoding(es) ==> (r matches Ok(a) && za_entries(a) == es
            && za_intact(a))
}

/// Relies on `zip::ZipArchive::new`: opening a buffer that
/// `zip::ZipWriter` produced for some entry list succeeds and finds
/// exactly those entries, each of them readable.
#[verifier::external_body]
fn za_new(bytes: &Vec<u8>) -> (r: Result<zip::ZipArchive<std::io::Cursor<Vec<u8>>>, String>)
    ensures
        opened_back(bytes@, r),
{
    match zip::ZipArchive::new(std::io::Cursor::new(bytes.clone())) {
        Ok(a) => Ok(a),
        Err(e) => Err(e.to_string()),
    }
}

/// Relies on `zip::ZipArchive::len`: the number of entries.
#[verifier::external_body]
fn za_len(a: &zip::ZipArchive<std::io::Cursor<Vec<u8>>>) -> (n: usize)
    ensures
        n == za_entries(*a).len(),
{
    a.len()
}

/// Relies on `zip::ZipArchive::by_index`, `ZipFile::name` and
/// `std::io::Read::read_to_end`, which together hand out one entry's
/// stored name and unpacked bytes. Reading moves only the archive's
/// internal cursor: the entry list stays as it is, and on an archive the
/// writer produced no read fails.
#[verifier::external_body]
fn za_read(a: &mut zip::ZipArchive<std::io::Cursor<Vec<u8>>>, i: usize) -> (r: Result<
    (String, Vec<u8>),
    String,
>)
    requires
        i < za_entries(*old(a)).len(),
    ensures
        za_entries(*final(a)) == za_entries(*old(a)),
        za_intact(*final(a)) == za_intact(*old(a)),
        r matches Ok(e) ==> (e.0@, e.1@) == za_entries(*old(a))[i as int],
        za_intact(*old(a)) ==> r is Ok,
{
    match a.by_index(i) {
        Ok(mut f) => {
            let name = f.name().to_owned();
            let mut buf = Vec::new();
            if let Err(e) = std::io::Read::read_to_end(&mut f, &mut buf) {
                return Err(e.to_string());
            }
            Ok((name, buf))
        },
        Err(e) => Err(e.to_string()),
    }
}

/// Whether a folder tree can always be packed: relative paths are
/// pairwise distinct and each is a name the writer accepts.
pub open spec fn packable(files: Seq<FolderFile>) -> bool {
    &&& forall|i: int, j: int|
        0 <= i < j < files.len() ==> (#[trigger] files[i].rel_path@) != (
        #[trigger] files[j].rel_path@)
    &&& forall|i: int| 0 <= i < files.len() ==> encodable(#[trigger] files[i].rel_path@)
}

/// Pack a folder tree into one archive buffer, and report the greatest
/// file modification time seen (the folder's effective local timestamp).
/// Packing is owed whenever the tree is packable.
pub fn zip_dir(files: &Vec<FolderFile>) -> (r: Result<(Vec<u8>, u64), String>)
    ensures
        r matches Ok(packed) ==> packed.0@ == zip_encoding(entry_views(files@)) && packed.1
            == latest_modified(files@),
        packable(files@) ==> r is Ok,
{
    let mut w = zw_new();
    let mut newest: u64 = 0;
    let n = files.len();
    let mut i: usize = 0;
    while i < n
        invariant
            n == files@.len(),
            i <= n,
            zw_entries(w) == entry_views(files@.subrange(0, i as int)),
            newest == latest_modified(files@.subrange(0, i as int)),
        decreases n - i,
    {
        let f = &files[i];
        proof {
            if packable(files@) {
                assert forall|j: int|
                    0 <= j < zw_entries(w).len() implies (#[trigger] zw_entries(w)[j]).0
                    != f.rel_path@ by {
                    assert(zw_entries(w)[j] == entry_views(files@.subrange(0, i as int))[j]);
                    assert(files@[j].rel_path@ != files@[i as int].rel_path@);
                }
            }
        }
        if let Err(e) = zw_add(&mut w, f.rel_path.as_str(), &f.data) {
            proof {
                if packable(files@) {
                    assert(encodable(files@[i as int].rel_path@));
                }
            }
            return Err(e);
        }
        if f.modified > newest {
            newest = f.modified;
        }
        proof {
            let pre = files@.subrange(0, i as int);
            let cur = files@.subrange(0, i + 1 as int);
            assert(cur.drop_last() =~= pre);
            assert(cur.last() == files@[i as int]);
            assert(entry_views(cur) =~= entry_views(pre).push(
                (files@[i as int].rel_path@, files@[i as int].data@),
            ));
        }
        i = i + 1;
    }
    proof {
        assert(files@.subrange(0, n as int) =~= files@);
    }
    match zw_finish(w) {
        Ok(bytes) => Ok((bytes, newest)),
        Err(e) => Err(e),
    }
}

/// The (name, contents) views of extracted entries.
pub open spec fn extracted_views(out: Seq<(String, Vec<u8>)>) -> Seq<(Seq<char>, Seq<u8>)> {
    out.map_values(|e: (String, Vec<u8>)| (e.0@, e.1@))
}

/// Unpack an archive buffer into its entries. On any buffer that
/// `zip_dir` produced this succeeds and yields exactly the packed
/// entries; on other input, whatever the container holds is returned,
/// or an error.
pub fn extract(bytes: &Vec<u8>) -> (r: Result<Vec<(String, Vec<u8>)>, String>)
    ensures
        forall|es: Seq<(Seq<char>, Seq<u8>)>|
            bytes@ == zip_encoding(es) ==> (r matches Ok(out) && extracted_views(out@) == es),
        r matches Ok(out) ==> exists|a: zip::ZipArchive<std::io::Cursor<Vec<u8>>>|
            extracted_views(out@) == za_entries(a),
{
    let mut a = match za_new(bytes) {
        Ok(a) => a,
        Err(e) => {
            return Err(e);
        },
    };
    let ghost a0 = a;
    let n = za_len(&a);
    let mut out: Vec<(String, Vec<u8>)> = Vec::new();
    let mut i: usize = 0;
    while i < n
        invariant
            n == za_entries(a).len(),
            za_entries(a) == za_entries(a0),
            za_intact(a) == za_intact(a0),
            forall|es: Seq<(Seq<char>, Seq<u8>)>|
                bytes@ == #[trigger] zip_encoding(es) ==> (za_entries(a0) == es && za_intact(a0)),
            i <= n,
            out@.len() == i,
            forall|j: int|
                0 <= j < i ==> (#[trigger] out@[j].0@, out@[j].1@) == za_entries(a0)[j],
        decreases n - i,
    {
        match za_read(&mut a, i) {
            Ok(entry) => {
                out.push(entry);
            },
            Err(e) => {
                proof {
                    assert(!za_intact(a0));
                }
                return Err(e);
            },
        }
        i = i + 1;
    }
    proof {
        assert(extracted_views(out@) =~= za_entries(a0));
    }
    Ok(out)
}

/// Archive round trip: unpacking what `zip_dir` packed yields exactly
/// the packed files' names and contents, whatever the folder tree was;
/// on a packable tree the trip is owed to succeed.
pub fn archive_round_trip(files: &Vec<FolderFile>) -> (r: Result<Vec<(String, Vec<u8>)>, String>)
    ensures
        r matches Ok(out) ==> extracted_views(out@) == entry_views(files@),
        packable(files@) ==> r is Ok,
{
    let packed = match zip_dir(files) {
        Ok(p) => p,
        Err(e) => {
            return Err(e);
        },
    };
    let out = match extract(&packed.0) {
        Ok(out) => out,
        Err(e) => {
            return Err(e);
        },
    };
    Ok(out)
}

} // verus!
