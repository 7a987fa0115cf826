use vstd::prelude::*;
use std::io::Cursor;
use std::io::Read;
use zip::result::ZipError;
use zip::ZipArchive;
use crate::error::InstallError;
use crate::ops::{op_views, Op, OpModel};
use crate::paths::{append_relative_path, ensure_subdir_exists, rel_parts, relative_parts, FsPath};

verus! {

#[verifier::external_type_specification]
#[verifier::external_body]
#[verifier::reject_recursive_types(T)]
pub struct ExCursor<T>(Cursor<T>);

#[verifier::external_type_specification]
#[verifier::external_body]
#[verifier::reject_recursive_types(R)]
pub struct ExZipArchive<R>(ZipArchive<R>);

#[verifier::external_type_specification]
#[verifier::external_body]
pub struct ExZipError(ZipError);

/// The bytes an archive reads from: the buffer it was opened on.
pub uninterp spec fn archive_source(a: ZipArchive<Cursor<Vec<u8>>>) -> Seq<u8>;

/// Whether `zip` can read the central directory of the archive in `bytes`.
pub uninterp spec fn zip_opens(bytes: Seq<u8>) -> bool;

/// The entry names that `zip` reads from the central directory of the
/// archive in `bytes`, in its order.
pub uninterp spec fn zip_entry_names(bytes: Seq<u8>) -> Seq<Seq<char>>;

/// The uncompressed entry sizes that `zip` reads from the same directory.
pub uninterp spec fn zip_entry_sizes(bytes: Seq<u8>) -> Seq<u64>;

/// Whether `zip` can read each entry's content without a password.
pub uninterp spec fn zip_entry_readable(bytes: Seq<u8>) -> Seq<bool>;

/// The content `zip` reads for each entry.
pub uninterp spec fn zip_entry_data(bytes: Seq<u8>) -> Seq<Seq<u8>>;

/// Relies on `zip::ZipArchive::new`: reads the central directory of an
/// archive held in memory; whether that succeeds, and the entries it
/// lists, depend on the bytes alone.
#[verifier::external_body]
fn open_archive(bytes: Vec<u8>) -> (r: Result<ZipArchive<Cursor<Vec<u8>>>, ZipError>)
    ensures
        (r is Ok) <==> zip_opens(bytes@),
        r matches Ok(a) ==> archive_source(a) == bytes@,
{
    ZipArchive::new(Cursor::new(bytes))
}

/// Relies on `zip::ZipArchive::len`: the number of entries in the central
/// directory.
#[verifier::external_body]
fn entry_count(a: &ZipArchive<Cursor<Vec<u8>>>) -> (r: usize)
    ensures
        r == zip_entry_names(archive_source(*a)).len(),
        r == zip_entry_sizes(archive_source(*a)).len(),
        r == zip_entry_readable(archive_source(*a)).len(),
        r == zip_entry_data(archive_source(*a)).len(),
{
    a.len()
}

/// Relies on `zip::ZipArchive::by_index_decrypt` (given the empty
/// password, which entries that need none ignore) with `ZipFile::name`,
/// `ZipFile::size` and `ZipFile`'s `Read`: entry `i`'s name, uncompressed
/// size and content. A password failure is handed back as an error, not
/// unwrapped. Reading moves the cursor but not the bytes under it, and
/// each entry is read from its own recorded offset.
#[verifier::external_body]
fn read_entry(a: &mut ZipArchive<Cursor<Vec<u8>>>, i: usize) -> (r: Result<ArchiveEntry, ZipError>)
    requires
        i < zip_entry_names(archive_source(*old(a))).len(),
    ensures
        archive_source(*final(a)) == archive_source(*old(a)),
        (r is Ok) <==> zip_entry_readable(archive_source(*old(a)))[i as int],
        r matches Ok(e) ==> e.name@ == zip_entry_names(archive_source(*old(a)))[i as int]
            && e.size == zip_entry_sizes(archive_source(*old(a)))[i as int]
            && e.data@ == zip_entry_data(archive_source(*old(a)))[i as int],
{
    let mut file = match a.by_index_decrypt(i, &[])? {
        Ok(file) => file,
        Err(_) => return Err(ZipError::UnsupportedArchive(ZipError::PASSWORD_REQUIRED)),
    };
    let name = file.name().to_string();
    let size = file.size();
    let mut data: Vec<u8> = Vec::new();
    file.read_to_end(&mut data).map_err(ZipError::Io)?;
    Ok(ArchiveEntry { name, size, data })
}

/// Relies on `ZipError`'s `Display`: the error's message.
#[verifier::external_body]
fn zip_error_text(e: &ZipError) -> (r: String) {
    e.to_string()
}

/// One entry of an archive: its path inside the archive (parts separated
/// by `/`), its uncompressed size and its content.
#[derive(Debug)]
pub struct ArchiveEntry {
    pub name: String,
    pub size: u64,
    pub data: Vec<u8>,
}

impl ArchiveEntry {
    pub open spec fn view(&self) -> (Seq<char>, u64, Seq<u8>) {
        (self.name@, self.size, self.data@)
    }
}

pub open spec fn entry_views(v: Seq<ArchiveEntry>) -> Seq<(Seq<char>, u64, Seq<u8>)> {
    v.map_values(|e: ArchiveEntry| e@)
}

/// Creating each directory along `parts` under `dest`, parents first.
pub open spec fn dir_chain_ops(dest: Seq<Seq<char>>, parts: Seq<Seq<char>>) -> Seq<OpModel> {
    Seq::new(parts.len(), |k: int| OpModel::EnsureDir(dest + parts.take(k + 1)))
}

/// What unpacking one entry under `dest` does: an empty entry marks a
/// directory, which is created with its ancestors; any other entry is a
/// file, written after its parent directory is made sure of. A file entry
/// with no name is skipped.
pub open spec fn entry_ops(dest: Seq<Seq<char>>, e: (Seq<char>, u64, Seq<u8>)) -> Seq<OpModel> {
    let parts = rel_parts(e.0);
    if e.1 == 0 {
        dir_chain_ops(dest, parts)
    } else if parts.len() == 0 {
        Seq::empty()
    } else {
        seq![OpModel::EnsureDir(dest + parts.drop_last()), OpModel::WriteFile(dest + parts, e.2)]
    }
}

/// What unpacking the entries in order does.
pub open spec fn extraction_ops(dest: Seq<Seq<char>>, entries: Seq<(Seq<char>, u64, Seq<u8>)>) -> Seq<
    OpModel,
>
    decreases entries.len(),
{
    if entries.len() == 0 {
        Seq::empty()
    } else {
        extraction_ops(dest, entries.drop_last()) + entry_ops(dest, entries.last())
    }
}

fn copy_bytes(v: &Vec<u8>) -> (r: Vec<u8>)
    ensures
        r@ == v@,
{
    let mut r: Vec<u8> = Vec::new();
    let mut i: usize = 0;
    while i < v.len()
        invariant
            i <= v@.len(),
            r@ == v@.take(i as int),
        decreases v@.len() - i,
    {
        r.push(v[i]);
        assert(r@ =~= v@.take(i + 1));
        i = i + 1;
    }
    assert(v@.take(i as int) =~= v@);
    r
}

/// The operations that unpack one entry under `dest`.
pub fn entry_plan(dest: &FsPath, e: &ArchiveEntry) -> (r: Vec<Op>)
    ensures
        op_views(r@) == entry_ops(dest@, e@),
{
    if e.size == 0 {
        let dirs = ensure_subdir_exists(dest.duplicate(), e.name.as_str());
        let mut r: Vec<Op> = Vec::new();
        let mut i: usize = 0;
        while i < dirs.len()
            invariant
                i <= dirs@.len(),
                dirs@.len() == rel_parts(e.name@).len(),
                forall|k: int|
                    0 <= k < dirs@.len() ==> #[trigger] dirs@[k]@ == dest@ + rel_parts(e.name@).take(
                        k + 1,
                    ),
                op_views(r@) == dir_chain_ops(dest@, rel_parts(e.name@)).take(i as int),
            decreases dirs@.len() - i,
        {
            let d = dirs[i].duplicate();
            assert(d@ == dest@ + rel_parts(e.name@).take(i + 1));
            let ghost before = r@;
            r.push(Op::EnsureDir(d));
            assert(op_views(r@) =~= op_views(before).push(OpModel::EnsureDir(d@)));
            assert(op_views(r@) =~= dir_chain_ops(dest@, rel_parts(e.name@)).take(i + 1));
            i = i + 1;
        }
        assert(dir_chain_ops(dest@, rel_parts(e.name@)).take(i as int) =~= dir_chain_ops(
            dest@,
            rel_parts(e.name@),
        ));
        r
    } else {
        let parts = relative_parts(e.name.as_str());
        if parts.len() == 0 {
            return Vec::new();
        }
        let mut parent = dest.duplicate();
        let mut i: usize = 0;
        let last = parts.len() - 1;
        while i < last
            invariant
                last + 1 == parts@.len(),
                i <= last,
                parts@.map_values(|p: String| p@) == rel_parts(e.name@),
                parent@ == dest@ + rel_parts(e.name@).take(i as int),
            decreases parts@.len() - i,
        {
            parent.push(parts[i].as_str());
            assert(rel_parts(e.name@).take(i + 1) =~= rel_parts(e.name@).take(i as int).push(
                parts@[i as int]@,
            ));
            i = i + 1;
        }
        assert(rel_parts(e.name@).take(i as int) =~= rel_parts(e.name@).drop_last());
        let file = append_relative_path(dest.duplicate(), e.name.as_str());
        let mut r: Vec<Op> = Vec::new();
        r.push(Op::EnsureDir(parent));
        r.push(Op::WriteFile(file, copy_bytes(&e.data)));
        assert(op_views(r@) =~= entry_ops(dest@, e@));
        r
    }
}

/// The operations that unpack `entries` under `dest`, in their order.
/// Directories are created both for directory entries and, lazily, for
/// each file, so the order of the entries does not matter.
pub fn plan_extraction(dest: &FsPath, entries: &Vec<ArchiveEntry>) -> (r: Vec<Op>)
    ensures
        op_views(r@) == extraction_ops(dest@, entry_views(entries@)),
{
    let mut r: Vec<Op> = Vec::new();
    let mut i: usize = 0;
    while i < entries.len()
        invariant
            i <= entries@.len(),
            op_views(r@) == extraction_ops(dest@, entry_views(entries@).take(i as int)),
        decreases entries@.len() - i,
    {
        let mut ops = entry_plan(dest, &entries[i]);
        let ghost before = r@;
        let ghost added = ops@;
        r.append(&mut ops);
        assert(entry_views(entries@).take(i + 1).drop_last() =~= entry_views(entries@).take(
            i as int,
        ));
        assert(op_views(r@) =~= op_views(before) + op_views(added));
        i = i + 1;
    }
    assert(entry_views(entries@).take(i as int) =~= entry_views(entries@));
    r
}

/// Whether `zip` can read the archive in `bytes` and every entry in it.
pub open spec fn zip_readable(bytes: Seq<u8>) -> bool {
    &&& zip_opens(bytes)
    &&& forall|k: int| 0 <= k < zip_entry_names(bytes).len() ==> #[trigger] zip_entry_readable(bytes)[k]
}

/// The entries of the archive in `bytes`, as `zip` reads them, in order.
pub open spec fn zip_entries(bytes: Seq<u8>) -> Seq<(Seq<char>, u64, Seq<u8>)> {
    Seq::new(
        zip_entry_names(bytes).len(),
        |k: int| (zip_entry_names(bytes)[k], zip_entry_sizes(bytes)[k], zip_entry_data(bytes)[k]),
    )
}

/// Reads every entry of the archive, in order, stopping at the first that
/// cannot be read.
fn read_entries(a: &mut ZipArchive<Cursor<Vec<u8>>>) -> (r: Result<Vec<ArchiveEntry>, InstallError>)
    ensures
        (r is Ok) <==> (forall|k: int|
            0 <= k < zip_entry_names(archive_source(*old(a))).len()
                ==> #[trigger] zip_entry_readable(archive_source(*old(a)))[k]),
        r matches Ok(v) ==> entry_views(v@) == zip_entries(archive_source(*old(a))),
{
    let ghost src = archive_source(*a);
    let n = entry_count(a);
    let mut v: Vec<ArchiveEntry> = Vec::new();
    let mut i: usize = 0;
    while i < n
        invariant
            archive_source(*a) == src,
            src == archive_source(*old(a)),
            n == zip_entry_names(src).len(),
            n == zip_entry_readable(src).len(),
            i <= n,
            v@.len() == i,
            forall|k: int| 0 <= k < i ==> #[trigger] zip_entry_readable(src)[k],
            forall|k: int| 0 <= k < i ==> #[trigger] v@[k]@ == zip_entries(src)[k],
        decreases n - i,
    {
        match read_entry(a, i) {
            Ok(e) => v.push(e),
            Err(err) => {
                assert(!zip_entry_readable(src)[i as int]);
                assert(i < zip_entry_names(src).len());
                return Err(InstallError::new(zip_error_text(&err)));
            },
        }
        i = i + 1;
    }
    assert(entry_views(v@) =~= zip_entries(src));
    Ok(v)
}

/// The operations that unpack the archive held in `bytes` under `dest`:
/// those of its entries in the order of its central directory. Fails
/// exactly when the bytes are not an archive whose entries can all be read.
pub fn unzip_file(dest: &FsPath, bytes: Vec<u8>) -> (r: Result<Vec<Op>, InstallError>)
    ensures
        (r is Ok) <==> zip_readable(bytes@),
        r matches Ok(ops) ==> op_views(ops@) == extraction_ops(dest@, zip_entries(bytes@)),
{
    let mut a = match open_archive(bytes) {
        Ok(a) => a,
        Err(err) => {
            return Err(InstallError::new(zip_error_text(&err)));
        },
    };
    let entries = read_entries(&mut a)?;
    let ops = plan_extraction(dest, &entries);
    Ok(ops)
}

} // verus!
