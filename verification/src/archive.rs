//! Reading a release archive. The archive arrives as plain bytes; the
//! zip crate parses them and decompresses each entry. Every call into
//! the crate stands behind a small trusted wrapper whose contract speaks
//! of the abstract entry list of the archive, and the logic around the
//! calls is verified against those contracts.

use vstd::prelude::*;
use crate::extract::{
    plan_extraction, entries_view, extraction_writes, writes_view, ArchiveEntry, ExtractWrite,
};

verus! {

#[verifier::external_type_specification]
#[verifier::external_body]
#[verifier::reject_recursive_types(T)]
pub struct ExCursor<T>(std::io::Cursor<T>);

#[verifier::external_type_specification]
#[verifier::external_body]
#[verifier::reject_recursive_types(R)]
pub struct ExZipArchive<R>(zip::ZipArchive<R>);

#[verifier::external_type_specification]
#[verifier::external_body]
pub struct ExZipError(zip::result::ZipError);

/// The entries a parsed archive holds: for each, its raw name bytes and
/// its uncompressed contents, in archive order.
pub uninterp spec fn archive_contents(
    a: zip::ZipArchive<std::io::Cursor<Vec<u8>>>,
) -> Seq<(Seq<u8>, Seq<u8>)>;

/// Which entries of a parsed archive read back fully: whether entry `i`
/// can be opened and its uncompressed contents read to the end.
pub uninterp spec fn archive_entry_ok(a: zip::ZipArchive<std::io::Cursor<Vec<u8>>>) -> Seq<bool>;

/// The entry list that a well-formed archive file with the given bytes
/// holds: a function of the bytes alone.
pub uninterp spec fn zip_entries(bytes: Seq<u8>) -> Seq<(Seq<u8>, Seq<u8>)>;

/// Whether the given bytes parse as an archive: a function of the bytes
/// alone.
pub uninterp spec fn zip_parses(bytes: Seq<u8>) -> bool;

/// Which entries of the archive held in the given bytes read back
/// fully: a function of the bytes alone.
pub uninterp spec fn zip_entries_ok(bytes: Seq<u8>) -> Seq<bool>;

/// Every entry of the archive held in the given bytes reads back fully.
pub open spec fn all_entries_ok(bytes: Seq<u8>) -> bool {
    forall|i: int| 0 <= i < zip_entries(bytes).len() ==> #[trigger] zip_entries_ok(bytes)[i]
}

/// Relies on zip::ZipArchive::new: parsing the central directory of the
/// archive held in `bytes`. Whether the bytes parse, which entries the
/// parsed archive holds, and which of them read back are all functions
/// of the bytes alone; parse errors are returned, never panicked.
#[verifier::external_body]
fn open_archive(bytes: Vec<u8>) -> (r: Result<
    zip::ZipArchive<std::io::Cursor<Vec<u8>>>,
    zip::result::ZipError,
>)
    ensures
        r is Ok <==> zip_parses(bytes@),
        r matches Ok(a) ==> archive_contents(a) == zip_entries(bytes@) && archive_entry_ok(a)
            == zip_entries_ok(bytes@),
{
    zip::ZipArchive::new(std::io::Cursor::new(bytes))
}

/// Relies on zip::ZipArchive::len: the number of entries in the archive.
#[verifier::external_body]
fn archive_len(a: &zip::ZipArchive<std::io::Cursor<Vec<u8>>>) -> (r: usize)
    ensures
        r == archive_contents(*a).len(),
{
    a.len()
}

/// Relies on zip::ZipArchive::by_index, ZipFile::name_raw and
/// std::io::Read::read_to_end: entry `i`'s raw name bytes and its
/// uncompressed contents, functions of the archive alone, returned
/// exactly when the entry reads back fully. Reading an entry leaves the
/// archive's entry list unchanged; read errors are returned, never
/// panicked.
#[verifier::external_body]
fn read_entry(a: &mut zip::ZipArchive<std::io::Cursor<Vec<u8>>>, i: usize) -> (r: Result<
    ArchiveEntry,
    zip::result::ZipError,
>)
    requires
        i < archive_contents(*old(a)).len(),
    ensures
        archive_contents(*final(a)) == archive_contents(*old(a)),
        archive_entry_ok(*final(a)) == archive_entry_ok(*old(a)),
        r is Ok <==> archive_entry_ok(*old(a))[i as int],
        r matches Ok(e) ==> e.name@ == archive_contents(*old(a))[i as int].0 && e.data@
            == archive_contents(*old(a))[i as int].1,
{
    let mut f = match a.by_index(i) {
        Ok(f) => f,
        Err(e) => return Err(e),
    };
    let name = f.name_raw().to_vec();
    let mut data: Vec<u8> = Vec::new();
    match std::io::Read::read_to_end(&mut f, &mut data) {
        Ok(_) => Ok(ArchiveEntry { name, data }),
        Err(e) => Err(zip::result::ZipError::Io(e)),
    }
}

/// Why an archive could not be read: the bytes do not parse as an
/// archive, or one of the entries could not be read back.
#[derive(Debug, Clone, Copy, PartialEq, Eq, Structural)]
pub enum ArchiveError {
    Open,
    EntryRead,
}

/// Reads every entry of the archive held in `bytes`: its raw name and
/// its uncompressed contents, in archive order. Succeeds exactly when
/// the bytes parse as an archive and every entry reads back fully;
/// `Open` names the first failure, `EntryRead` the second.
pub fn read_archive_entries(bytes: Vec<u8>) -> (r: Result<Vec<ArchiveEntry>, ArchiveError>)
    ensures
        r is Ok <==> zip_parses(bytes@) && all_entries_ok(bytes@),
        r matches Ok(v) ==> entries_view(v@) == zip_entries(bytes@),
        r matches Err(e) ==> ((e == ArchiveError::Open) <==> !zip_parses(bytes@)),
{
    let mut archive = match open_archive(bytes) {
        Ok(a) => a,
        Err(_) => {
            return Err(ArchiveError::Open);
        },
    };
    let ghost contents = archive_contents(archive);
    let ghost oks = archive_entry_ok(archive);
    let n = archive_len(&archive);
    let mut out: Vec<ArchiveEntry> = Vec::new();
    let mut i: usize = 0;
    proof {
        assert(entries_view(out@) =~= contents.subrange(0, 0));
    }
    while i < n
        invariant
            i <= n,
            n == contents.len(),
            archive_contents(archive) == contents,
            archive_entry_ok(archive) == oks,
            zip_parses(bytes@),
            contents == zip_entries(bytes@),
            oks == zip_entries_ok(bytes@),
            forall|k: int| 0 <= k < i ==> #[trigger] oks[k],
            entries_view(out@) == contents.subrange(0, i as int),
        decreases n - i,
    {
        let ghost gi = i as int;
        let entry = match read_entry(&mut archive, i) {
            Ok(entry) => entry,
            Err(_) => {
                proof {
                    assert(!zip_entries_ok(bytes@)[gi]);
                    assert(!all_entries_ok(bytes@));
                }
                return Err(ArchiveError::EntryRead);
            },
        };
        proof {
            assert(contents[gi] == (contents[gi].0, contents[gi].1));
        }
        let ghost out_snap = out@;
        out.push(entry);
        proof {
            assert(entries_view(out_snap).len() == out_snap.len());
            assert(out_snap.len() == gi);
            assert(out@.last()@ == contents[gi]);
            assert(out@.drop_last() =~= out_snap);
            assert forall|k: int| 0 <= k < out@.len() implies entries_view(out@)[k]
                == contents.subrange(0, gi + 1)[k] by {
                if k < gi {
                    assert(entries_view(out_snap)[k] == contents.subrange(0, gi)[k]);
                    assert(out@[k] == out_snap[k]);
                } else {
                    assert(out@[k] == out@.last());
                }
            }
            assert(entries_view(out@) =~= contents.subrange(0, gi + 1));
        }
        i = i + 1;
    }
    proof {
        assert(contents.subrange(0, n as int) =~= zip_entries(bytes@));
        assert forall|k: int| 0 <= k < zip_entries(bytes@).len() implies #[trigger] zip_entries_ok(
            bytes@,
        )[k] by {
            assert(oks[k]);
        }
    }
    Ok(out)
}

/// Reads the archive held in `bytes` and plans its extraction: every
/// entry with a safe path becomes, in archive order, the directory or
/// file it stands for; every entry whose path would resolve outside the
/// extraction root is skipped. Succeeds exactly when the bytes parse as
/// an archive and every entry reads back fully.
pub fn extract_archive(bytes: Vec<u8>) -> (r: Result<Vec<ExtractWrite>, ArchiveError>)
    ensures
        r is Ok <==> zip_parses(bytes@) && all_entries_ok(bytes@),
        r matches Ok(ws) ==> writes_view(ws@) == extraction_writes(zip_entries(bytes@)),
        r matches Err(e) ==> ((e == ArchiveError::Open) <==> !zip_parses(bytes@)),
{
    let entries = match read_archive_entries(bytes) {
        Ok(entries) => entries,
        Err(e) => {
            return Err(e);
        },
    };
    Ok(plan_extraction(&entries))
}

} // verus!
