//! The boundary to the `zip` crate.
//!
//! An archive is modelled by the byte stream it was opened from.  The
//! archive here always reads from an in-memory cursor, so every call below
//! is a function of those bytes and its own arguments; the uninterpreted
//! spec functions name those results, and the wrappers' contracts are the
//! only assumptions the rest of the library makes about the `zip` crate.

use vstd::prelude::*;

verus! {

#[verifier::external_type_specification]
#[verifier::external_body]
#[verifier::reject_recursive_types(T)]
pub struct ExCursor<T>(std::io::Cursor<T>);

#[verifier::external_type_specification]
#[verifier::external_body]
#[verifier::reject_recursive_types(R)]
pub struct ExZipArchive<R>(zip::read::ZipArchive<R>);

#[verifier::external_type_specification]
#[verifier::external_body]
pub struct ExZipError(zip::result::ZipError);

/// How one attempt to read one entry ended, at the specification level.
pub ghost enum EntryOutcome {
    /// The entry was read: its stored name and its compressed and
    /// uncompressed sizes as the central directory records them.
    Read { name: Seq<char>, compressed: u64, uncompressed: u64 },
    /// The entry needs a password that was missing or wrong, or uses a
    /// protection scheme the reader does not support.
    Locked,
    /// The entry is damaged in some other way and was passed over.
    Skipped,
}

/// The stored name and sizes of one entry that was read.
pub struct EntryInfo {
    pub name: String,
    pub compressed_size: u64,
    pub uncompressed_size: u64,
}

/// How one attempt to read one entry ended.
pub enum EntryRead {
    Read(EntryInfo),
    Locked,
    Skipped,
}

impl View for EntryRead {
    type V = EntryOutcome;

    open spec fn view(&self) -> EntryOutcome {
        match self {
            EntryRead::Read(info) => EntryOutcome::Read {
                name: info.name@,
                compressed: info.compressed_size,
                uncompressed: info.uncompressed_size,
            },
            EntryRead::Locked => EntryOutcome::Locked,
            EntryRead::Skipped => EntryOutcome::Skipped,
        }
    }
}

/// Whether `zip::read::ZipArchive::new` accepts the byte stream as a ZIP
/// container.
pub uninterp spec fn zip_parses(bytes: Seq<u8>) -> bool;

/// How many entries the central directory of the byte stream lists, as
/// `zip::read::ZipArchive::len` reports it.
pub uninterp spec fn zip_entry_count(bytes: Seq<u8>) -> nat;

/// The byte stream an open archive reads from.
pub uninterp spec fn archive_bytes(
    a: zip::read::ZipArchive<std::io::Cursor<Vec<u8>>>,
) -> Seq<u8>;

/// How reading entry `i` of the byte stream ends, with `key` as the
/// decryption password (`None`: no password offered).  Both read wrappers
/// below reach the same routine of the `zip` crate, which takes the
/// password as an option, so one name covers both.
pub uninterp spec fn entry_outcome(
    bytes: Seq<u8>,
    i: int,
    key: Option<Seq<u8>>,
) -> EntryOutcome;

/// Relies on `zip::read::ZipArchive::new`: it parses the central directory
/// of the given bytes and nothing else, so success is a function of the
/// bytes alone, and the archive it returns serves reads of exactly those
/// bytes.
#[verifier::external_body]
pub(crate) fn open_archive(bytes: &Vec<u8>) -> (r: Result<
    zip::read::ZipArchive<std::io::Cursor<Vec<u8>>>,
    zip::result::ZipError,
>)
    ensures
        r is Ok <==> zip_parses(bytes@),
        r matches Ok(a) ==> archive_bytes(a) == bytes@,
{
    zip::read::ZipArchive::new(std::io::Cursor::new(bytes.clone()))
}

/// Relies on `zip::read::ZipArchive::len`: the number of entries of the
/// parsed central directory, fixed once the archive is open.
#[verifier::external_body]
pub(crate) fn archive_len(a: &zip::read::ZipArchive<std::io::Cursor<Vec<u8>>>) -> (n: usize)
    ensures
        n == zip_entry_count(archive_bytes(*a)),
{
    a.len()
}

/// Relies on `zip::read::ZipArchive::by_index` reading from an in-memory
/// cursor: the outcome is a function of the archive's bytes and the index;
/// an entry that needs a password fails with `UnsupportedArchive`, a wrong
/// password with `InvalidPassword`, and the call never changes the bytes
/// the archive reads from.  An index at or past the entry count yields
/// `FileNotFound`, classified as skipped.
#[verifier::external_body]
pub(crate) fn read_entry(
    a: &mut zip::read::ZipArchive<std::io::Cursor<Vec<u8>>>,
    i: usize,
) -> (r: EntryRead)
    ensures
        archive_bytes(*final(a)) == archive_bytes(*old(a)),
        r@ == entry_outcome(archive_bytes(*old(a)), i as int, None),
{
    match a.by_index(i) {
        Ok(f) => EntryRead::Read(EntryInfo {
            name: f.name().to_string(),
            compressed_size: f.compressed_size(),
            uncompressed_size: f.size(),
        }),
        Err(zip::result::ZipError::UnsupportedArchive(_)) => EntryRead::Locked,
        Err(zip::result::ZipError::InvalidPassword) => EntryRead::Locked,
        Err(_) => EntryRead::Skipped,
    }
}

/// Relies on `zip::read::ZipArchive::by_index_decrypt` reading from an
/// in-memory cursor: the outcome is a function of the archive's bytes, the
/// index and the password; a wrong password fails with `InvalidPassword`, a
/// scheme the reader does not support with `UnsupportedArchive`, and the
/// call never changes the bytes the archive reads from.
#[verifier::external_body]
pub(crate) fn read_entry_with_key(
    a: &mut zip::read::ZipArchive<std::io::Cursor<Vec<u8>>>,
    i: usize,
    key: &[u8],
) -> (r: EntryRead)
    ensures
        archive_bytes(*final(a)) == archive_bytes(*old(a)),
        r@ == entry_outcome(archive_bytes(*old(a)), i as int, Some(key@)),
{
    match a.by_index_decrypt(i, key) {
        Ok(f) => EntryRead::Read(EntryInfo {
            name: f.name().to_string(),
            compressed_size: f.compressed_size(),
            uncompressed_size: f.size(),
        }),
        Err(zip::result::ZipError::UnsupportedArchive(_)) => EntryRead::Locked,
        Err(zip::result::ZipError::InvalidPassword) => EntryRead::Locked,
        Err(_) => EntryRead::Skipped,
    }
}

} // verus!
