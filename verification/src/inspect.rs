//! Walking an archive's entries and assembling the summary.
//!
//! The walk is modelled by folds over the per-entry outcomes: the names of
//! the entries that read successfully, in directory order; whether any
//! entry was locked; and the two wrapping 64-bit size accumulators.  One
//! locked or damaged entry never fails the whole inspection: it is skipped
//! and the summary reports what could be read.

use vstd::prelude::*;
use vstd::wrapping::u64_specs;
use crate::archive::{
    EntryOutcome,
    EntryRead,
    archive_bytes,
    archive_len,
    entry_outcome,
    open_archive,
    read_entry,
    read_entry_with_key,
    zip_entry_count,
    zip_parses,
};
use crate::path_name::{base_name, base_name_of};
use crate::summary::{ArchiveMetadata, ArchiveSummary, ErrorKind};

verus! {

/// The password as the per-entry outcomes see it.
pub open spec fn key_view(password: Option<&[u8]>) -> Option<Seq<u8>> {
    match password {
        Some(k) => Some(k@),
        None => None,
    }
}

/// The stored names of the entries among the first `n` that read
/// successfully with `key`, in directory order.
pub open spec fn read_names(bytes: Seq<u8>, key: Option<Seq<u8>>, n: int) -> Seq<Seq<char>>
    decreases n,
{
    if n <= 0 {
        Seq::empty()
    } else {
        let rest = read_names(bytes, key, n - 1);
        match entry_outcome(bytes, n - 1, key) {
            EntryOutcome::Read { name, .. } => rest.push(name),
            _ => rest,
        }
    }
}

/// Whether any of the first `n` entries was locked: unreadable for want of
/// the right password.
pub open spec fn saw_locked(bytes: Seq<u8>, key: Option<Seq<u8>>, n: int) -> bool
    decreases n,
{
    if n <= 0 {
        false
    } else {
        saw_locked(bytes, key, n - 1) || entry_outcome(bytes, n - 1, key) is Locked
    }
}

/// The compressed sizes of the entries among the first `n` that read
/// successfully, accumulated with wrapping 64-bit addition.
pub open spec fn sum_compressed(bytes: Seq<u8>, key: Option<Seq<u8>>, n: int) -> u64
    decreases n,
{
    if n <= 0 {
        0u64
    } else {
        let rest = sum_compressed(bytes, key, n - 1);
        match entry_outcome(bytes, n - 1, key) {
            EntryOutcome::Read { compressed, .. } => u64_specs::wrapping_add(rest, compressed),
            _ => rest,
        }
    }
}

/// The uncompressed sizes of the entries among the first `n` that read
/// successfully, accumulated with wrapping 64-bit addition.
pub open spec fn sum_uncompressed(bytes: Seq<u8>, key: Option<Seq<u8>>, n: int) -> u64
    decreases n,
{
    if n <= 0 {
        0u64
    } else {
        let rest = sum_uncompressed(bytes, key, n - 1);
        match entry_outcome(bytes, n - 1, key) {
            EntryOutcome::Read { uncompressed, .. } => u64_specs::wrapping_add(rest, uncompressed),
            _ => rest,
        }
    }
}

/// What a successful inspection of `bytes` under `key`, read from `path`,
/// must report: every field is fixed by the inputs.
pub open spec fn summary_matches(
    bytes: Seq<u8>,
    key: Option<Seq<u8>>,
    path: Seq<char>,
    s: ArchiveSummary,
) -> bool {
    let n = zip_entry_count(bytes) as int;
    &&& base_name_of(path) matches Some(b) && s.metadata.name@ == b
    &&& s.entries@.map_values(|e: String| e@) == read_names(bytes, key, n)
    &&& s.is_encrypted == saw_locked(bytes, key, n)
    &&& s.metadata.compressed_size == sum_compressed(bytes, key, n)
    &&& s.metadata.uncompressed_size == sum_uncompressed(bytes, key, n)
    &&& s.metadata.file_count == read_names(bytes, key, n).len()
}

proof fn lemma_map_views_push(v: Seq<String>, x: String)
    ensures
        v.push(x).map_values(|e: String| e@) == v.map_values(|e: String| e@).push(x@),
{
    assert(v.push(x).map_values(|e: String| e@) =~= v.map_values(|e: String| e@).push(x@));
}

/// Inspect the archive held in `bytes`, read from `path`, trying
/// `password` uniformly against every entry that needs one.
///
/// Succeeds exactly when the bytes parse as a ZIP container and the path
/// has a base name; a locked or damaged entry is skipped, never fatal.
/// `ErrorKind::OpenFailed` is never produced here: it belongs to the
/// caller that reads the file.
pub fn inspect(bytes: &Vec<u8>, path: &str, password: Option<&[u8]>) -> (r: Result<
    ArchiveSummary,
    ErrorKind,
>)
    ensures
        r is Ok <==> (zip_parses(bytes@) && base_name_of(path@) is Some),
        r matches Ok(s) ==> summary_matches(bytes@, key_view(password), path@, s),
        r matches Err(e) ==> (e is ArchiveParseFailed <==> !zip_parses(bytes@)),
        r matches Err(e) ==> (e is InvalidPath <==> (zip_parses(bytes@) && base_name_of(
            path@,
        ) is None)),
        r matches Err(e) ==> !(e is OpenFailed),
{
    let ghost b = bytes@;
    let ghost k = key_view(password);
    let mut archive = match open_archive(bytes) {
        Ok(a) => a,
        Err(_) => {
            return Err(ErrorKind::ArchiveParseFailed);
        },
    };
    let n = archive_len(&archive);
    let mut entries: Vec<String> = Vec::new();
    let mut locked = false;
    let mut csum: u64 = 0;
    let mut usum: u64 = 0;
    let mut i: usize = 0;
    while i < n
        invariant
            archive_bytes(archive) == b,
            n == zip_entry_count(b),
            i <= n,
            k == key_view(password),
            entries@.map_values(|e: String| e@) == read_names(b, k, i as int),
            locked == saw_locked(b, k, i as int),
            csum == sum_compressed(b, k, i as int),
            usum == sum_uncompressed(b, k, i as int),
        decreases n - i,
    {
        let outcome = match password {
            Some(key) => read_entry_with_key(&mut archive, i, key),
            None => read_entry(&mut archive, i),
        };
        proof {
            assert(outcome@ == entry_outcome(b, i as int, k));
        }
        match outcome {
            EntryRead::Read(info) => {
                proof {
                    lemma_map_views_push(entries@, info.name);
                }
                csum = csum.wrapping_add(info.compressed_size);
                usum = usum.wrapping_add(info.uncompressed_size);
                entries.push(info.name);
            },
            EntryRead::Locked => {
                locked = true;
            },
            EntryRead::Skipped => {},
        }
        i = i + 1;
    }
    match base_name(path) {
        None => Err(ErrorKind::InvalidPath),
        Some(name) => {
            let file_count = entries.len();
            Ok(
                ArchiveSummary {
                    entries,
                    is_encrypted: locked,
                    metadata: ArchiveMetadata {
                        name,
                        uncompressed_size: usum,
                        compressed_size: csum,
                        file_count,
                    },
                },
            )
        },
    }
}

} // verus!
