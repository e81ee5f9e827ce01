//! General facts about the inspection model, proved once for every archive.

use vstd::prelude::*;
use crate::archive::{EntryOutcome, entry_outcome};
use crate::inspect::{read_names, saw_locked, sum_compressed, sum_uncompressed, summary_matches};
use crate::summary::ArchiveSummary;

verus! {

/// The exact, unbounded sum of the compressed sizes of the entries among
/// the first `n` that read successfully with `key`.
pub open spec fn total_compressed(bytes: Seq<u8>, key: Option<Seq<u8>>, n: int) -> int
    decreases n,
{
    if n <= 0 {
        0
    } else {
        total_compressed(bytes, key, n - 1) + match entry_outcome(bytes, n - 1, key) {
            EntryOutcome::Read { compressed, .. } => compressed as int,
            _ => 0,
        }
    }
}

/// The exact, unbounded sum of the uncompressed sizes of the entries among
/// the first `n` that read successfully with `key`.
pub open spec fn total_uncompressed(bytes: Seq<u8>, key: Option<Seq<u8>>, n: int) -> int
    decreases n,
{
    if n <= 0 {
        0
    } else {
        total_uncompressed(bytes, key, n - 1) + match entry_outcome(bytes, n - 1, key) {
            EntryOutcome::Read { uncompressed, .. } => uncompressed as int,
            _ => 0,
        }
    }
}

/// As long as the exact sum over the readable entries fits in 64 bits, the
/// wrapping accumulator that the summary reports equals it.
pub proof fn lemma_accumulators_exact(bytes: Seq<u8>, key: Option<Seq<u8>>, n: int)
    requires
        0 <= n,
    ensures
        0 <= total_compressed(bytes, key, n),
        0 <= total_uncompressed(bytes, key, n),
        total_compressed(bytes, key, n) <= u64::MAX ==> sum_compressed(bytes, key, n)
            == total_compressed(bytes, key, n),
        total_uncompressed(bytes, key, n) <= u64::MAX ==> sum_uncompressed(bytes, key, n)
            == total_uncompressed(bytes, key, n),
    decreases n,
{
    if n > 0 {
        lemma_accumulators_exact(bytes, key, n - 1);
    }
}

/// How many of the first `n` entries read successfully with `key`.
pub open spec fn read_count(bytes: Seq<u8>, key: Option<Seq<u8>>, n: int) -> int
    decreases n,
{
    if n <= 0 {
        0
    } else {
        read_count(bytes, key, n - 1) + if entry_outcome(bytes, n - 1, key) is Read {
            1int
        } else {
            0int
        }
    }
}

/// When every entry reads successfully, the summary lists them all and
/// reports no encryption: one name and one reported file per entry.
pub proof fn lemma_all_entries_read(bytes: Seq<u8>, key: Option<Seq<u8>>, n: int)
    requires
        0 <= n,
        forall|i: int| 0 <= i < n ==> entry_outcome(bytes, i, key) is Read,
    ensures
        read_names(bytes, key, n).len() == n,
        !saw_locked(bytes, key, n),
    decreases n,
{
    if n > 0 {
        lemma_all_entries_read(bytes, key, n - 1);
    }
}

/// When every entry is locked, the summary lists nothing, reports
/// encryption as soon as there is an entry at all, and both size
/// accumulators stay zero.
pub proof fn lemma_all_entries_locked(bytes: Seq<u8>, key: Option<Seq<u8>>, n: int)
    requires
        0 <= n,
        forall|i: int| 0 <= i < n ==> entry_outcome(bytes, i, key) is Locked,
    ensures
        read_names(bytes, key, n).len() == 0,
        saw_locked(bytes, key, n) <==> n > 0,
        sum_compressed(bytes, key, n) == 0,
        sum_uncompressed(bytes, key, n) == 0,
    decreases n,
{
    if n > 0 {
        lemma_all_entries_locked(bytes, key, n - 1);
    }
}

/// In a mixed archive the summary lists exactly the entries that read
/// successfully — one name per readable entry — and reports encryption
/// exactly when some entry is locked.  The size accumulators range over
/// those same readable entries by construction.
pub proof fn lemma_mixed_archive(bytes: Seq<u8>, key: Option<Seq<u8>>, n: int)
    requires
        0 <= n,
    ensures
        read_names(bytes, key, n).len() == read_count(bytes, key, n),
        saw_locked(bytes, key, n) <==> exists|i: int|
            0 <= i < n && entry_outcome(bytes, i, key) is Locked,
    decreases n,
{
    if n > 0 {
        lemma_mixed_archive(bytes, key, n - 1);
        if entry_outcome(bytes, n - 1, key) is Locked {
            assert(0 <= n - 1 < n && entry_outcome(bytes, n - 1, key) is Locked);
        }
    }
}

/// Two passwords under which every entry ends the same way — as a wrong
/// password does against entries that reject it, exactly like no password
/// at all — give summaries that agree in every part.
pub proof fn lemma_same_outcomes_same_summary(
    bytes: Seq<u8>,
    key1: Option<Seq<u8>>,
    key2: Option<Seq<u8>>,
    n: int,
)
    requires
        0 <= n,
        forall|i: int| 0 <= i < n ==> entry_outcome(bytes, i, key1) == entry_outcome(
            bytes,
            i,
            key2,
        ),
    ensures
        read_names(bytes, key1, n) == read_names(bytes, key2, n),
        saw_locked(bytes, key1, n) == saw_locked(bytes, key2, n),
        sum_compressed(bytes, key1, n) == sum_compressed(bytes, key2, n),
        sum_uncompressed(bytes, key1, n) == sum_uncompressed(bytes, key2, n),
    decreases n,
{
    if n > 0 {
        lemma_same_outcomes_same_summary(bytes, key1, key2, n - 1);
    }
}

/// The inspection result is a function of the archive bytes, the password
/// and the path: any two summaries that a successful inspection of the
/// same inputs can report agree in every observable part.
pub proof fn lemma_inspection_deterministic(
    bytes: Seq<u8>,
    key: Option<Seq<u8>>,
    path: Seq<char>,
    s1: ArchiveSummary,
    s2: ArchiveSummary,
)
    requires
        summary_matches(bytes, key, path, s1),
        summary_matches(bytes, key, path, s2),
    ensures
        s1.entries@.map_values(|e: String| e@) == s2.entries@.map_values(|e: String| e@),
        s1.is_encrypted == s2.is_encrypted,
        s1.metadata.name@ == s2.metadata.name@,
        s1.metadata.compressed_size == s2.metadata.compressed_size,
        s1.metadata.uncompressed_size == s2.metadata.uncompressed_size,
        s1.metadata.file_count == s2.metadata.file_count,
{
}

} // verus!
