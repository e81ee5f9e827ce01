//! The result of inspecting an archive, and the errors an inspection can end
//! with.

use vstd::prelude::*;
use vstd::string::StringExecFns;

verus! {

/// Aggregate figures over the entries that could be read.
#[derive(Debug, Clone, PartialEq, Eq)]
pub struct ArchiveMetadata {
    /// The archive's base file name: the final segment of the path it was
    /// read from.
    pub name: String,
    /// Sum of the decompressed sizes of the entries that were read, as a
    /// wrapping 64-bit accumulator.
    pub uncompressed_size: u64,
    /// Sum of the stored (compressed) sizes of the entries that were read,
    /// as a wrapping 64-bit accumulator.
    pub compressed_size: u64,
    /// How many entries were read successfully.
    pub file_count: usize,
}

/// What an inspection returns: the readable entry names in directory order,
/// whether any entry could not be read for want of the right password, and
/// the aggregate metadata.
#[derive(Debug, Clone, PartialEq, Eq)]
pub struct ArchiveSummary {
    /// Names of the entries that were read, in central-directory order;
    /// duplicates are kept.
    pub entries: Vec<String>,
    /// True when at least one entry was skipped because it needs a password
    /// that was missing or wrong.
    pub is_encrypted: bool,
    /// Aggregate figures over the entries that were read.
    pub metadata: ArchiveMetadata,
}

/// Why an inspection failed as a whole.  Trouble with a single entry never
/// produces one of these: a bad entry is skipped and the summary reports a
/// partial result.
#[derive(Debug, Clone, PartialEq, Eq)]
pub enum ErrorKind {
    /// The archive file could not be opened or read; carries the underlying
    /// I/O message.
    OpenFailed(String),
    /// The bytes are not a ZIP container, or its central directory is
    /// corrupt.
    ArchiveParseFailed,
    /// The path has no extractable file-name component.
    InvalidPath,
}

impl ErrorKind {
    /// Flatten the error to a human-readable message.
    pub fn describe(&self) -> (r: String)
        ensures
            self matches ErrorKind::OpenFailed(m) ==> r@ == "Failed to open ZIP file: "@ + m@,
            self is ArchiveParseFailed ==> r@ == "Error reading ZIP archive"@,
            self is InvalidPath ==> r@ == "Invalid file path"@,
    {
        match self {
            ErrorKind::OpenFailed(m) => String::from_str("Failed to open ZIP file: ").concat(
                m.as_str(),
            ),
            ErrorKind::ArchiveParseFailed => String::from_str("Error reading ZIP archive"),
            ErrorKind::InvalidPath => String::from_str("Invalid file path"),
        }
    }
}

} // verus!
