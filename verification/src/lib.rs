//! Read-only inspection of ZIP archives.
//!
//! The library takes the raw bytes of an archive, walks every entry of its
//! central directory, and returns a summary: the names of the entries that
//! could be read, whether any entry was held back by a password, and the
//! accumulated compressed and uncompressed sizes.  Reading the archive file
//! itself and presenting the summary are left to the caller.

pub mod archive;
pub mod bridge;
pub mod inspect;
pub mod laws;
pub mod path_name;
pub mod summary;
