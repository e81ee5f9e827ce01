use std::io::Write;

use zip::write::{SimpleFileOptions, ZipWriter};
use zip::CompressionMethod;

use zip_inspector::inspect::inspect;
use zip_inspector::summary::ErrorKind;

const PASSWORD: &str = "correct horse";

/// Build an in-memory ZIP archive. Each entry gives its name, its data and
/// whether it is AES-encrypted under PASSWORD. Plain entries are stored
/// uncompressed so their sizes are exactly predictable.
fn build_zip(entries: &[(&str, &[u8], bool)]) -> Vec<u8> {
    let mut writer = ZipWriter::new(std::io::Cursor::new(Vec::new()));
    for (name, data, encrypted) in entries {
        let base = SimpleFileOptions::default().compression_method(CompressionMethod::Stored);
        if *encrypted {
            let options = base.with_aes_encryption(zip::AesMode::Aes256, PASSWORD);
            writer.start_file(*name, options).unwrap();
        } else {
            writer.start_file(*name, base).unwrap();
        }
        writer.write_all(data).unwrap();
    }
    writer.finish().unwrap().into_inner()
}

#[test]
fn plain_archive_lists_every_entry() {
    let bytes = build_zip(&[
        ("a.txt", b"hello", false),
        ("dir/b.txt", b"world!!", false),
        ("c.bin", b"", false),
    ]);
    let summary = inspect(&bytes, "some/dir/arch.zip", None).unwrap();
    let names: Vec<&str> = summary.entries.iter().map(|s| s.as_str()).collect();
    assert_eq!(names, vec!["a.txt", "dir/b.txt", "c.bin"]);
    assert!(!summary.is_encrypted);
    assert_eq!(summary.metadata.name, "arch.zip");
    assert_eq!(summary.metadata.file_count, 3);
    assert_eq!(summary.metadata.uncompressed_size, 5 + 7);
    assert_eq!(summary.metadata.compressed_size, 5 + 7);
}

#[test]
fn empty_archive_succeeds_with_nothing() {
    let bytes = build_zip(&[]);
    let summary = inspect(&bytes, "empty.zip", None).unwrap();
    assert!(summary.entries.is_empty());
    assert!(!summary.is_encrypted);
    assert_eq!(summary.metadata.name, "empty.zip");
    assert_eq!(summary.metadata.file_count, 0);
    assert_eq!(summary.metadata.uncompressed_size, 0);
    assert_eq!(summary.metadata.compressed_size, 0);
}

#[test]
fn all_encrypted_without_password_still_succeeds() {
    let bytes = build_zip(&[("s1.txt", b"top", true), ("s2.txt", b"secret", true)]);
    let summary = inspect(&bytes, "locked.zip", None).unwrap();
    assert!(summary.entries.is_empty());
    assert!(summary.is_encrypted);
    assert_eq!(summary.metadata.file_count, 0);
    assert_eq!(summary.metadata.uncompressed_size, 0);
    assert_eq!(summary.metadata.compressed_size, 0);
}

#[test]
fn mixed_archive_reports_only_plain_entries() {
    let bytes = build_zip(&[
        ("open1.txt", b"aaaa", false),
        ("hidden1.txt", b"bbbbbb", true),
        ("open2.txt", b"cc", false),
        ("hidden2.txt", b"d", true),
    ]);
    let summary = inspect(&bytes, "mixed.zip", None).unwrap();
    let names: Vec<&str> = summary.entries.iter().map(|s| s.as_str()).collect();
    assert_eq!(names, vec!["open1.txt", "open2.txt"]);
    assert!(summary.is_encrypted);
    assert_eq!(summary.metadata.file_count, 2);
    assert_eq!(summary.metadata.uncompressed_size, 4 + 2);
    assert_eq!(summary.metadata.compressed_size, 4 + 2);
}

#[test]
fn correct_password_unlocks_every_entry() {
    let bytes = build_zip(&[("s1.txt", b"alpha", true), ("s2.txt", b"beta", true)]);
    let summary = inspect(&bytes, "locked.zip", Some(PASSWORD.as_bytes())).unwrap();
    let names: Vec<&str> = summary.entries.iter().map(|s| s.as_str()).collect();
    assert_eq!(names, vec!["s1.txt", "s2.txt"]);
    assert!(!summary.is_encrypted);
    assert_eq!(summary.metadata.file_count, 2);
    assert_eq!(summary.metadata.uncompressed_size, 5 + 4);
}

#[test]
fn wrong_password_behaves_like_no_password() {
    let bytes = build_zip(&[
        ("open.txt", b"plain", false),
        ("hidden.txt", b"secret", true),
    ]);
    let with_wrong = inspect(&bytes, "mixed.zip", Some(b"not the password")).unwrap();
    let with_none = inspect(&bytes, "mixed.zip", None).unwrap();
    assert_eq!(with_wrong, with_none);
    let names: Vec<&str> = with_wrong.entries.iter().map(|s| s.as_str()).collect();
    assert_eq!(names, vec!["open.txt"]);
    assert!(with_wrong.is_encrypted);
}

#[test]
fn deflated_entries_report_directory_sizes() {
    let mut writer = ZipWriter::new(std::io::Cursor::new(Vec::new()));
    let options = SimpleFileOptions::default().compression_method(CompressionMethod::Deflated);
    let data = [b'x'; 4096];
    writer.start_file("big.txt", options).unwrap();
    writer.write_all(&data).unwrap();
    let bytes = writer.finish().unwrap().into_inner();
    let summary = inspect(&bytes, "big.zip", None).unwrap();
    assert_eq!(summary.metadata.uncompressed_size, 4096);
    assert!(summary.metadata.compressed_size > 0);
    assert!(summary.metadata.compressed_size < 4096);
    // The reported figure is the central directory's own compressed size.
    let mut archive = zip::ZipArchive::new(std::io::Cursor::new(bytes.clone())).unwrap();
    let entry = archive.by_index(0).unwrap();
    assert_eq!(summary.metadata.compressed_size, entry.compressed_size());
}

#[test]
fn non_zip_bytes_fail_with_parse_error() {
    let result = inspect(&b"this is not an archive".to_vec(), "x.zip", None);
    assert_eq!(result, Err(ErrorKind::ArchiveParseFailed));
    let empty = inspect(&Vec::new(), "x.zip", None);
    assert_eq!(empty, Err(ErrorKind::ArchiveParseFailed));
}

#[test]
fn pathless_input_fails_with_invalid_path() {
    let bytes = build_zip(&[("a.txt", b"hi", false)]);
    assert_eq!(inspect(&bytes, "/", None), Err(ErrorKind::InvalidPath));
    assert_eq!(inspect(&bytes, "", None), Err(ErrorKind::InvalidPath));
    assert_eq!(inspect(&bytes, "dir/..", None), Err(ErrorKind::InvalidPath));
}

#[test]
fn parse_failure_wins_over_bad_path() {
    let result = inspect(&b"garbage".to_vec(), "/", None);
    assert_eq!(result, Err(ErrorKind::ArchiveParseFailed));
}

#[test]
fn repeated_calls_return_identical_summaries() {
    let bytes = build_zip(&[
        ("one.txt", b"11111", false),
        ("two.txt", b"22", true),
    ]);
    let first = inspect(&bytes, "a/b/arch.zip", Some(PASSWORD.as_bytes())).unwrap();
    let second = inspect(&bytes, "a/b/arch.zip", Some(PASSWORD.as_bytes())).unwrap();
    assert_eq!(first, second);
    let third = inspect(&bytes, "a/b/arch.zip", None).unwrap();
    let fourth = inspect(&bytes, "a/b/arch.zip", None).unwrap();
    assert_eq!(third, fourth);
    assert_ne!(first, third);
}
