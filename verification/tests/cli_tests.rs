use decmp::archive::rar::{dos_datetime, method_name};
use decmp::archive::sevenz::format_7z_time;
use decmp::archive::tar::format_mtime;
use decmp::archive::{gzip, require_sources, xz, ArchiveEntry, Format};
use decmp::cli::{create_banner, create_format, created_line, extract_banner, list_footer, list_header, list_line};
use decmp::error::DecmpError;
use decmp::path::path_join;

fn entry(name: &str, size: u64, compressed: u64, is_dir: bool) -> ArchiveEntry {
  ArchiveEntry {
    name: name.to_string(),
    size,
    compressed_size: compressed,
    is_dir,
    method: "deflate".to_string(),
    modified: None,
  }
}

#[test]
fn create_format_auto_detects_from_the_name() {
  assert_eq!(create_format("out/archive.tar.gz", "auto").unwrap(), Format::TarGz);
  assert_eq!(create_format("out/archive.zip", "auto").unwrap(), Format::Zip);
  assert_eq!(create_format("out/archive.zip", "TAR.XZ").unwrap(), Format::TarXz);
  assert_eq!(create_format("out/archive.bin", "7z").unwrap(), Format::SevenZ);
  match create_format("out/archive.zip", "rar") {
    Err(DecmpError::UnsupportedFormat(m)) => assert_eq!(m, "rar"),
    other => panic!("{:?}", other),
  }
  match create_format("out/archive.bin", "auto") {
    Err(DecmpError::UnsupportedFormat(m)) => assert_eq!(m, "bin"),
    other => panic!("{:?}", other),
  }
}

#[test]
fn listing_text() {
  let header = list_header("a.zip", Format::Zip);
  assert_eq!(header[0], "Archive: a.zip (format: zip)");
  assert_eq!(header[1], format!("{:<12} {:>12} {:>12} Name", "Type", "Compressed", "Size"));
  assert_eq!(header[2], "-".repeat(60));
  let entries = vec![entry("dir/", 0, 0, true), entry("dir/a.txt", 2048, 1024, false)];
  assert_eq!(list_line(&entries[1], false), "dir/a.txt");
  assert_eq!(list_line(&entries[1], true), format!("- {:>10} {:>10} dir/a.txt", 1024, 2048));
  let footer = list_footer(&entries);
  assert_eq!(footer[0], "-".repeat(60));
  assert_eq!(footer[1], "2 entries, 2.00 KB (1.00 KB compressed)");
}

#[test]
fn banners() {
  assert_eq!(extract_banner("a.7z", Format::SevenZ, "out"), "Extracting: a.7z (format: 7z) → out");
  assert_eq!(create_banner("b.tar.zst", Format::TarZst, 3), "Creating: b.tar.zst (format: tar.zst) from 3 source(s)");
  assert_eq!(created_line("b.tar.zst", 1536), "Created: b.tar.zst (1.50 KB)");
}

#[test]
fn joining_paths() {
  assert_eq!(path_join("/work", "a/b.txt"), "/work/a/b.txt");
  assert_eq!(path_join("/work/", "b.txt"), "/work/b.txt");
  assert_eq!(path_join("/work", "/abs"), "/abs");
  assert_eq!(path_join("", "x"), "x");
  assert_eq!(path_join("/work", ""), "/work/");
  for (base, name) in [("/a", "b"), ("/a/", "b/c"), ("rel", "x"), ("/w", "/z")] {
    let expected = std::path::PathBuf::from(base).join(name);
    assert_eq!(path_join(base, name), expected.to_str().unwrap());
  }
}

#[test]
fn test_tar_no_sources() {
  assert!(require_sources(0).is_err());
}

#[test]
fn test_zip_no_sources() {
  assert!(matches!(require_sources(0), Err(DecmpError::NoSources)));
}

#[test]
fn test_7z_no_sources() {
  assert!(require_sources(0).is_err());
  assert!(require_sources(1).is_ok());
}

#[test]
fn test_gzip_reject_multiple_sources() {
  assert!(gzip::check_sources(2, false).is_err());
  assert!(gzip::check_sources(1, true).is_err());
  assert!(gzip::check_sources(1, false).is_ok());
}

#[test]
fn test_xz_reject_multiple_sources() {
  assert!(xz::check_sources(2, false).is_err());
  assert!(xz::check_sources(1, false).is_ok());
}

#[test]
fn test_gzip_list() {
  let entries = gzip::list_entries("/tmp/t/data.txt.gz", 29);
  assert_eq!(entries.len(), 1);
  assert_eq!(entries[0].name, "data.txt");
  assert!(!entries[0].is_dir);
}

#[test]
fn test_xz_list() {
  let entries = xz::list_entries("/tmp/t/data.txt.xz", 60);
  assert_eq!(entries.len(), 1);
  assert_eq!(entries[0].name, "data.txt");
  assert_eq!(entries[0].method, "xz");
}

#[test]
fn test_xz_list_lzma_extension() {
  let entries = xz::list_entries("/tmp/t/data.txt.lzma", 60);
  assert_eq!(entries[0].method, "lzma");
}

#[test]
fn entry_times_and_methods() {
  // 2024-01-02 03:04:05 UTC in Windows ticks
  let unix: u64 = 1_704_164_645;
  let ticks = 116_444_736_000_000_000 + unix * 10_000_000;
  assert_eq!(format_7z_time(true, ticks).as_deref(), Some("2024-01-02 03:04"));
  assert_eq!(format_7z_time(false, ticks), None);
  assert_eq!(format_7z_time(true, 116_444_736_000_000_000), None);
  assert_eq!(format_mtime(unix).as_deref(), Some("2024-01-02 03:04"));
  assert_eq!(format_mtime(0).as_deref(), Some("1970-01-01 00:00"));
  assert_eq!(format_mtime(u64::MAX), None);
  assert_eq!(method_name(0x30), "stored");
  assert_eq!(dos_datetime(0), None);
}
