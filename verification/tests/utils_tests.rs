use decmp::utils::{file_stem, format_size, strip_archive_extension};

#[test]
fn test_format_size_bytes() {
  assert_eq!(format_size(0), "0 B");
  assert_eq!(format_size(512), "512 B");
  assert_eq!(format_size(1023), "1023 B");
}

#[test]
fn test_format_size_kb() {
  assert_eq!(format_size(1024), "1.00 KB");
  assert_eq!(format_size(1536), "1.50 KB");
}

#[test]
fn test_format_size_mb() {
  assert_eq!(format_size(1048576), "1.00 MB");
  assert_eq!(format_size(1048576 * 5), "5.00 MB");
}

#[test]
fn test_format_size_gb() {
  assert_eq!(format_size(1073741824), "1.00 GB");
}

#[test]
fn test_strip_archive_extension_tar_gz() {
  assert_eq!(strip_archive_extension("data.tar.gz"), "data");
}

#[test]
fn test_strip_archive_extension_tgz() {
  assert_eq!(strip_archive_extension("data.tgz"), "data");
}

#[test]
fn test_strip_archive_extension_tar_xz() {
  assert_eq!(strip_archive_extension("data.tar.xz"), "data");
}

#[test]
fn test_strip_archive_extension_tar_zst() {
  assert_eq!(strip_archive_extension("data.tar.zst"), "data");
}

#[test]
fn test_strip_archive_extension_tar_bz2() {
  assert_eq!(strip_archive_extension("data.tar.bz2"), "data");
}

#[test]
fn test_strip_archive_extension_plain() {
  assert_eq!(strip_archive_extension("data.zip"), "data.zip");
  assert_eq!(strip_archive_extension("data.txt.gz"), "data.txt");
  assert_eq!(strip_archive_extension("data.txt.zst"), "data.txt");
  assert_eq!(strip_archive_extension("data.txt.xz"), "data.txt");
  assert_eq!(strip_archive_extension("data.txt.bz2"), "data.txt");
  assert_eq!(strip_archive_extension("data.txt.lzma"), "data.txt");
}

#[test]
fn test_file_stem() {
  assert_eq!(file_stem("/path/to/file.txt"), Some("file".to_string()));
  assert_eq!(file_stem("/"), None);
}

// Further cases of this library.

fn float_reference(bytes: u64) -> String {
  const KB: u64 = 1024;
  const MB: u64 = KB * 1024;
  const GB: u64 = MB * 1024;
  if bytes >= GB {
    format!("{:.2} GB", bytes as f64 / GB as f64)
  } else if bytes >= MB {
    format!("{:.2} MB", bytes as f64 / MB as f64)
  } else if bytes >= KB {
    format!("{:.2} KB", bytes as f64 / KB as f64)
  } else {
    format!("{bytes} B")
  }
}

#[test]
fn format_size_matches_floating_point_rendering() {
  let mut cases: Vec<u64> = vec![
    1152, 1040, 1050, 1055, 5000, 99999, 1_047_552, 1_048_575, 1_073_741_823,
    (1 << 53) - 1, 1 << 53, (1 << 53) + 1, (1 << 53) + 3, (1 << 60) + 12345,
    u64::MAX, u64::MAX - 1, u64::MAX / 3,
  ];
  let mut x: u64 = 1;
  for _ in 0..2000 {
    x = x.wrapping_mul(6364136223846793005).wrapping_add(1442695040888963407);
    cases.push(x >> (x % 64));
    cases.push(1024 + (x % 4096));
  }
  for k in 0..64 {
    cases.push(1u64 << k);
    cases.push((1u64 << k).wrapping_add(128));
  }
  for b in cases {
    assert_eq!(format_size(b), float_reference(b), "bytes = {b}");
  }
}

#[test]
fn strip_archive_extension_edge_cases() {
  assert_eq!(strip_archive_extension("dir/x.TAR.GZ"), "x.TAR.GZ");
  assert_eq!(strip_archive_extension("x.tbz"), "x");
  assert_eq!(strip_archive_extension("/"), "");
  assert_eq!(strip_archive_extension("a/b/c.txt.gz"), "c.txt");
}

#[test]
fn file_stem_edge_cases() {
  assert_eq!(file_stem(".bashrc"), Some(".bashrc".to_string()));
  assert_eq!(file_stem("a.tar.gz"), Some("a.tar".to_string()));
  assert_eq!(file_stem("noext"), Some("noext".to_string()));
}
