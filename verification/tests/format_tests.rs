use decmp::error::DecmpError;
use decmp::archive::{detect_format, ArchiveEntry, Format};

#[test]
fn test_detect_format_zip() {
  assert_eq!(detect_format("test.zip").unwrap(), Format::Zip);
}

#[test]
fn test_detect_format_tar_gz() {
  assert_eq!(detect_format("archive.tar.gz").unwrap(), Format::TarGz);
}

#[test]
fn test_detect_format_tgz() {
  assert_eq!(detect_format("archive.tgz").unwrap(), Format::TarGz);
}

#[test]
fn test_detect_format_tar_xz() {
  assert_eq!(detect_format("archive.tar.xz").unwrap(), Format::TarXz);
}

#[test]
fn test_detect_format_tar_zst() {
  assert_eq!(detect_format("archive.tar.zst").unwrap(), Format::TarZst);
}

#[test]
fn test_detect_format_tar_bz2() {
  assert_eq!(detect_format("archive.tar.bz2").unwrap(), Format::TarBz2);
}

#[test]
fn test_detect_format_tar_lzma() {
  assert_eq!(detect_format("archive.tar.lzma").unwrap(), Format::TarLzma);
}

#[test]
fn test_detect_format_7z() {
  assert_eq!(detect_format("test.7z").unwrap(), Format::SevenZ);
}

#[test]
fn test_detect_format_single_gz() {
  assert_eq!(detect_format("file.txt.gz").unwrap(), Format::Gz);
}

#[test]
fn test_detect_format_single_zst() {
  assert_eq!(detect_format("file.zst").unwrap(), Format::Zst);
}

#[test]
fn test_detect_format_unsupported() {
  assert!(detect_format("file.xyz").is_err());
}

#[test]
fn test_detect_format_no_extension() {
  assert!(detect_format("noext").is_err());
}

#[test]
fn test_format_from_str() {
  assert_eq!("zip".parse::<Format>().unwrap(), Format::Zip);
  assert_eq!("tgz".parse::<Format>().unwrap(), Format::TarGz);
  assert_eq!("tar.gz".parse::<Format>().unwrap(), Format::TarGz);
  assert_eq!("7z".parse::<Format>().unwrap(), Format::SevenZ);
  assert!("rar".parse::<Format>().is_err());
}

#[test]
fn test_format_display() {
  assert_eq!(Format::Zip.to_string(), "zip");
  assert_eq!(Format::TarGz.to_string(), "tar.gz");
}

#[test]
fn test_format_extension() {
  assert_eq!(Format::Zip.extension(), "zip");
  assert_eq!(Format::SevenZ.extension(), "7z");
  assert_eq!(Format::TarGz.extension(), "tar.gz");
}

#[test]
fn test_archive_entry_display() {
  let entry = ArchiveEntry {
    name: "test.txt".to_string(),
    size: 1024,
    compressed_size: 512,
    is_dir: false,
    method: "deflate".to_string(),
    modified: None,
  };
  let s = entry.to_string();
  assert!(s.contains("test.txt"));
  assert!(s.contains("512"));
  assert!(s.contains("1024"));
}

#[test]
fn test_archive_entry_display_dir() {
  let entry = ArchiveEntry {
    name: "mydir/".to_string(),
    size: 0,
    compressed_size: 0,
    is_dir: true,
    method: "stored".to_string(),
    modified: None,
  };
  let s = entry.to_string();
  assert!(s.starts_with('d'));
}

// Further cases of this library.

const ALL_FORMATS: [Format; 13] = [
  Format::Zip,
  Format::SevenZ,
  Format::Tar,
  Format::TarGz,
  Format::TarXz,
  Format::TarZst,
  Format::TarBz2,
  Format::TarLzma,
  Format::Gz,
  Format::Zst,
  Format::Xz,
  Format::Lzma,
  Format::Bz2,
];

#[test]
fn extension_parses_back_to_its_format() {
  for f in ALL_FORMATS {
    assert_eq!(Format::parse(f.extension()).unwrap(), f);
    assert_eq!(f.to_string().to_uppercase().parse::<Format>().unwrap(), f);
  }
}

#[test]
fn file_named_with_extension_is_detected_as_that_format() {
  for f in ALL_FORMATS {
    let name = format!("archive.{}", f.extension());
    assert_eq!(detect_format(&name).unwrap(), f);
    let upper = format!("dir/ARCHIVE.{}", f.extension().to_uppercase());
    assert_eq!(detect_format(&upper).unwrap(), f);
  }
}

#[test]
fn format_aliases_parse() {
  assert_eq!("TXZ".parse::<Format>().unwrap(), Format::TarXz);
  assert_eq!("tar.zstd".parse::<Format>().unwrap(), Format::TarZst);
  assert_eq!("tbz".parse::<Format>().unwrap(), Format::TarBz2);
  assert_eq!("gzip".parse::<Format>().unwrap(), Format::Gz);
  assert_eq!("bzip2".parse::<Format>().unwrap(), Format::Bz2);
  match "Rar".parse::<Format>() {
    Err(DecmpError::UnsupportedFormat(m)) => assert_eq!(m, "Rar"),
    other => panic!("unexpected {other:?}"),
  }
}

#[test]
fn detect_format_error_details() {
  match detect_format("file.XYZ") {
    Err(DecmpError::UnsupportedFormat(m)) => assert_eq!(m, "xyz"),
    other => panic!("unexpected {other:?}"),
  }
  match detect_format("noext") {
    Err(DecmpError::UnsupportedFormat(m)) => assert_eq!(m, "no file extension"),
    other => panic!("unexpected {other:?}"),
  }
  match detect_format("/") {
    Err(DecmpError::UnsupportedFormat(m)) => assert_eq!(m, "empty filename"),
    other => panic!("unexpected {other:?}"),
  }
  assert_eq!(detect_format("a/b/c.TBZ2").unwrap(), Format::TarBz2);
  assert!(detect_format(".gz").is_err());
}

#[test]
fn archive_entry_listing_line_is_exact() {
  let entry = ArchiveEntry {
    name: "a.txt".to_string(),
    size: 1024,
    compressed_size: 512,
    is_dir: false,
    method: "deflate".to_string(),
    modified: None,
  };
  assert_eq!(entry.to_string(), "-        512       1024 a.txt");
  assert_eq!(entry.to_string(), format!("{} {:>10} {:>10} {}", "-", 512, 1024, "a.txt"));
}

#[test]
fn error_messages() {

  assert_eq!(DecmpError::NoSources.message(), "no source files specified");
  assert_eq!(
    DecmpError::UnsupportedFormat("xyz".to_string()).message(),
    "unsupported archive format: xyz"
  );
  assert!(DecmpError::WrongPassword.is_password_error());
  assert!(!DecmpError::NoSources.is_password_error());
}
