use decmp::archive::{detect_format, ArchiveEntry, Format};
use decmp::tree::{DirNode, DirTree};

const ALL: [Format; 13] = [
  Format::Zip,
  Format::SevenZ,
  Format::Tar,
  Format::TarGz,
  Format::TarXz,
  Format::TarZst,
  Format::TarBz2,
  Format::TarLzma,
  Format::Gz,
  Format::Zst,
  Format::Xz,
  Format::Lzma,
  Format::Bz2,
];

fn entry(name: &str, size: u64, is_dir: bool) -> ArchiveEntry {
  ArchiveEntry {
    name: name.to_string(),
    size,
    compressed_size: size,
    is_dir,
    method: "store".to_string(),
    modified: None,
  }
}

fn shape(t: &DirTree) -> Vec<(String, Option<(u64, bool)>, Vec<String>)> {
  t.sorted_entries()
    .iter()
    .map(|(name, node)| match node {
      DirNode::File(e) => ((*name).clone(), Some((e.size, e.is_dir)), Vec::new()),
      DirNode::Dir(sub) => ((*name).clone(), None, sub.sorted_entries().iter().map(|p| p.0.clone()).collect()),
    })
    .collect()
}

#[test]
fn detection_depends_on_the_lower_case_file_name_only() {
  assert_eq!(detect_format("dir/Sub/BACKUP.TAR.GZ").ok(), detect_format("backup.tar.gz").ok());
  assert_eq!(detect_format("x/Photos.ZiP").ok(), Some(Format::Zip));
  assert!(detect_format("/tmp/README.TXT").is_err() && detect_format("readme.txt").is_err());
}

#[test]
fn every_extension_is_detected_back() {
  for f in ALL {
    assert_eq!(detect_format(&format!("Data.{}", f.extension())).ok(), Some(f));
    assert_eq!(detect_format(&format!("some/dir/data.{}", f.extension())).ok(), Some(f));
  }
}

#[test]
fn every_label_parses_back_in_any_case() {
  for f in ALL {
    assert_eq!(f.extension().parse::<Format>().ok(), Some(f));
    assert_eq!(f.to_string().parse::<Format>().ok(), Some(f));
    assert_eq!(f.extension().to_uppercase().parse::<Format>().ok(), Some(f));
  }
  assert_eq!("TGZ".parse::<Format>().ok(), "tgz".parse::<Format>().ok());
  assert!("rar".parse::<Format>().is_err());
}

#[test]
fn a_leading_dot_slash_builds_the_same_tree() {
  let plain = vec![entry("a/b.txt", 3, false), entry("a/c", 0, true), entry("d.txt", 5, false)];
  let dotted = vec![entry("./a/b.txt", 3, false), entry("./a/c", 0, true), entry("./d.txt", 5, false)];
  assert_eq!(shape(&DirTree::from_entries(&plain)), shape(&DirTree::from_entries(&dotted)));
}

#[test]
fn entries_with_empty_paths_are_skipped() {
  let base = vec![entry("a/b.txt", 3, false), entry("d.txt", 5, false)];
  for z in ["./", "/", ""] {
    for k in 0..=base.len() {
      let mut with = base.clone();
      with.insert(k, entry(z, 9, true));
      assert_eq!(shape(&DirTree::from_entries(&with)), shape(&DirTree::from_entries(&base)));
    }
  }
}
