use decmp::archive::ArchiveEntry;
use decmp::tree::{is_binary_content, DirNode, DirTree};

fn entry(name: &str, size: u64, is_dir: bool) -> ArchiveEntry {
  ArchiveEntry {
    name: name.to_string(),
    size,
    compressed_size: size / 2,
    is_dir,
    method: "deflate".to_string(),
    modified: None,
  }
}

#[test]
fn test_flat_entries() {
  let entries = vec![entry("a.txt", 100, false), entry("b.txt", 200, false)];
  let tree = DirTree::from_entries(&entries);
  assert_eq!(tree.children.len(), 2);
}

#[test]
fn test_nested_dirs() {
  let entries = vec![
    entry("src/", 0, true),
    entry("src/main.rs", 500, false),
    entry("src/lib.rs", 300, false),
    entry("src/utils/", 0, true),
    entry("src/utils/mod.rs", 100, false),
  ];
  let tree = DirTree::from_entries(&entries);
  assert_eq!(tree.children.len(), 1);

  let src = tree.children.get("src").unwrap();
  match src {
    DirNode::Dir(subtree) => {
      assert_eq!(subtree.children.len(), 3); // main.rs, lib.rs, utils
    }
    _ => panic!("expected dir"),
  }
}

#[test]
fn test_sorted_dirs_first() {
  let entries = vec![
    entry("zebra.txt", 100, false),
    entry("alpha/", 0, true),
    entry("beta.txt", 200, false),
  ];
  let tree = DirTree::from_entries(&entries);
  let sorted = tree.sorted_entries();
  assert_eq!(sorted.len(), 3);
  assert!(matches!(sorted[0].1, DirNode::Dir(_)));
  assert_eq!(sorted[0].0, "alpha");
}

#[test]
fn test_empty_tree() {
  let tree = DirTree::from_entries(&[]);
  assert!(tree.children.is_empty());
}

#[test]
fn test_root_files_and_dirs() {
  let entries = vec![
    entry("file.txt", 50, false),
    entry("dir/", 0, true),
    entry("dir/nested.txt", 30, false),
  ];
  let tree = DirTree::from_entries(&entries);
  let sorted = tree.sorted_entries();
  assert_eq!(sorted.len(), 2);
  assert_eq!(sorted[0].0, "dir");
  assert_eq!(sorted[1].0, "file.txt");
}

#[test]
fn test_strip_dot_slash_prefix() {
  let entries = vec![
    entry("./", 0, true),
    entry("./health.c", 100, false),
    entry("./server.go", 200, false),
    entry("./src/", 0, true),
    entry("./src/main.rs", 300, false),
  ];
  let tree = DirTree::from_entries(&entries);
  let sorted = tree.sorted_entries();
  // "./" is skipped; we get health.c, server.go, src/
  assert_eq!(sorted.len(), 3);
  assert_eq!(sorted[0].0, "src");
  assert_eq!(sorted[1].0, "health.c");
  assert_eq!(sorted[2].0, "server.go");
}

#[test]
fn test_is_binary_content() {
  assert!(!is_binary_content(b""));
  assert!(!is_binary_content(b"Hello, world!\nThis is text."));
  assert!(!is_binary_content(
    "fn main() {\n  println!(\"你好\");\n}\n".as_bytes()
  ));

  assert!(is_binary_content(b"text\0with\0nulls"));

  let binary = [0u8; 1024];
  assert!(is_binary_content(&binary));

  let mut jpeg_like = Vec::with_capacity(512);
  for i in 0..512 {
    jpeg_like.push((i * 73 + 17) as u8);
  }
  assert!(is_binary_content(&jpeg_like));
}

// Further cases of this library.

#[test]
fn later_file_replaces_directory_and_files_block_paths() {
  let entries = vec![
    entry("a/", 0, true),
    entry("a/x.txt", 1, false),
    entry("a", 5, false),
    entry("a/y.txt", 1, false),
  ];
  let tree = DirTree::from_entries(&entries);
  assert_eq!(tree.children.len(), 1);
  match tree.children.get("a").unwrap() {
    DirNode::File(e) => assert_eq!(e.size, 5),
    _ => panic!("expected the file"),
  }
}

#[test]
fn missing_parent_directories_are_made() {
  let entries = vec![entry("x/y/z.txt", 7, false), entry("x/", 0, true)];
  let tree = DirTree::from_entries(&entries);
  match tree.children.get("x").unwrap() {
    DirNode::Dir(x) => match x.children.get("y").unwrap() {
      DirNode::Dir(y) => assert_eq!(y.children.len(), 1),
      _ => panic!("expected y"),
    },
    _ => panic!("expected x"),
  }
}

#[test]
fn children_are_kept_in_byte_order() {
  let entries = vec![
    entry("b", 1, false),
    entry("B", 1, false),
    entry("é", 1, false),
    entry("a", 1, false),
    entry("ab", 1, false),
  ];
  let tree = DirTree::from_entries(&entries);
  let names: Vec<&String> = tree.sorted_entries().iter().map(|p| p.0).collect();
  assert_eq!(names, vec!["B", "a", "ab", "b", "é"]);
}

#[test]
fn binary_check_looks_at_the_first_8000_bytes() {
  let mut data = vec![b'a'; 8000];
  data.push(0);
  assert!(!is_binary_content(&data));
  let mut controls = vec![b'a'; 90];
  controls.extend_from_slice(&[1u8; 10]);
  assert!(!is_binary_content(&controls));
  controls.push(1);
  assert!(is_binary_content(&controls));
}

#[test]
fn the_last_entry_is_found_at_its_path() {
  let entries = vec![entry("docs/", 0, true), entry("docs/a/b.txt", 7, false)];
  let tree = DirTree::from_entries(&entries);
  let docs = match tree.children.get("docs").unwrap() {
    DirNode::Dir(d) => d,
    _ => panic!("expected a directory"),
  };
  let a = match docs.children.get("a").unwrap() {
    DirNode::Dir(d) => d,
    _ => panic!("expected a directory"),
  };
  match a.children.get("b.txt").unwrap() {
    DirNode::File(e) => assert_eq!(e.size, 7),
    _ => panic!("expected a file"),
  }
}
