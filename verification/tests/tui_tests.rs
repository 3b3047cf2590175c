use decmp::archive::{detect_format, ArchiveEntry, Format};
use decmp::tui::layout::{centered_rect, LayoutNode};
use decmp::tree::DirTree;
use decmp::tui::action::{Action, PopupType};
use decmp::tui::app::{App, ExtractOutcome, ListPurpose, Request};
use decmp::tui::context::{Mode, PendingAction, SidePreview};
use decmp::tui::file_list::{clip_str, format_size, FileListTile};
use decmp::tui::input::{in_area, Area, InputEvent, KeyCode, KeyEvent, MouseEvent, MouseKind};
use decmp::tui::loader::{decode_preview_bytes, normalize_entry_names, prepare_preview, split_lines};
use decmp::tui::popups::{ActivePopup, EncodingPopup, ExtractDestPopup, HelpPopup, PasswordPopup};
use decmp::tui::preview::{PreviewBody, PreviewTile};
use decmp::tui::properties::PropertiesTile;
use decmp::tui::scroll::ScrollState;
use decmp::tui::status_bar::StatusBarTile;
use decmp::tui::tile::TileId;
use decmp::error::DecmpError;

fn entry(name: &str, size: u64, is_dir: bool) -> ArchiveEntry {
  ArchiveEntry {
    name: name.to_string(),
    size,
    compressed_size: size / 2,
    is_dir,
    method: "deflate".to_string(),
    modified: None,
  }
}

fn sample_entries() -> Vec<ArchiveEntry> {
  vec![
    entry("docs/", 0, true),
    entry("docs/guide.md", 2048, false),
    entry("src/", 0, true),
    entry("src/main.rs", 500, false),
    entry("README.md", 100, false),
  ]
}

fn key(code: KeyCode) -> KeyEvent {
  KeyEvent { code, plain: true }
}

fn selection_name(a: &Action) -> (String, bool, String) {
  match a {
    Action::SelectionChanged { name, is_dir, full_name, .. } => (name.clone(), *is_dir, full_name.clone()),
    other => panic!("not a selection change: {:?}", other),
  }
}

#[test]
fn file_list_moves_and_clamps() {
  let tree = DirTree::from_entries(&sample_entries());
  let mut tile = FileListTile::new();
  // dirs first: docs, src, then README.md
  let r = tile.handle_key(KeyCode::Down, &tree);
  assert_eq!(tile.selected, Some(0));
  assert_eq!(selection_name(&r[0]), ("docs".to_string(), true, "docs".to_string()));
  tile.handle_key(KeyCode::Char('j'), &tree);
  tile.handle_key(KeyCode::Down, &tree);
  tile.handle_key(KeyCode::Down, &tree);
  assert_eq!(tile.selected, Some(2));
  tile.handle_key(KeyCode::Up, &tree);
  assert_eq!(tile.selected, Some(1));
  tile.handle_key(KeyCode::PageUp, &tree);
  assert_eq!(tile.selected, Some(0));
  tile.handle_key(KeyCode::PageDown, &tree);
  assert_eq!(tile.selected, Some(2));
}

#[test]
fn moving_up_with_nothing_selected_selects_the_last_line() {
  let tree = DirTree::from_entries(&sample_entries());
  let mut tile = FileListTile::new();
  tile.handle_key(KeyCode::Char('k'), &tree);
  assert_eq!(tile.selected, Some(2));
}

#[test]
fn entering_a_directory_and_going_up() {
  let tree = DirTree::from_entries(&sample_entries());
  let mut tile = FileListTile::new();
  tile.handle_key(KeyCode::Down, &tree);
  let r = tile.handle_key(KeyCode::Enter, &tree);
  assert_eq!(tile.current_path, vec!["docs".to_string()]);
  assert_eq!(tile.selected, None);
  assert_eq!(selection_name(&r[0]), (String::new(), false, String::new()));
  let listing = tile.display_entries(&tree);
  assert_eq!(listing.len(), 2);
  assert_eq!(listing[0].0, "..");
  assert_eq!(listing[1].0, "guide.md");
  // select the file and ask for its preview
  tile.handle_key(KeyCode::Down, &tree);
  tile.handle_key(KeyCode::Down, &tree);
  let r = tile.handle_key(KeyCode::Enter, &tree);
  match &r[0] {
    Action::RequestPreviewLoad { full_name } => assert_eq!(full_name, "docs/guide.md"),
    other => panic!("{:?}", other),
  }
  // Backspace clears the selection first, then goes up
  tile.handle_key(KeyCode::Backspace, &tree);
  assert_eq!(tile.selected, None);
  assert_eq!(tile.current_path.len(), 1);
  tile.handle_key(KeyCode::Backspace, &tree);
  assert_eq!(tile.current_path.len(), 0);
  // at the root with nothing selected, Esc quits
  let r = tile.handle_key(KeyCode::Esc, &tree);
  assert!(matches!(r[0], Action::Quit));
}

#[test]
fn extract_key_only_for_files() {
  let tree = DirTree::from_entries(&sample_entries());
  let mut tile = FileListTile::new();
  tile.handle_key(KeyCode::Down, &tree);
  assert!(tile.handle_key(KeyCode::Char('e'), &tree).is_empty());
  tile.handle_key(KeyCode::Char('k'), &tree);
  tile.handle_key(KeyCode::Char('j'), &tree);
  tile.handle_key(KeyCode::Char('j'), &tree);
  tile.handle_key(KeyCode::Char('j'), &tree);
  let r = tile.handle_key(KeyCode::Char('e'), &tree);
  match &r[0] {
    Action::StartExtract { full_name } => assert_eq!(full_name, "README.md"),
    other => panic!("{:?}", other),
  }
  assert!(matches!(tile.handle_key(KeyCode::Char('E'), &tree)[0], Action::StartExtractAll));
  assert!(matches!(tile.handle_key(KeyCode::Char('o'), &tree)[0], Action::RequestEncodingInput));
}

#[test]
fn horizontal_scroll_saturates() {
  let tree = DirTree::from_entries(&sample_entries());
  let mut tile = FileListTile::new();
  tile.handle_key(KeyCode::Left, &tree);
  assert_eq!(tile.horizontal_scroll, 0);
  tile.handle_key(KeyCode::Right, &tree);
  tile.handle_key(KeyCode::Right, &tree);
  assert_eq!(tile.horizontal_scroll, 8);
  tile.handle_key(KeyCode::Left, &tree);
  assert_eq!(tile.horizontal_scroll, 4);
}

#[test]
fn clicks_select_then_enter() {
  let tree = DirTree::from_entries(&sample_entries());
  let mut tile = FileListTile::new();
  tile.area = Area { x: 0, y: 0, width: 40, height: 10 };
  let click = |row: u16| MouseEvent { kind: MouseKind::LeftDown, column: 5, row };
  let r = tile.handle_mouse(click(2), &tree);
  assert_eq!(tile.selected, Some(1));
  assert_eq!(selection_name(&r[0]).0, "src");
  tile.handle_mouse(click(2), &tree);
  assert_eq!(tile.current_path, vec!["src".to_string()]);
  // the first line is now `..`: a click on it goes up
  tile.handle_mouse(click(1), &tree);
  assert!(tile.current_path.is_empty());
  // outside the area nothing happens
  assert!(tile.handle_mouse(MouseEvent { kind: MouseKind::LeftDown, column: 50, row: 2 }, &tree).is_empty());
  // the wheel moves the selection
  tile.handle_mouse(MouseEvent { kind: MouseKind::ScrollDown, column: 0, row: 0 }, &tree);
  assert_eq!(tile.selected, Some(0));
}

#[test]
fn rows_and_title() {
  let mut entries = sample_entries();
  entries[4].modified = Some("2024-01-02 03:04".to_string());
  let tree = DirTree::from_entries(&entries);
  let mut tile = FileListTile::new();
  let rows = tile.rows(&tree);
  assert_eq!(rows[0], "  docs/");
  assert_eq!(
    rows[2],
    format!("  {:<35}{:>10}  {:<17} {}   ", "README.md", "100B", "2024-01-02 03:04", "deflate")
  );
  tile.horizontal_scroll = 4;
  assert_eq!(tile.rows(&tree)[0], "cs/");
  assert_eq!(tile.title("/tmp/x/archive.zip"), " archive.zip ");
  tile.handle_key(KeyCode::Down, &tree);
  tile.handle_key(KeyCode::Enter, &tree);
  assert_eq!(tile.title("archive.zip"), " archive.zip docs/");
}

#[test]
fn short_sizes_and_clipping() {
  assert_eq!(format_size(512), "512B");
  assert_eq!(format_size(1536), "1.5K");
  assert_eq!(format_size(3 * 1024 * 1024), "3.0M");
  assert_eq!(format_size(5 * 1024 * 1024 * 1024), "5.0G");
  assert_eq!(clip_str("hello", 0), "hello");
  assert_eq!(clip_str("hello", 2), "llo");
  assert_eq!(clip_str("hello", 9), "");
}

#[test]
fn in_area_edges() {
  let a = Area { x: 2, y: 3, width: 4, height: 2 };
  assert!(in_area(2, 3, a));
  assert!(in_area(5, 4, a));
  assert!(!in_area(6, 4, a));
  assert!(!in_area(5, 5, a));
  assert!(!in_area(1, 3, a));
}

#[test]
fn preview_cache_shows_a_loaded_preview_again() {
  let mut tile = PreviewTile::new();
  let loaded = SidePreview::file("a.txt", vec!["one".to_string(), "two".to_string()], Vec::new(), false, None);
  tile.handle_preview_loaded("dir/a.txt".to_string(), loaded);
  assert_eq!(tile.content.lines.len(), 2);
  tile.handle_selection_changed("b.txt", false, "dir/b.txt", None);
  assert_eq!(tile.content.name, "b.txt");
  assert!(tile.content.lines.is_empty());
  tile.handle_selection_changed("a.txt", false, "dir/a.txt", None);
  assert_eq!(tile.content.lines, vec!["one".to_string(), "two".to_string()]);
  let listing = vec!["x/".to_string()];
  tile.handle_selection_changed("dir", true, "dir", Some(&listing));
  assert!(tile.content.is_dir);
  assert_eq!(tile.content.dir_entries, listing);
  tile.handle_selection_changed("..", true, "", None);
  assert!(tile.content.name.is_empty());
  tile.clear_cache();
  tile.handle_selection_changed("a.txt", false, "dir/a.txt", None);
  assert!(tile.content.lines.is_empty());
}

#[test]
fn preview_scrolls_within_its_text() {
  let mut tile = PreviewTile::new();
  let lines: Vec<String> = (0..30).map(|i| format!("line {i}")).collect();
  tile.handle_preview_loaded("f".to_string(), SidePreview::file("f", lines, Vec::new(), true, None));
  let body = tile.layout(10);
  assert_eq!(body, PreviewBody::Text { start: 0, end: 10, truncated: true, scrollbar: Some(20) });
  tile.handle_input(InputEvent::Key(key(KeyCode::PageDown)));
  assert_eq!(tile.scroll.v_scroll, 20);
  tile.handle_input(InputEvent::Key(key(KeyCode::Down)));
  assert_eq!(tile.scroll.v_scroll, 20);
  tile.handle_input(InputEvent::Key(key(KeyCode::Char('k'))));
  assert_eq!(tile.scroll.v_scroll, 19);
  assert_eq!(tile.layout(25), PreviewBody::Text { start: 5, end: 30, truncated: true, scrollbar: Some(5) });
  assert_eq!(tile.title(), " f ");
  assert!(tile.focusable());
}

#[test]
fn preview_bodies_and_titles() {
  let mut tile = PreviewTile::new();
  assert_eq!(tile.layout(5), PreviewBody::Prompt);
  assert_eq!(tile.title(), " Preview ");
  assert_eq!(PreviewBody::Prompt.message(), "  Select a file to preview");
  tile.content = SidePreview::binary("x.bin");
  assert_eq!(tile.layout(5), PreviewBody::Binary);
  tile.content = SidePreview::empty_with_name("y.txt");
  assert_eq!(tile.layout(5), PreviewBody::NotLoaded);
  assert!(!tile.focusable());
  tile.content = SidePreview::file("z.txt", vec!["a".to_string()], Vec::new(), false, Some("gbk".to_string()));
  assert_eq!(tile.title(), " z.txt [gbk] ");
}

#[test]
fn scroll_state_pages() {
  let mut s = ScrollState::new();
  s.last_viewport = 5;
  s.scroll_page_down(100);
  assert_eq!(s.v_scroll, 20);
  s.scroll_page_down(30);
  assert_eq!(s.v_scroll, 25);
  s.scroll_page_up();
  assert_eq!(s.v_scroll, 5);
  s.scroll_up();
  assert_eq!(s.v_scroll, 4);
  assert_eq!(s.fit_viewport(6, 4), Some(2));
  assert_eq!(s.v_scroll, 2);
  assert_eq!(s.fit_viewport(3, 4), None);
  s.scroll_right();
  s.scroll_left();
  s.scroll_left();
  assert_eq!(s.h_scroll, 0);
  s.reset();
  assert_eq!(s, ScrollState::new());
}

#[test]
fn properties_follow_the_selection() {
  let entries = sample_entries();
  let mut tile = PropertiesTile::new();
  tile.scroll = 3;
  let sel = Action::SelectionChanged {
    name: "main.rs".to_string(),
    is_dir: false,
    full_name: "src/main.rs".to_string(),
    dir_entries: None,
  };
  tile.handle_action(&sel, &entries);
  assert_eq!(tile.scroll, 0);
  assert_eq!(tile.selected_entry.as_ref().unwrap().size, 500);
  let lines = tile.lines(&entries, "/x/a.zip");
  assert_eq!(lines[0], ("Name:   ".to_string(), "src/main.rs".to_string()));
  assert_eq!(lines[1].1, "500B");
  assert_eq!(lines[4].1, "File");
  assert_eq!(lines[5].1, "-");
  let dir = Action::SelectionChanged { name: "src".to_string(), is_dir: true, full_name: "src".to_string(), dir_entries: None };
  tile.handle_action(&dir, &entries);
  assert!(tile.selected_entry.is_none());
  let summary = tile.lines(&entries, "/x/a.zip");
  assert_eq!(summary[0].1, "a.zip");
  assert_eq!(summary[1].1, "5");
  assert_eq!(summary[2].1, "3");
  assert_eq!(summary[3].1, "2");
  assert_eq!(summary[4].1, "2.6K");
  for _ in 0..10 {
    tile.handle_input(InputEvent::Key(key(KeyCode::Down)));
  }
  assert_eq!(tile.scroll, 5);
  assert_eq!(tile.visible_range(3), (5, 6));
  tile.handle_input(InputEvent::Key(key(KeyCode::PageUp)));
  assert_eq!(tile.scroll, 0);
  assert_eq!(tile.visible_range(3), (0, 3));
}

#[test]
fn password_prompt_keys() {
  let mut p = PasswordPopup::new();
  p.handle_key(KeyCode::Char('a'), false);
  p.handle_key(KeyCode::Char('b'), false);
  p.handle_key(KeyCode::Backspace, false);
  p.handle_key(KeyCode::Char('c'), false);
  assert_eq!(p.masked(10), "**");
  let r = p.handle_key(KeyCode::Enter, false);
  match &r[0] {
    Action::PasswordSubmitted(pw) => assert_eq!(pw, "ac"),
    other => panic!("{:?}", other),
  }
  assert!(p.input.is_empty());
  assert_eq!(p.masked(10), " ");
  assert!(matches!(p.handle_key(KeyCode::Esc, true)[0], Action::Quit));
  assert!(matches!(p.handle_key(KeyCode::Char('q'), false)[0], Action::ClosePopup));
  p.input = "abcdefgh".to_string();
  assert_eq!(p.masked(6), "<****");
}

#[test]
fn destination_and_encoding_prompts() {
  let mut d = ExtractDestPopup::new("/home/u/out");
  d.handle_key(KeyCode::Backspace);
  d.handle_key(KeyCode::Char('2'));
  let r = d.handle_key(KeyCode::Enter);
  match &r[0] {
    Action::ConfirmExtract { dest } => assert_eq!(dest, "/home/u/ou2"),
    other => panic!("{:?}", other),
  }
  assert!(d.input.is_empty());
  let mut e = EncodingPopup::new(Some("gbk"));
  assert_eq!(e.hint(Some("gbk")), "Current: gbk\nInput (e.g. gbk, shift_jis, utf-8):\n> gbk");
  e.handle_key(KeyCode::Char(' '));
  match &e.handle_key(KeyCode::Enter)[0] {
    Action::RequestEncodingReload(enc) => assert_eq!(enc, "gbk"),
    other => panic!("{:?}", other),
  }
  let e2 = EncodingPopup::new(None);
  assert_eq!(e2.hint(None), "Current: auto\nInput (e.g. gbk, shift_jis, utf-8):\n> ");
}

#[test]
fn help_popup_scrolls_and_closes() {
  let mut h = HelpPopup::new();
  h.handle_input(InputEvent::Mouse(MouseEvent { kind: MouseKind::ScrollDown, column: 0, row: 0 }));
  assert_eq!(h.scroll, 3);
  h.handle_input(InputEvent::Key(key(KeyCode::Up)));
  assert_eq!(h.scroll, 2);
  assert!(matches!(h.handle_input(InputEvent::Key(key(KeyCode::Char('?'))))[0], Action::ClosePopup));
  let lines = HelpPopup::lines();
  assert_eq!(lines.len(), 32);
  assert_eq!(lines[1], (" Navigation", true));
  h.scroll = 100;
  assert_eq!(h.window(lines.len(), 10), (31, 32));
}

#[test]
fn status_bar_text() {
  let s = StatusBarTile::new();
  assert!(!s.focusable());
  assert_eq!(s.text(Some("done")), ("done".to_string(), true));
  assert!(s.text(None).0.starts_with("[Enter]Open/Preview"));
}

#[test]
fn decoding_previews() {
  assert_eq!(decode_preview_bytes(b""), (String::new(), None));
  assert_eq!(decode_preview_bytes("héllo".as_bytes()), ("héllo".to_string(), None));
  // "中文" in GBK
  let (text, enc) = decode_preview_bytes(&[0xD6, 0xD0, 0xCE, 0xC4]);
  assert_eq!(text, "中文");
  assert_eq!(enc, Some("gbk".to_string()));
}

#[test]
fn lines_split_like_str_lines() {
  for s in ["", "a", "a\n", "a\r\nb", "a\n\nb\n", "x\r", "\n"] {
    let expected: Vec<String> = s.lines().map(String::from).collect();
    assert_eq!(split_lines(s), expected, "{:?}", s);
  }
}

#[test]
fn preparing_previews() {
  let (p, text) = prepare_preview("dir/notes.txt", b"first\nsecond\n");
  assert_eq!(p.name, "notes.txt");
  assert_eq!(p.lines, vec!["first".to_string(), "second".to_string()]);
  assert_eq!(text, "first\nsecond\n");
  assert!(!p.is_truncated && !p.is_binary);
  let (b, text) = prepare_preview("dir/x.bin", &[0u8, 1, 2, 3]);
  assert!(b.is_binary);
  assert_eq!(b.name, "dir/x.bin");
  assert!(text.is_empty());
  let long = "x".repeat(40000);
  let (t, text) = prepare_preview("big.txt", long.as_bytes());
  assert!(t.is_truncated);
  assert_eq!(text.chars().count(), 32768);
}

#[test]
fn entry_names_lose_a_leading_dot_slash() {
  let mut entries = vec![entry("./a.txt", 1, false), entry("b/./c", 2, false), entry("././d", 3, false)];
  normalize_entry_names(&mut entries);
  assert_eq!(entries[0].name, "a.txt");
  assert_eq!(entries[1].name, "b/./c");
  assert_eq!(entries[2].name, "./d");
  assert_eq!(entries[2].size, 3);
}

fn areas() -> Vec<(TileId, Area)> {
  vec![
    (TileId::FileList, Area { x: 0, y: 0, width: 40, height: 20 }),
    (TileId::Properties, Area { x: 40, y: 0, width: 40, height: 6 }),
    (TileId::Preview, Area { x: 40, y: 6, width: 40, height: 14 }),
    (TileId::StatusBar, Area { x: 0, y: 20, width: 80, height: 1 }),
  ]
}

fn run(app: &mut App, actions: Vec<Action>) -> Vec<Request> {
  let mut requests = Vec::new();
  for a in actions {
    if let Some(r) = app.process_action(a) {
      requests.push(r);
    }
  }
  requests
}

#[test]
fn app_starts_browsing_with_normalized_names() {
  let app = App::new(vec![entry("./a.txt", 1, false)], "/work".to_string());
  assert_eq!(app.ctx.entries[0].name, "a.txt");
  assert_eq!(app.ctx.mode, Mode::Browse);
  assert_eq!(app.ctx.focus, TileId::FileList);
  let locked = App::new_password_required("/work".to_string());
  assert_eq!(locked.ctx.mode, Mode::Password);
  assert_eq!(locked.ctx.pending_action, Some(PendingAction::InitialLoad));
  assert_eq!(locked.ctx.status_msg.as_deref(), Some("Password required to open archive"));
}

#[test]
fn app_keys_quit_focus_and_help() {
  let mut app = App::new(sample_entries(), "/work".to_string());
  let a = areas();
  app.dispatch_all_input(InputEvent::Key(key(KeyCode::Tab)), &a);
  assert_eq!(app.ctx.focus, TileId::Properties);
  let r = app.dispatch_all_input(InputEvent::Key(key(KeyCode::Char('?'))), &a);
  run(&mut app, r);
  assert_eq!(app.ctx.mode, Mode::Help);
  assert!(matches!(app.active_popup, Some(ActivePopup::Help(_))));
  let r = app.dispatch_all_input(InputEvent::Key(key(KeyCode::Esc)), &a);
  run(&mut app, r);
  assert_eq!(app.ctx.mode, Mode::Browse);
  assert!(app.active_popup.is_none());
  // a key with a modifier does nothing
  app.dispatch_all_input(InputEvent::Key(KeyEvent { code: KeyCode::Char('q'), plain: false }), &a);
  assert!(!app.ctx.should_quit);
  app.dispatch_all_input(InputEvent::Key(key(KeyCode::Char('q'))), &a);
  assert!(app.ctx.should_quit);
  // once quitting, nothing else happens
  let r = app.dispatch_all_input(InputEvent::Key(key(KeyCode::Tab)), &a);
  assert!(r.is_empty());
  assert_eq!(app.ctx.focus, TileId::Properties);
}

#[test]
fn app_selection_reaches_preview_and_properties() {
  let mut app = App::new(sample_entries(), "/work".to_string());
  let a = areas();
  for _ in 0..3 {
    let r = app.dispatch_all_input(InputEvent::Key(key(KeyCode::Down)), &a);
    run(&mut app, r);
  }
  assert_eq!(app.properties.selected_entry.as_ref().unwrap().name, "README.md");
  assert_eq!(app.preview.content.name, "README.md");
  let r = app.dispatch_all_input(InputEvent::Key(key(KeyCode::Enter)), &a);
  let requests = run(&mut app, r);
  match &requests[0] {
    Request::LoadPreview { full_name, password, encoding } => {
      assert_eq!(full_name, "README.md");
      assert!(password.is_none() && encoding.is_none());
    }
    other => panic!("{:?}", other),
  }
  let (p, _) = prepare_preview("README.md", b"# hi\n");
  app.preview_done("README.md".to_string(), Ok(p));
  assert_eq!(app.preview.content.lines, vec!["# hi".to_string()]);
  app.preview_done("README.md".to_string(), Err(DecmpError::InvalidArchive("bad".to_string())));
  assert_eq!(app.ctx.status_msg.as_deref(), Some("Error: invalid archive: bad"));
  app.preview_done("README.md".to_string(), Err(DecmpError::PasswordRequired));
  assert_eq!(app.ctx.mode, Mode::Password);
  assert_eq!(app.ctx.pending_action, Some(PendingAction::Extract));
}

#[test]
fn app_mouse_focuses_and_dispatches() {
  let mut app = App::new(sample_entries(), "/work".to_string());
  let a = areas();
  app.file_list.area = a[0].1;
  // the preview cannot take the focus while it shows nothing
  app.dispatch_all_input(InputEvent::Mouse(MouseEvent { kind: MouseKind::LeftDown, column: 50, row: 10 }), &a);
  assert_eq!(app.ctx.focus, TileId::FileList);
  app.dispatch_all_input(InputEvent::Mouse(MouseEvent { kind: MouseKind::LeftDown, column: 50, row: 2 }), &a);
  assert_eq!(app.ctx.focus, TileId::Properties);
  let r = app.dispatch_all_input(InputEvent::Mouse(MouseEvent { kind: MouseKind::LeftDown, column: 5, row: 1 }), &a);
  assert_eq!(app.ctx.focus, TileId::FileList);
  assert_eq!(app.file_list.selected, Some(0));
  assert_eq!(r.len(), 1);
}

#[test]
fn app_extraction_with_password_retry() {
  let mut app = App::new(sample_entries(), "/work".to_string());
  let requests = run(&mut app, vec![Action::StartExtract { full_name: "src/main.rs".to_string() }]);
  assert!(requests.is_empty());
  assert_eq!(app.ctx.mode, Mode::ExtractDest);
  match &app.active_popup {
    Some(ActivePopup::ExtractDest(p)) => assert_eq!(p.input, "/work/src/main.rs"),
    _ => panic!("expected the destination prompt"),
  }
  let requests = run(&mut app, vec![Action::ConfirmExtract { dest: "/out".to_string() }]);
  match &requests[0] {
    Request::Extract { dest, entries, confirm, .. } => {
      assert_eq!(dest, "/out");
      assert_eq!(entries.as_ref().unwrap(), &vec!["src/main.rs".to_string()]);
      assert!(*confirm);
    }
    other => panic!("{:?}", other),
  }
  app.extract_done(true, "/out", ExtractOutcome::Failed(DecmpError::WrongPassword));
  assert_eq!(app.ctx.mode, Mode::Password);
  assert!(matches!(app.active_popup, Some(ActivePopup::Password(_))));
  let requests = run(&mut app, vec![Action::PasswordSubmitted("pw".to_string())]);
  match &requests[0] {
    Request::Extract { dest, password, confirm, .. } => {
      assert_eq!(dest, "/out");
      assert_eq!(password.as_deref(), Some("pw"));
      assert!(!*confirm);
    }
    other => panic!("{:?}", other),
  }
  assert_eq!(app.ctx.mode, Mode::Browse);
  assert!(app.active_popup.is_none());
  app.extract_done(false, "/out", ExtractOutcome::Extracted);
  assert_eq!(app.ctx.status_msg.as_deref(), Some("Extracted to /out"));
  assert!(app.ctx.pending_extract_entries.is_none());
  app.extract_done(false, "/out", ExtractOutcome::DirNotCreated("denied".to_string()));
  assert_eq!(app.ctx.status_msg.as_deref(), Some("Error creating dir: denied"));
}

#[test]
fn app_unlocks_and_reloads_listings() {
  let mut app = App::new_password_required("/work".to_string());
  let requests = run(&mut app, vec![Action::PasswordSubmitted("secret".to_string())]);
  match &requests[0] {
    Request::List { purpose, password, .. } => {
      assert_eq!(*purpose, ListPurpose::Unlock);
      assert_eq!(password.as_deref(), Some("secret"));
    }
    other => panic!("{:?}", other),
  }
  app.listed(ListPurpose::Unlock, Err(DecmpError::WrongPassword));
  assert!(app.ctx.password.is_none());
  assert_eq!(app.ctx.status_msg.as_deref(), Some("Wrong password, try again"));
  app.listed(ListPurpose::Unlock, Ok(sample_entries()));
  assert_eq!(app.ctx.mode, Mode::Browse);
  assert!(app.active_popup.is_none());
  assert_eq!(app.ctx.entries.len(), 5);
  assert_eq!(app.ctx.tree.children.len(), 3);
  let requests = run(&mut app, vec![Action::RequestEncodingReload(String::new())]);
  match &requests[0] {
    Request::List { purpose, encoding, .. } => {
      assert_eq!(*purpose, ListPurpose::Reload);
      assert!(encoding.is_none());
    }
    other => panic!("{:?}", other),
  }
  app.listed(ListPurpose::Reload, Ok(sample_entries()));
  assert_eq!(app.ctx.status_msg.as_deref(), Some("Encoding: auto (auto)"));
  run(&mut app, vec![Action::RequestEncodingReload("gbk".to_string())]);
  app.listed(ListPurpose::Reload, Ok(sample_entries()));
  assert_eq!(app.ctx.status_msg.as_deref(), Some("Encoding: gbk"));
  app.listed(ListPurpose::Reload, Err(DecmpError::PasswordRequired));
  assert_eq!(app.ctx.pending_action, Some(PendingAction::InitialLoad));
  assert_eq!(app.ctx.status_msg.as_deref(), Some("Password required to reload"));
}

#[test]
fn app_popups_open_in_their_modes() {
  let mut app = App::new(sample_entries(), "/work".to_string());
  run(&mut app, vec![Action::ShowPopup(PopupType::ExtractDest)]);
  assert_eq!(app.ctx.mode, Mode::ExtractDest);
  run(&mut app, vec![Action::ClosePopup, Action::RequestEncodingInput]);
  assert_eq!(app.ctx.mode, Mode::Encoding);
  run(&mut app, vec![Action::ShowPopup(PopupType::Password), Action::PasswordSubmitted("x".to_string())]);
  assert_eq!(app.ctx.status_msg.as_deref(), Some("Password set"));
  assert_eq!(app.ctx.mode, Mode::Browse);
}

#[test]
fn default_layout_places_the_tiles() {
  let layout = LayoutNode::default_layout();
  let areas = layout.resolve(Area { x: 0, y: 0, width: 80, height: 24 });
  let ids: Vec<TileId> = areas.iter().map(|(id, _)| *id).collect();
  assert_eq!(ids, vec![TileId::FileList, TileId::Properties, TileId::Preview, TileId::StatusBar]);
  assert_eq!(areas[0].1, Area { x: 0, y: 0, width: 40, height: 23 });
  assert_eq!(areas[3].1, Area { x: 0, y: 23, width: 80, height: 1 });
  assert_eq!(areas[1].1.x, 40);
  assert_eq!(areas[1].1.height + areas[2].1.height, 23);
  let popup = centered_rect(60, 15, Area { x: 0, y: 0, width: 100, height: 40 });
  assert_eq!(popup.width, 60);
  assert_eq!(popup.x, 20);
}

#[test]
fn focus_cycles_through_three_tiles() {
  let mut t = TileId::FileList;
  let mut seen = Vec::new();
  for _ in 0..3 {
    t = TileId::next_focus(t);
    seen.push(t);
  }
  assert_eq!(seen, vec![TileId::Properties, TileId::Preview, TileId::FileList]);
  assert_eq!(TileId::next_focus(TileId::StatusBar), TileId::Properties);
}

#[test]
fn entering_then_going_up_restores_the_listing() {
  let tree = DirTree::from_entries(&sample_entries());
  let mut tile = FileListTile::new();
  tile.handle_key(KeyCode::Down, &tree);
  tile.handle_key(KeyCode::Down, &tree);
  let before: Vec<String> = tile.display_entries(&tree).into_iter().map(|(n, _)| n).collect();
  tile.handle_key(KeyCode::Enter, &tree);
  assert_eq!(tile.current_path, vec!["src".to_string()]);
  tile.go_up();
  let after: Vec<String> = tile.display_entries(&tree).into_iter().map(|(n, _)| n).collect();
  assert_eq!(before, after);
  assert_eq!(tile.selected, None);
}

#[test]
fn detection_of_every_format_extension() {
  let all = [
    Format::Zip, Format::SevenZ, Format::Tar, Format::TarGz, Format::TarXz, Format::TarZst, Format::TarBz2,
    Format::TarLzma, Format::Gz, Format::Zst, Format::Xz, Format::Lzma, Format::Bz2,
  ];
  for f in all {
    let name = format!("backup.{}", f.extension());
    assert_eq!(detect_format(&name).unwrap(), f, "{name}");
    assert_eq!(Format::parse(f.extension()).unwrap(), f);
  }
  // a base ending in .tar makes a compressed format its tar variant
  assert_eq!(detect_format("x.tar.gz").unwrap(), Format::TarGz);
}
