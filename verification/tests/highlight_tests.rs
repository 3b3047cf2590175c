use decmp::path::{file_name, source_entry_name, source_name};
use decmp::tui::context::StyledSpan;
use decmp::tui::file_list::FileListTile;
use decmp::tui::highlight::highlight_text;
use decmp::tui::input::Area;
use decmp::tui::layout::{
  centered_rect_fixed, fixed_middle_constraints, middle_constraints, middle_of, middle_part, Constraint, Direction,
  LayoutNode,
};
use decmp::tui::tile::TileId;
use decmp::tui::loader::prepare_preview;
use decmp::tui::preview::PreviewTile;

fn joined(line: &[StyledSpan]) -> String {
  line.iter().map(|s| s.text.as_str()).collect()
}

#[test]
fn highlighted_lines_keep_the_text_of_each_line() {
  let text = "fn main() {\n    let x = 1;\n}\n";
  let lines = highlight_text(text, "src/main.rs");
  assert_eq!(lines.len(), 3);
  assert_eq!(joined(&lines[0]), "fn main() {");
  assert_eq!(joined(&lines[1]), "    let x = 1;");
  assert_eq!(joined(&lines[2]), "}");
  // Rust source is split into several coloured pieces.
  assert!(lines[0].len() > 1);
}

#[test]
fn text_without_a_known_syntax_is_one_piece_per_line() {
  let lines = highlight_text("alpha\nbeta", "notes.unknownext");
  assert_eq!(lines.len(), 2);
  assert_eq!(joined(&lines[0]), "alpha");
  assert_eq!(joined(&lines[1]), "beta");
  assert!(lines.iter().all(|l| l.iter().all(|s| !s.bold && !s.underlined)));
}

#[test]
fn empty_text_has_no_highlighted_lines() {
  assert!(highlight_text("", "a.rs").is_empty());
}

#[test]
fn a_prepared_preview_is_highlighted_line_by_line() {
  let (p, _) = prepare_preview("dir/notes.txt", b"first\nsecond\n");
  assert_eq!(p.highlighted.len(), 2);
  assert_eq!(joined(&p.highlighted[0]), "first");
  assert_eq!(joined(&p.highlighted[1]), "second");
  let (b, _) = prepare_preview("dir/x.bin", &[0u8, 1, 2, 3]);
  assert!(b.highlighted.is_empty());
}

#[test]
fn sources_are_stored_under_their_names() {
  assert_eq!(source_name("/home/u/docs"), "docs");
  assert_eq!(source_name("notes.txt"), "notes.txt");
  assert_eq!(source_name("/"), "");
  assert_eq!(source_entry_name("/home/u/docs", "a/b.txt"), "docs/a/b.txt");
  assert_eq!(source_entry_name("docs", "c.txt"), "docs/c.txt");
}

#[test]
fn a_plain_name_is_its_own_file_name() {
  assert_eq!(file_name("report.pdf").as_deref(), Some("report.pdf"));
  assert_eq!(file_name("dir/report.pdf").as_deref(), Some("report.pdf"));
  assert_eq!(file_name(".."), None);
}

#[test]
fn tiles_record_their_area() {
  let at = Area { x: 3, y: 4, width: 20, height: 10 };
  let mut list = FileListTile::new();
  list.set_area(at);
  assert_eq!(list.area, at);
  assert!(list.selected.is_none());
  let mut preview = PreviewTile::new();
  preview.set_area(at);
  assert_eq!(preview.area, at);
}

#[test]
fn popup_areas_lie_inside_the_screen() {
  let screen = Area { x: 0, y: 0, width: 100, height: 40 };
  let band = middle_part(Direction::Vertical, 50, screen);
  assert_eq!(band.x, 0);
  assert_eq!(band.width, 100);
  assert!(band.y + band.height <= 40);
  let fixed = centered_rect_fixed(50, 3, screen);
  assert_eq!(fixed.height, 3);
  assert!(fixed.x + fixed.width <= 100 && fixed.y + fixed.height <= 40);
}

#[test]
fn an_area_past_the_coordinate_range_is_cut_before_splitting() {
  let wide = Area { x: 100, y: 0, width: 65535, height: 10 };
  let band = middle_part(Direction::Vertical, 50, wide);
  assert_eq!(band.x, 100);
  assert_eq!(band.width, 65435);
  assert!(band.y + band.height <= 10);
}

#[test]
fn highlighted_pieces_carry_a_colour() {
  let lines = highlight_text("fn f() {}", "lib.rs");
  assert!(lines[0].iter().all(|s| s.color.is_some()));
}

#[test]
fn split_children_are_placed_in_their_own_parts() {
  let layout = LayoutNode::default_layout();
  let main = Area { x: 0, y: 0, width: 80, height: 23 };
  let bar = Area { x: 0, y: 23, width: 80, height: 1 };
  let outer = Area { x: 0, y: 0, width: 80, height: 24 };
  let placed = layout.place_children(&vec![main, bar], outer);
  let ids: Vec<TileId> = placed.iter().map(|p| p.0).collect();
  assert_eq!(ids, vec![TileId::FileList, TileId::Properties, TileId::Preview, TileId::StatusBar]);
  assert_eq!(placed[3].1, bar);
  for p in &placed[..3] {
    assert!(p.1.y + p.1.height <= 23);
  }
}

#[test]
fn popup_splits_use_three_parts_and_take_the_middle() {
  assert_eq!(
    middle_constraints(60),
    vec![Constraint::Percentage(20), Constraint::Percentage(60), Constraint::Percentage(20)]
  );
  assert_eq!(fixed_middle_constraints(3), vec![Constraint::Min(0), Constraint::Length(3), Constraint::Min(0)]);
  let parts = vec![
    Area { x: 0, y: 0, width: 1, height: 1 },
    Area { x: 1, y: 0, width: 2, height: 1 },
    Area { x: 3, y: 0, width: 1, height: 1 },
  ];
  assert_eq!(middle_of(&parts), parts[1]);
}

#[test]
fn slash_paths_name_their_final_component() {
  assert_eq!(file_name("/usr/bin/").as_deref(), Some("bin"));
  assert_eq!(file_name("foo.txt/.//").as_deref(), Some("foo.txt"));
  assert_eq!(file_name("foo.txt/.."), None);
  assert_eq!(file_name("/"), None);
  assert_eq!(source_name("/path/to/file.txt"), "file.txt");
}
