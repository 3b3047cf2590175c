//! The file list tile: the directory being shown, the selected line, and how
//! keys and the mouse move through the tree.
use vstd::prelude::*;

use crate::path::{file_name, file_name_of};
use crate::text::{pad_left, pad_left_string, pad_right, pad_right_string, push_char, str_eq};
use crate::tree::{
    dir_children, file_children, lookup, name_views, tree_wf, walk, DirNode,
    DirTree,
};
use crate::tui::action::Action;
use crate::tui::input::{in_area, spec_in_area, Area, InputEvent, KeyCode, MouseEvent, MouseKind};
use crate::utils::{scaled, scaled_string};
use crate::text::{decimal, decimal_string};

verus! {

/// A size written compactly, with one decimal in `G`, `M` or `K`, or in whole
/// bytes with `B`.
pub open spec fn spec_short_size(bytes: nat) -> Seq<char> {
    if bytes >= 0x4000_0000 {
        scaled(bytes, 0x4000_0000, 1) + "G"@
    } else if bytes >= 0x10_0000 {
        scaled(bytes, 0x10_0000, 1) + "M"@
    } else if bytes >= 0x400 {
        scaled(bytes, 0x400, 1) + "K"@
    } else {
        decimal(bytes) + "B"@
    }
}

/// A size written compactly for the file list.
pub fn format_size(bytes: u64) -> (r: String)
    ensures
        r@ == spec_short_size(bytes as nat),
{
    if bytes >= 0x4000_0000 {
        let mut r = scaled_string(bytes, 0x4000_0000, 1);
        r.append("G");
        r
    } else if bytes >= 0x10_0000 {
        let mut r = scaled_string(bytes, 0x10_0000, 1);
        r.append("M");
        r
    } else if bytes >= 0x400 {
        let mut r = scaled_string(bytes, 0x400, 1);
        r.append("K");
        r
    } else {
        let mut r = decimal_string(bytes as u128);
        r.append("B");
        r
    }
}

/// `s` with its first `scroll` characters cut off.
pub open spec fn spec_clip(s: Seq<char>, scroll: nat) -> Seq<char> {
    if scroll >= s.len() {
        Seq::empty()
    } else {
        s.skip(scroll as int)
    }
}

/// `s` scrolled left by `scroll` characters.
pub fn clip_str(s: &str, scroll: usize) -> (r: String)
    ensures
        r@ == spec_clip(s@, scroll as nat),
{
    let n = s.unicode_len();
    if scroll == 0 {
        assert(s@.skip(0) =~= s@);
        return s.to_owned();
    }
    if scroll >= n {
        return String::new();
    }
    s.substring_char(scroll, n).to_owned()
}

/// The parts of a path joined by `/`.
pub open spec fn join_slash(parts: Seq<Seq<char>>) -> Seq<char>
    decreases parts.len(),
{
    if parts.len() == 0 {
        Seq::empty()
    } else if parts.len() == 1 {
        parts[0]
    } else {
        join_slash(parts.drop_last()) + seq!['/'] + parts.last()
    }
}

/// Joins the parts of a path with `/`.
pub fn join_path(parts: &Vec<String>) -> (r: String)
    ensures
        r@ == join_slash(name_views(parts@)),
{
    let mut r = String::new();
    let mut i: usize = 0;
    proof {
        reveal_strlit("/");
    }
    while i < parts.len()
        invariant
            i <= parts@.len(),
            r@ == join_slash(name_views(parts@).take(i as int)),
            "/"@ == seq!['/'],
        decreases parts.len() - i,
    {
        let ghost v = name_views(parts@);
        assert(v.take(i + 1).drop_last() =~= v.take(i as int));
        assert(v.take(i + 1).last() == parts@[i as int]@);
        if i > 0 {
            r.append("/");
        } else {
            assert(r@ =~= Seq::<char>::empty());
        }
        r.append(parts[i].as_str());
        i = i + 1;
    }
    assert(name_views(parts@).take(parts@.len() as int) =~= name_views(parts@));
    r
}

/// The lines a file list shows for the directory `t`: `..` first unless at
/// the root, then the directories and then the files, each in order of name.
pub open spec fn listing(at_root: bool, t: DirTree) -> Seq<(Seq<char>, Option<DirNode>)> {
    let prefix: Seq<(Seq<char>, Option<DirNode>)> = if at_root {
        seq![]
    } else {
        seq![(".."@, None)]
    };
    prefix + (dir_children(t.children.entries@) + file_children(t.children.entries@)).map_values(
        |p: (String, DirNode)| (p.0@, Some(p.1)),
    )
}

/// The lines a list of borrowed nodes stands for.
pub open spec fn listing_view(s: Seq<(String, Option<&DirNode>)>) -> Seq<(Seq<char>, Option<DirNode>)> {
    s.map_values(
        |p: (String, Option<&DirNode>)|
            (
                p.0@,
                match p.1 {
                    Some(n) => Some(*n),
                    None => None,
                },
            ),
    )
}

/// The line shown for a child in a directory's preview: a directory with a
/// trailing `/`, a file padded to 40 columns and followed by its size.
pub open spec fn child_line(p: (String, DirNode)) -> Seq<char> {
    match p.1 {
        DirNode::Dir(_) => p.0@ + seq!['/'],
        DirNode::File(f) => pad_right(p.0@, 40) + seq![' '] + spec_short_size(f.size as nat),
    }
}

/// The lines of a directory's preview.
pub open spec fn child_lines(t: DirTree) -> Seq<Seq<char>> {
    (dir_children(t.children.entries@) + file_children(t.children.entries@)).map_values(
        |p: (String, DirNode)| child_line(p),
    )
}

/// The views of a list of lines.
pub open spec fn line_views(lines: Seq<String>) -> Seq<Seq<char>> {
    lines.map_values(|l: String| l@)
}

/// `a` is the selection change with these fields.
pub open spec fn is_selection(
    a: Action,
    name: Seq<char>,
    is_dir: bool,
    full_name: Seq<char>,
    dir_entries: Option<Seq<Seq<char>>>,
) -> bool {
    match a {
        Action::SelectionChanged { name: n, is_dir: d, full_name: f, dir_entries: e } => {
            &&& n@ == name
            &&& d == is_dir
            &&& f@ == full_name
            &&& match e {
                Some(lines) => dir_entries == Some(line_views(lines@)),
                None => dir_entries is None,
            }
        },
        _ => false,
    }
}

/// `a` reports that nothing is selected.
pub open spec fn is_deselection(a: Action) -> bool {
    is_selection(a, Seq::empty(), false, Seq::empty(), None)
}

/// The file list tile.
pub struct FileListTile {
    pub current_path: Vec<String>,
    pub selected: Option<usize>,
    pub horizontal_scroll: usize,
    pub area: Area,
}

impl FileListTile {
    /// The directory shown.
    pub open spec fn spec_current_tree(&self, root: DirTree) -> DirTree {
        walk(root, name_views(self.current_path@))
    }

    /// The lines shown.
    pub open spec fn spec_listing(&self, root: DirTree) -> Seq<(Seq<char>, Option<DirNode>)> {
        listing(self.current_path@.len() == 0, self.spec_current_tree(root))
    }

    /// The selected line's name and whether it leads to a directory (`..`
    /// does).
    pub open spec fn spec_selected_info(&self, root: DirTree) -> Option<(Seq<char>, bool)> {
        match self.selected {
            None => None,
            Some(i) => {
                let l = self.spec_listing(root);
                if i < l.len() {
                    Some((l[i as int].0, l[i as int].0 == ".."@ || l[i as int].1 matches Some(DirNode::Dir(_))))
                } else {
                    None
                }
            },
        }
    }

    /// The path inside the archive of the child `name` of the directory shown.
    pub open spec fn spec_full_path(&self, name: Seq<char>) -> Seq<char> {
        if self.current_path@.len() == 0 {
            name
        } else {
            join_slash(name_views(self.current_path@)) + seq!['/'] + name
        }
    }

    /// The selection change the tile reports for its current selection.
    pub open spec fn selection_report(&self, root: DirTree, a: Action) -> bool {
        match self.spec_selected_info(root) {
            None => is_deselection(a),
            Some((name, is_dir)) => is_selection(
                a,
                name,
                is_dir,
                if name == ".."@ {
                    Seq::empty()
                } else {
                    self.spec_full_path(name)
                },
                if name == ".."@ || !is_dir {
                    None
                } else {
                    match lookup(self.spec_current_tree(root), name) {
                        Some(DirNode::Dir(sub)) => Some(child_lines(sub)),
                        _ => None,
                    }
                },
            ),
        }
    }

    /// A tile at the root with nothing selected.
    pub fn new() -> (r: FileListTile)
        ensures
            r.current_path@.len() == 0,
            r.selected is None,
            r.horizontal_scroll == 0,
            r.area.x == 0 && r.area.y == 0 && r.area.width == 0 && r.area.height == 0,
    {
        FileListTile {
            current_path: Vec::new(),
            selected: None,
            horizontal_scroll: 0,
            area: Area { x: 0, y: 0, width: 0, height: 0 },
        }
    }

    /// Records the area the tile was last drawn in.
    pub fn set_area(&mut self, area: Area)
        ensures
            final(self).area == area,
            final(self).current_path == old(self).current_path,
            final(self).selected == old(self).selected,
            final(self).horizontal_scroll == old(self).horizontal_scroll,
    {
        self.area = area;
    }

    /// Goes back to the root with nothing selected, as after new entries.
    pub fn reset(&mut self)
        ensures
            final(self).current_path@.len() == 0,
            final(self).selected is None,
            final(self).horizontal_scroll == old(self).horizontal_scroll,
            final(self).area == old(self).area,
    {
        self.current_path = Vec::new();
        self.selected = None;
    }

    /// The directory shown.
    pub fn current_tree<'a>(&self, root: &'a DirTree) -> (r: &'a DirTree)
        requires
            tree_wf(*root),
        ensures
            *r == self.spec_current_tree(*root),
            tree_wf(*r),
    {
        let ghost path = name_views(self.current_path@);
        let mut tree = root;
        let mut i: usize = 0;
        assert(path.skip(0) =~= path);
        while i < self.current_path.len()
            invariant
                path == name_views(self.current_path@),
                i <= self.current_path@.len(),
                tree_wf(*tree),
                walk(*root, path) == walk(*tree, path.skip(i as int)),
            decreases self.current_path.len() - i,
        {
            let ghost before = *tree;
            let part = &self.current_path[i];
            assert(path.skip(i as int)[0] == part@);
            assert(path.skip(i as int).drop_first() =~= path.skip(i + 1));
            match tree.child(part.as_str()) {
                Some(DirNode::Dir(sub)) => {
                    tree = sub;
                },
                _ => {},
            }
            i = i + 1;
        }
        assert(path.skip(self.current_path@.len() as int) =~= Seq::<Seq<char>>::empty());
        tree
    }

    /// The path of the directory shown, with a trailing `/` below the root.
    pub fn current_display_path(&self) -> (r: String)
        ensures
            self.current_path@.len() == 0 ==> r@ == Seq::<char>::empty(),
            self.current_path@.len() > 0 ==> r@ == join_slash(name_views(self.current_path@)) + seq!['/'],
    {
        if self.current_path.len() == 0 {
            String::new()
        } else {
            let mut r = join_path(&self.current_path);
            push_char(&mut r, '/');
            r
        }
    }

    /// The lines shown.
    pub fn display_entries<'a>(&self, root: &'a DirTree) -> (r: Vec<(String, Option<&'a DirNode>)>)
        requires
            tree_wf(*root),
        ensures
            listing_view(r@) == self.spec_listing(*root),
    {
        let tree = self.current_tree(root);
        let mut r: Vec<(String, Option<&'a DirNode>)> = Vec::new();
        if self.current_path.len() != 0 {
            r.push((String::from_str(".."), None));
        }
        let ghost prefix = r@;
        let sorted = tree.sorted_entries();
        let ghost pairs = dir_children(tree.children.entries@) + file_children(tree.children.entries@);
        assert(crate::tree::deref_pairs(sorted@) == pairs);
        let mut i: usize = 0;
        while i < sorted.len()
            invariant
                i <= sorted@.len(),
                crate::tree::deref_pairs(sorted@) == pairs,
                r@.len() == prefix.len() + i,
                forall|j: int| 0 <= j < prefix.len() ==> #[trigger] r@[j] == prefix[j],
                forall|j: int|
                    0 <= j < i ==> (#[trigger] r@[prefix.len() + j]).0@ == pairs[j].0@ && r@[prefix.len() + j].1 == Some(&pairs[j].1),
            decreases sorted.len() - i,
        {
            let (name, node) = sorted[i];
            assert(pairs[i as int] == (*name, *node));
            r.push((name.clone(), Some(node)));
            i = i + 1;
        }
        let ghost want = self.spec_listing(*root);
        assert(pairs.len() == sorted@.len());
        assert(listing_view(r@) =~= want) by {
            assert(want.len() == r@.len());
            assert forall|j: int| 0 <= j < r@.len() implies listing_view(r@)[j] == want[j] by {
                if j >= prefix.len() {
                    assert(r@[prefix.len() + (j - prefix.len())] == r@[j]);
                }
            }
        }
        r
    }

    /// The selected line's name and whether it leads to a directory.
    pub fn selected_info(&self, root: &DirTree) -> (r: Option<(String, bool)>)
        requires
            tree_wf(*root),
        ensures
            r matches Some((n, d)) ==> self.spec_selected_info(*root) == Some((n@, d)),
            r is None ==> self.spec_selected_info(*root) is None,
    {
        let idx = match self.selected {
            Some(i) => i,
            None => return None,
        };
        let entries = self.display_entries(root);
        if idx >= entries.len() {
            return None;
        }
        let (name, node) = &entries[idx];
        assert(listing_view(entries@)[idx as int] == self.spec_listing(*root)[idx as int]);
        let is_dir = str_eq(name.as_str(), "..") || match node {
            Some(DirNode::Dir(_)) => true,
            _ => false,
        };
        Some((name.clone(), is_dir))
    }

    /// The path inside the archive of the child `name` of the directory shown.
    pub fn build_full_path(&self, name: &str) -> (r: String)
        ensures
            r@ == self.spec_full_path(name@),
    {
        if self.current_path.len() == 0 {
            String::from_str(name)
        } else {
            let mut r = join_path(&self.current_path);
            push_char(&mut r, '/');
            r.append(name);
            r
        }
    }

    /// The report that nothing is selected.
    pub fn deselection_action() -> (r: Vec<Action>)
        ensures
            r@.len() == 1,
            is_deselection(r@[0]),
    {
        let mut r = Vec::new();
        r.push(
            Action::SelectionChanged {
                name: String::new(),
                is_dir: false,
                full_name: String::new(),
                dir_entries: None,
            },
        );
        r
    }

    /// The report of the current selection.
    pub fn selection_action(&self, root: &DirTree) -> (r: Vec<Action>)
        requires
            tree_wf(*root),
        ensures
            r@.len() == 1,
            self.selection_report(*root, r@[0]),
    {
        let (name, is_dir) = match self.selected_info(root) {
            Some(info) => info,
            None => return Self::deselection_action(),
        };
        let parent = str_eq(name.as_str(), "..");
        let full_name = if parent {
            String::new()
        } else {
            self.build_full_path(name.as_str())
        };
        let dir_entries = if parent || !is_dir {
            None
        } else {
            let tree = self.current_tree(root);
            match tree.child(name.as_str()) {
                Some(DirNode::Dir(sub)) => Some(child_line_strings(sub)),
                _ => None,
            }
        };
        let mut r = Vec::new();
        r.push(Action::SelectionChanged { name, is_dir, full_name, dir_entries });
        r
    }
}

/// `x` kept inside `[lo, hi]`.
pub open spec fn clamp(x: int, lo: int, hi: int) -> int {
    if x < lo {
        lo
    } else if x > hi {
        hi
    } else {
        x
    }
}

/// The line a move by `delta` selects in a list of `len > 0` lines: the
/// selection moved and kept inside the list, or with nothing selected the last
/// line (moving up) or the first (moving down).
pub open spec fn nav_target(sel: Option<usize>, delta: int, len: int) -> int {
    match sel {
        Some(i) => clamp(i + delta, 0, len - 1),
        None => if delta < 0 {
            len - 1
        } else {
            0
        },
    }
}

/// The selection after one move by `delta` in a list of `len` lines: with no
/// lines nothing moves.
pub open spec fn nav_step(sel: Option<usize>, delta: int, len: int) -> Option<usize> {
    if len == 0 {
        sel
    } else {
        Some(nav_target(sel, delta, len) as usize)
    }
}

/// The selection after `n` moves by `delta` in a list of `len` lines.
pub open spec fn nav_repeat(sel: Option<usize>, delta: int, len: int, n: nat) -> Option<usize>
    decreases n,
{
    if n == 0 {
        sel
    } else {
        nav_step(nav_repeat(sel, delta, len, (n - 1) as nat), delta, len)
    }
}

/// The two tiles show the same directory, scrolled alike, in the same place.
pub open spec fn same_view(a: FileListTile, b: FileListTile) -> bool {
    &&& a.current_path@ == b.current_path@
    &&& a.horizontal_scroll == b.horizontal_scroll
    &&& a.area == b.area
}

/// Nothing changed.
pub open spec fn unchanged(a: FileListTile, b: FileListTile) -> bool {
    same_view(a, b) && a.selected == b.selected
}

/// What a move by `delta` does: with lines to show, it selects the target line
/// and reports the selection; with none, nothing happens.
pub open spec fn nav_post(old: FileListTile, new: FileListTile, delta: int, root: DirTree, r: Seq<Action>) -> bool {
    let len = old.spec_listing(root).len() as int;
    &&& same_view(old, new)
    &&& len == 0 ==> new.selected == old.selected && r.len() == 0
    &&& len > 0 ==> new.selected == Some(nav_target(old.selected, delta, len) as usize) && r.len() == 1
        && new.selection_report(root, r[0])
}

/// What a page move does: ten moves by `delta`, then a report of the selection.
pub open spec fn page_post(old: FileListTile, new: FileListTile, delta: int, root: DirTree, r: Seq<Action>) -> bool {
    &&& same_view(old, new)
    &&& new.selected == nav_repeat(old.selected, delta, old.spec_listing(root).len() as int, 10)
    &&& r.len() == 1
    &&& new.selection_report(root, r[0])
}

/// What going up does: below the root, it leaves the directory shown, clears the
/// selection and reports that; at the root nothing happens.
pub open spec fn up_post(old: FileListTile, new: FileListTile, r: Seq<Action>) -> bool {
    &&& old.current_path@.len() > 0 ==> {
        &&& new.current_path@ == old.current_path@.drop_last()
        &&& new.selected is None
        &&& new.horizontal_scroll == old.horizontal_scroll
        &&& new.area == old.area
        &&& r.len() == 1
        &&& is_deselection(r[0])
    }
    &&& old.current_path@.len() == 0 ==> unchanged(old, new) && r.len() == 0
}

/// What entering the selection does: `..` goes up, a directory is opened with
/// nothing selected, a file is asked to be previewed; without a selection
/// nothing happens.
pub open spec fn enter_post(old: FileListTile, new: FileListTile, root: DirTree, r: Seq<Action>) -> bool {
    match old.spec_selected_info(root) {
        None => unchanged(old, new) && r.len() == 0,
        Some((name, is_dir)) => if name == ".."@ {
            up_post(old, new, r)
        } else if is_dir {
            &&& name_views(new.current_path@) == name_views(old.current_path@).push(name)
            &&& new.selected is None
            &&& new.horizontal_scroll == old.horizontal_scroll
            &&& new.area == old.area
            &&& r.len() == 1
            &&& is_deselection(r[0])
        } else {
            &&& unchanged(old, new)
            &&& r.len() == 1
            &&& r[0] matches Action::RequestPreviewLoad { full_name } && full_name@ == old.spec_full_path(
                name,
            )
        },
    }
}

impl FileListTile {
    /// Moves the selection by `delta` lines.
    pub fn navigate_list(&mut self, delta: isize, root: &DirTree) -> (r: Vec<Action>)
        requires
            tree_wf(*root),
        ensures
            nav_post(*old(self), *final(self), delta as int, *root, r@),
    {
        let len = self.display_entries(root).len();
        if len == 0 {
            return Vec::new();
        }
        let new: usize = match self.selected {
            Some(i) => {
                let x: i128 = i as i128 + delta as i128;
                if x < 0 {
                    0
                } else if x > (len - 1) as i128 {
                    len - 1
                } else {
                    x as usize
                }
            },
            None => if delta < 0 {
                len - 1
            } else {
                0
            },
        };
        self.selected = Some(new);
        self.selection_action(root)
    }

    /// Leaves the directory shown for its parent.
    pub fn go_up(&mut self) -> (r: Vec<Action>)
        ensures
            up_post(*old(self), *final(self), r@),
    {
        if self.current_path.len() == 0 {
            return Vec::new();
        }
        let _ = self.current_path.pop();
        self.selected = None;
        Self::deselection_action()
    }

    /// Opens the selected directory, goes up for `..`, or asks for a preview of
    /// the selected file.
    pub fn enter_selected(&mut self, root: &DirTree) -> (r: Vec<Action>)
        requires
            tree_wf(*root),
        ensures
            enter_post(*old(self), *final(self), *root, r@),
    {
        let (name, is_dir) = match self.selected_info(root) {
            Some(info) => info,
            None => return Vec::new(),
        };
        if str_eq(name.as_str(), "..") {
            return self.go_up();
        }
        if is_dir {
            let ghost before = name_views(self.current_path@);
            self.current_path.push(name);
            assert(name_views(self.current_path@) =~= before.push(name@));
            self.selected = None;
            return Self::deselection_action();
        }
        let full_name = self.build_full_path(name.as_str());
        let mut r = Vec::new();
        r.push(Action::RequestPreviewLoad { full_name });
        r
    }

    /// Ten moves by `delta`, then a report of the selection.
    pub fn page(&mut self, delta: isize, root: &DirTree) -> (r: Vec<Action>)
        requires
            tree_wf(*root),
        ensures
            page_post(*old(self), *final(self), delta as int, *root, r@),
    {
        let ghost start = *self;
        let ghost len = start.spec_listing(*root).len() as int;
        let mut k: usize = 0;
        while k < 10
            invariant
                tree_wf(*root),
                k <= 10,
                same_view(start, *self),
                len == self.spec_listing(*root).len() as int,
                self.selected == nav_repeat(start.selected, delta as int, len, k as nat),
            decreases 10 - k,
        {
            let _ = self.navigate_list(delta, root);
            k = k + 1;
        }
        self.selection_action(root)
    }
}

/// What Esc and Backspace do: clear a selection, else quit at the root, else
/// go up.
pub open spec fn back_post(old: FileListTile, new: FileListTile, r: Seq<Action>) -> bool {
    if old.selected is Some {
        &&& same_view(old, new)
        &&& new.selected is None
        &&& r.len() == 1
        &&& is_deselection(r[0])
    } else if old.current_path@.len() == 0 {
        unchanged(old, new) && r.len() == 1 && r[0] is Quit
    } else {
        up_post(old, new, r)
    }
}

/// What `e` does: for a selected file, ask to extract it; otherwise nothing.
pub open spec fn extract_post(old: FileListTile, new: FileListTile, root: DirTree, r: Seq<Action>) -> bool {
    &&& unchanged(old, new)
    &&& match old.spec_selected_info(root) {
        Some((name, is_dir)) => if name == ".."@ || is_dir {
            r.len() == 0
        } else {
            r.len() == 1 && (r[0] matches Action::StartExtract { full_name } && full_name@
                == old.spec_full_path(name))
        },
        None => r.len() == 0,
    }
}

/// Nothing changed but the horizontal scroll, which became `scroll`; no action.
pub open spec fn scrolled_post(old: FileListTile, new: FileListTile, scroll: int, r: Seq<Action>) -> bool {
    &&& new.current_path@ == old.current_path@
    &&& new.selected == old.selected
    &&& new.area == old.area
    &&& new.horizontal_scroll == scroll
    &&& r.len() == 0
}

/// Nothing changed and the one action is `a`.
pub open spec fn only_post(old: FileListTile, new: FileListTile, r: Seq<Action>, a: Action) -> bool {
    unchanged(old, new) && r.len() == 1 && r[0] == a
}

/// What a key does to the file list.
pub open spec fn key_post(old: FileListTile, new: FileListTile, code: KeyCode, root: DirTree, r: Seq<Action>) -> bool {
    match code {
        KeyCode::Esc => back_post(old, new, r),
        KeyCode::Backspace => back_post(old, new, r),
        KeyCode::Up => nav_post(old, new, -1, root, r),
        KeyCode::Down => nav_post(old, new, 1, root, r),
        KeyCode::PageUp => page_post(old, new, -1, root, r),
        KeyCode::PageDown => page_post(old, new, 1, root, r),
        KeyCode::Enter => enter_post(old, new, root, r),
        KeyCode::Left => scrolled_post(
            old,
            new,
            if old.horizontal_scroll >= 4 {
                old.horizontal_scroll - 4
            } else {
                0
            },
            r,
        ),
        KeyCode::Right => scrolled_post(
            old,
            new,
            if old.horizontal_scroll + 4 <= usize::MAX {
                old.horizontal_scroll + 4
            } else {
                usize::MAX as int
            },
            r,
        ),
        KeyCode::Char(c) => if c == 'k' {
            nav_post(old, new, -1, root, r)
        } else if c == 'j' {
            nav_post(old, new, 1, root, r)
        } else if c == 'e' {
            extract_post(old, new, root, r)
        } else if c == 'E' {
            only_post(old, new, r, Action::StartExtractAll)
        } else if c == 'o' {
            only_post(old, new, r, Action::RequestEncodingInput)
        } else {
            unchanged(old, new) && r.len() == 0
        },
        _ => unchanged(old, new) && r.len() == 0,
    }
}

/// The line under screen row `row` of a list drawn in `area` below its top
/// border (0 above it).
pub open spec fn clicked_line(row: u16, area: Area) -> int {
    if row >= area.y + 1 {
        row - area.y - 1
    } else {
        0
    }
}

/// What a mouse event does to the file list: a click on a line selects it, on
/// the selected line enters it, on `..` goes up; the wheel moves the selection.
pub open spec fn mouse_post(old: FileListTile, new: FileListTile, m: MouseEvent, root: DirTree, r: Seq<Action>) -> bool {
    match m.kind {
        MouseKind::LeftDown => {
            let line = clicked_line(m.row, old.area);
            let l = old.spec_listing(root);
            if !spec_in_area(m.column, m.row, old.area) || line >= l.len() {
                unchanged(old, new) && r.len() == 0
            } else if l[line].0 == ".."@ {
                up_post(old, new, r)
            } else if old.selected == Some(line as usize) {
                enter_post(old, new, root, r)
            } else {
                &&& same_view(old, new)
                &&& new.selected == Some(line as usize)
                &&& r.len() == 1
                &&& new.selection_report(root, r[0])
            }
        },
        MouseKind::ScrollUp => nav_post(old, new, -1, root, r),
        MouseKind::ScrollDown => nav_post(old, new, 1, root, r),
        MouseKind::Other => unchanged(old, new) && r.len() == 0,
    }
}

impl FileListTile {
    /// Esc and Backspace: clear the selection, quit at the root, or go up.
    fn back(&mut self) -> (r: Vec<Action>)
        ensures
            back_post(*old(self), *final(self), r@),
    {
        if self.selected.is_some() {
            self.selected = None;
            return Self::deselection_action();
        }
        if self.current_path.len() == 0 {
            let mut r = Vec::new();
            r.push(Action::Quit);
            r
        } else {
            self.go_up()
        }
    }

    /// `e`: asks to extract the selected file.
    fn extract_selected(&self, root: &DirTree) -> (r: Vec<Action>)
        requires
            tree_wf(*root),
        ensures
            extract_post(*self, *self, *root, r@),
    {
        let (name, is_dir) = match self.selected_info(root) {
            Some(info) => info,
            None => return Vec::new(),
        };
        if str_eq(name.as_str(), "..") || is_dir {
            return Vec::new();
        }
        let full_name = self.build_full_path(name.as_str());
        let mut r = Vec::new();
        r.push(Action::StartExtract { full_name });
        r
    }

    /// Answers a key.
    pub fn handle_key(&mut self, code: KeyCode, root: &DirTree) -> (r: Vec<Action>)
        requires
            tree_wf(*root),
        ensures
            key_post(*old(self), *final(self), code, *root, r@),
    {
        match code {
            KeyCode::Esc | KeyCode::Backspace => self.back(),
            KeyCode::Up => self.navigate_list(-1, root),
            KeyCode::Down => self.navigate_list(1, root),
            KeyCode::PageUp => self.page(-1, root),
            KeyCode::PageDown => self.page(1, root),
            KeyCode::Enter => self.enter_selected(root),
            KeyCode::Left => {
                self.horizontal_scroll = self.horizontal_scroll.saturating_sub(4);
                Vec::new()
            },
            KeyCode::Right => {
                self.horizontal_scroll = self.horizontal_scroll.saturating_add(4);
                Vec::new()
            },
            KeyCode::Char(c) => {
                if c == 'k' {
                    self.navigate_list(-1, root)
                } else if c == 'j' {
                    self.navigate_list(1, root)
                } else if c == 'e' {
                    self.extract_selected(root)
                } else if c == 'E' {
                    let mut r = Vec::new();
                    r.push(Action::StartExtractAll);
                    r
                } else if c == 'o' {
                    let mut r = Vec::new();
                    r.push(Action::RequestEncodingInput);
                    r
                } else {
                    Vec::new()
                }
            },
            _ => Vec::new(),
        }
    }

    /// Answers a mouse event.
    pub fn handle_mouse(&mut self, m: MouseEvent, root: &DirTree) -> (r: Vec<Action>)
        requires
            tree_wf(*root),
        ensures
            mouse_post(*old(self), *final(self), m, *root, r@),
    {
        match m.kind {
            MouseKind::LeftDown => {
                if !in_area(m.column, m.row, self.area) {
                    return Vec::new();
                }
                let top: u32 = self.area.y as u32 + 1;
                let row: u32 = m.row as u32;
                let line: usize = if row >= top {
                    (row - top) as usize
                } else {
                    0
                };
                let entries = self.display_entries(root);
                if line >= entries.len() {
                    return Vec::new();
                }
                if str_eq(entries[line].0.as_str(), "..") {
                    return self.go_up();
                }
                if self.selected == Some(line) {
                    return self.enter_selected(root);
                }
                self.selected = Some(line);
                self.selection_action(root)
            },
            MouseKind::ScrollUp => self.navigate_list(-1, root),
            MouseKind::ScrollDown => self.navigate_list(1, root),
            MouseKind::Other => Vec::new(),
        }
    }

    /// Answers an input event.
    pub fn handle_input(&mut self, event: InputEvent, root: &DirTree) -> (r: Vec<Action>)
        requires
            tree_wf(*root),
        ensures
            match event {
                InputEvent::Key(k) => key_post(*old(self), *final(self), k.code, *root, r@),
                InputEvent::Mouse(m) => mouse_post(*old(self), *final(self), m, *root, r@),
            },
    {
        match event {
            InputEvent::Key(k) => self.handle_key(k.code, root),
            InputEvent::Mouse(m) => self.handle_mouse(m, root),
        }
    }
}

/// How a line of the listing is drawn, before scrolling: `..`, a directory
/// with a slash, a file with its size, date and method in columns.
pub open spec fn spec_row(p: (Seq<char>, Option<DirNode>)) -> Seq<char> {
    if p.0 == ".."@ {
        "  ../"@
    } else {
        match p.1 {
            Some(DirNode::Dir(_)) => "  "@ + p.0 + "/"@,
            Some(DirNode::File(e)) => "  "@ + pad_right(p.0, 35) + pad_left(
                spec_short_size(e.size as nat),
                10,
            ) + "  "@ + pad_right(
                match e.modified {
                    Some(d) => d@,
                    None => Seq::empty(),
                },
                17,
            ) + " "@ + e.method@ + "   "@,
            None => Seq::empty(),
        }
    }
}

/// The lines of the listing as drawn, scrolled left by `scroll` characters.
pub open spec fn spec_rows(l: Seq<(Seq<char>, Option<DirNode>)>, scroll: nat) -> Seq<Seq<char>> {
    l.map_values(|p: (Seq<char>, Option<DirNode>)| spec_clip(spec_row(p), scroll))
}

impl FileListTile {
    /// The tile's title: the archive's file name and the directory shown.
    pub fn title(&self, archive_path: &str) -> (r: String)
        ensures
            r@ == " "@ + (match file_name_of(archive_path@) {
                Some(n) => n,
                None => Seq::empty(),
            }) + " "@ + (if self.current_path@.len() == 0 {
                Seq::empty()
            } else {
                join_slash(name_views(self.current_path@)) + seq!['/']
            }),
    {
        let mut r = String::from_str(" ");
        match file_name(archive_path) {
            Some(n) => r.append(n.as_str()),
            None => {},
        }
        r.append(" ");
        let p = self.current_display_path();
        r.append(p.as_str());
        r
    }

    /// The lines of the listing as drawn.
    pub fn rows(&self, root: &DirTree) -> (r: Vec<String>)
        requires
            tree_wf(*root),
        ensures
            line_views(r@) == spec_rows(self.spec_listing(*root), self.horizontal_scroll as nat),
    {
        let entries = self.display_entries(root);
        let ghost l = self.spec_listing(*root);
        let mut r: Vec<String> = Vec::new();
        let mut i: usize = 0;
        while i < entries.len()
            invariant
                i <= entries@.len(),
                l == listing_view(entries@),
                l == self.spec_listing(*root),
                r@.len() == i,
                forall|j: int|
                    0 <= j < i ==> (#[trigger] r@[j])@ == spec_clip(
                        spec_row(l[j]),
                        self.horizontal_scroll as nat,
                    ),
            decreases entries.len() - i,
        {
            let (name, node) = &entries[i];
            let row = if str_eq(name.as_str(), "..") {
                String::from_str("  ../")
            } else {
                match node {
                    Some(DirNode::Dir(_)) => {
                        let mut s = String::from_str("  ");
                        s.append(name.as_str());
                        s.append("/");
                        s
                    },
                    Some(DirNode::File(e)) => {
                        let mut s = String::from_str("  ");
                        s.append(pad_right_string(name.as_str(), 35).as_str());
                        s.append(pad_left_string(format_size(e.size).as_str(), 10).as_str());
                        s.append("  ");
                        let date = match &e.modified {
                            Some(d) => pad_right_string(d.as_str(), 17),
                            None => pad_right_string("", 17),
                        };
                        proof {
                            reveal_strlit("");
                        }
                        s.append(date.as_str());
                        s.append(" ");
                        s.append(e.method.as_str());
                        s.append("   ");
                        s
                    },
                    None => String::new(),
                }
            };
            r.push(clip_str(row.as_str(), self.horizontal_scroll));
            i = i + 1;
        }
        assert(line_views(r@) =~= spec_rows(l, self.horizontal_scroll as nat));
        r
    }
}

/// A move through a list with lines leaves one of its lines selected.
pub proof fn law_move_stays_in_list(
    old: FileListTile,
    new: FileListTile,
    delta: int,
    root: DirTree,
    r: Seq<Action>,
)
    requires
        tree_wf(root),
        nav_post(old, new, delta, root, r),
        old.spec_listing(root).len() > 0,
    ensures
        new.selected matches Some(i) && i < new.spec_listing(root).len(),
{
}

/// Opening a directory and then going up shows again the directory one
/// started from, with nothing selected.
pub proof fn law_enter_then_up(
    t0: FileListTile,
    t1: FileListTile,
    t2: FileListTile,
    root: DirTree,
    r1: Seq<Action>,
    r2: Seq<Action>,
)
    requires
        tree_wf(root),
        t0.spec_selected_info(root) matches Some((name, is_dir)) && is_dir && name != ".."@,
        enter_post(t0, t1, root, r1),
        up_post(t1, t2, r2),
    ensures
        name_views(t2.current_path@) == name_views(t0.current_path@),
        t2.spec_listing(root) == t0.spec_listing(root),
        t2.selected is None,
{
    assert(name_views(t1.current_path@).len() == t1.current_path@.len());
    assert(t1.current_path@.len() > 0);
    assert(name_views(t2.current_path@) =~= name_views(t1.current_path@).drop_last());
    assert(name_views(t1.current_path@).drop_last() =~= name_views(t0.current_path@));
}

/// A move down and a move back up return to the line one started from when
/// the first move does not stop at the end of the list.
pub proof fn law_down_then_up(
    t0: FileListTile,
    t1: FileListTile,
    t2: FileListTile,
    root: DirTree,
    r1: Seq<Action>,
    r2: Seq<Action>,
)
    requires
        tree_wf(root),
        t0.selected matches Some(i) && i + 1 < t0.spec_listing(root).len() && i + 1 <= usize::MAX,
        nav_post(t0, t1, 1, root, r1),
        nav_post(t1, t2, -1, root, r2),
    ensures
        t2.selected == t0.selected,
        same_view(t0, t2),
{
    assert(t1.spec_listing(root) == t0.spec_listing(root));
    assert(t2.spec_listing(root) == t0.spec_listing(root));
}

/// The lines of a directory's preview.
pub fn child_line_strings(t: &DirTree) -> (r: Vec<String>)
    requires
        tree_wf(*t),
    ensures
        line_views(r@) == child_lines(*t),
{
    let sorted = t.sorted_entries();
    let ghost pairs = dir_children(t.children.entries@) + file_children(t.children.entries@);
    let mut r: Vec<String> = Vec::new();
    let mut i: usize = 0;
    while i < sorted.len()
        invariant
            i <= sorted@.len(),
            crate::tree::deref_pairs(sorted@) == pairs,
            r@.len() == i,
            forall|j: int| 0 <= j < i ==> (#[trigger] r@[j])@ == child_line(pairs[j]),
        decreases sorted.len() - i,
    {
        let (name, node) = sorted[i];
        assert(pairs[i as int] == (*name, *node));
        let line = match node {
            DirNode::Dir(_) => {
                let mut l = name.clone();
                push_char(&mut l, '/');
                l
            },
            DirNode::File(f) => {
                let mut l = pad_right_string(name.as_str(), 40);
                push_char(&mut l, ' ');
                let size = format_size(f.size);
                l.append(size.as_str());
                l
            },
        };
        r.push(line);
        i = i + 1;
    }
    assert(line_views(r@) =~= child_lines(*t));
    r
}

} // verus!
