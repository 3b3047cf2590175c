//! The properties tile: the fields of the selected file, or a summary of the
//! archive when no file is selected.
use vstd::prelude::*;

use crate::archive::ArchiveEntry;
use crate::path::{file_name, file_name_of};
use crate::text::{decimal, decimal_string, str_eq};
use crate::tui::action::Action;
use crate::tui::file_list::{format_size, spec_short_size};
use crate::tui::input::{InputEvent, KeyCode, MouseKind};
use crate::tui::scroll::sub_floor;

verus! {

/// The number of property lines.
pub const LINE_COUNT: usize = 6;

/// The properties tile.
pub struct PropertiesTile {
    pub selected_entry: Option<ArchiveEntry>,
    pub scroll: usize,
}

/// The index of the first entry named `name`.
pub open spec fn first_named(entries: Seq<ArchiveEntry>, name: Seq<char>) -> Option<int>
    decreases entries.len(),
{
    if entries.len() == 0 {
        None
    } else if entries[0].name@ == name {
        Some(0)
    } else {
        match first_named(entries.drop_first(), name) {
            Some(i) => Some(i + 1),
            None => None,
        }
    }
}

/// What a change of selection does to the tile: the scroll goes back to the
/// top; `..` and directories clear the entry; a file with a path selects the
/// first entry of that name, or none.
pub open spec fn properties_action_post(
    old: PropertiesTile,
    new: PropertiesTile,
    a: Action,
    entries: Seq<ArchiveEntry>,
) -> bool {
    match a {
        Action::SelectionChanged { name, is_dir, full_name, dir_entries } => {
            &&& new.scroll == 0
            &&& if name@ == ".."@ || is_dir {
                new.selected_entry is None
            } else if full_name@.len() > 0 {
                match first_named(entries, full_name@) {
                    Some(i) => new.selected_entry == Some(entries[i]),
                    None => new.selected_entry is None,
                }
            } else {
                new.selected_entry == old.selected_entry
            }
        },
        _ => new == old,
    }
}

/// The scroll position after a line down: at most the last line.
pub open spec fn line_down(s: int) -> int {
    if s < LINE_COUNT - 1 {
        s + 1
    } else {
        s
    }
}

/// The scroll position after ten lines down.
pub open spec fn lines_down(s: int, n: int) -> int {
    if s >= LINE_COUNT - 1 {
        s
    } else if s + n < LINE_COUNT - 1 {
        s + n
    } else {
        LINE_COUNT - 1
    }
}

/// What an input event does to the tile: keys and the wheel scroll it.
pub open spec fn properties_input_post(old: PropertiesTile, new: PropertiesTile, event: InputEvent) -> bool {
    let s = old.scroll as int;
    &&& new.selected_entry == old.selected_entry
    &&& match event {
        InputEvent::Key(k) => match k.code {
            KeyCode::Up => new.scroll == sub_floor(s, 1),
            KeyCode::Down => new.scroll == line_down(s),
            KeyCode::PageUp => new.scroll == sub_floor(s, 10),
            KeyCode::PageDown => new.scroll == lines_down(s, 10),
            KeyCode::Char(c) => if c == 'k' {
                new.scroll == sub_floor(s, 1)
            } else if c == 'j' {
                new.scroll == line_down(s)
            } else {
                new.scroll == s
            },
            _ => new.scroll == s,
        },
        InputEvent::Mouse(m) => match m.kind {
            MouseKind::ScrollUp => new.scroll == sub_floor(s, 1),
            MouseKind::ScrollDown => new.scroll == line_down(s),
            _ => new.scroll == s,
        },
    }
}

/// The six property lines of an entry, as label and value.
pub open spec fn entry_lines(e: ArchiveEntry) -> Seq<(Seq<char>, Seq<char>)> {
    seq![
        ("Name:   "@, e.name@),
        ("Size:   "@, spec_short_size(e.size as nat)),
        ("Comp:   "@, spec_short_size(e.compressed_size as nat)),
        ("Method: "@, e.method@),
        ("Type:   "@, if e.is_dir {
            "Dir"@
        } else {
            "File"@
        }),
        ("Date:   "@, match e.modified {
            Some(d) => d@,
            None => "-"@,
        }),
    ]
}

/// The number of entries that are files.
pub open spec fn file_count(entries: Seq<ArchiveEntry>) -> nat
    decreases entries.len(),
{
    if entries.len() == 0 {
        0
    } else {
        file_count(entries.drop_last()) + if entries.last().is_dir {
            0nat
        } else {
            1nat
        }
    }
}

/// The sum of the entries' sizes, or of their compressed sizes.
pub open spec fn size_sum(entries: Seq<ArchiveEntry>, compressed: bool) -> nat
    decreases entries.len(),
{
    if entries.len() == 0 {
        0
    } else {
        size_sum(entries.drop_last(), compressed) + if compressed {
            entries.last().compressed_size as nat
        } else {
            entries.last().size as nat
        }
    }
}

/// The name shown for the archive at `path`: its file name, or the whole path.
pub open spec fn archive_label(path: Seq<char>) -> Seq<char> {
    match file_name_of(path) {
        Some(n) => n,
        None => path,
    }
}

/// The six summary lines of an archive.
pub open spec fn summary_lines(entries: Seq<ArchiveEntry>, path: Seq<char>) -> Seq<(Seq<char>, Seq<char>)> {
    let files = file_count(entries);
    seq![
        ("Archive:"@, archive_label(path)),
        ("Entries:"@, decimal(entries.len())),
        ("Files:  "@, decimal(files)),
        ("Dirs:   "@, decimal((entries.len() - files) as nat)),
        ("Size:   "@, spec_short_size(size_sum(entries, false))),
        ("Comp:   "@, spec_short_size(size_sum(entries, true))),
    ]
}

/// Label and value pairs as text.
pub open spec fn pair_views(v: Seq<(String, String)>) -> Seq<(Seq<char>, Seq<char>)> {
    v.map_values(|p: (String, String)| (p.0@, p.1@))
}

/// The pair of a label and a value.
fn pair(label: &str, value: String) -> (r: (String, String))
    ensures
        r.0@ == label@,
        r.1@ == value@,
{
    (String::from_str(label), value)
}

impl PropertiesTile {
    /// A tile with nothing selected, scrolled to the top.
    pub fn new() -> (r: PropertiesTile)
        ensures
            r.selected_entry is None,
            r.scroll == 0,
    {
        PropertiesTile { selected_entry: None, scroll: 0 }
    }

    /// Back to nothing selected, as after new entries.
    pub fn reset(&mut self)
        ensures
            final(self).selected_entry is None,
            final(self).scroll == 0,
    {
        self.selected_entry = None;
        self.scroll = 0;
    }

    /// The number of property lines.
    pub fn line_count(&self) -> (r: usize)
        ensures
            r == LINE_COUNT,
    {
        LINE_COUNT
    }

    /// One line up.
    pub fn scroll_up(&mut self)
        ensures
            final(self).scroll == sub_floor(old(self).scroll as int, 1),
            final(self).selected_entry == old(self).selected_entry,
    {
        self.scroll = self.scroll.saturating_sub(1);
    }

    /// One line down, at most to the last line.
    pub fn scroll_down(&mut self)
        ensures
            final(self).scroll == line_down(old(self).scroll as int),
            final(self).selected_entry == old(self).selected_entry,
    {
        let max = self.line_count() - 1;
        if self.scroll < max {
            self.scroll = self.scroll + 1;
        }
    }

    /// Answers a change of selection, looking the file up in `entries`.
    pub fn handle_action(&mut self, action: &Action, entries: &Vec<ArchiveEntry>)
        ensures
            properties_action_post(*old(self), *final(self), *action, entries@),
    {
        if let Action::SelectionChanged { name, is_dir, full_name, .. } = action {
            self.scroll = 0;
            if str_eq(name.as_str(), "..") || *is_dir {
                self.selected_entry = None;
            } else if full_name.unicode_len() > 0 {
                self.selected_entry = match find_named(entries, full_name.as_str()) {
                    Some(i) => Some(entries[i].duplicate()),
                    None => None,
                };
            }
        }
    }

    /// Answers an input event by scrolling; the tile raises no action.
    pub fn handle_input(&mut self, event: InputEvent) -> (r: Vec<Action>)
        ensures
            properties_input_post(*old(self), *final(self), event),
            r@.len() == 0,
    {
        match event {
            InputEvent::Key(k) => match k.code {
                KeyCode::Up => self.scroll_up(),
                KeyCode::Down => self.scroll_down(),
                KeyCode::PageUp => {
                    let ghost s = self.scroll as int;
                    let mut k: usize = 0;
                    while k < 10
                        invariant
                            k <= 10,
                            self.scroll == sub_floor(s, k as int),
                            self.selected_entry == old(self).selected_entry,
                        decreases 10 - k,
                    {
                        self.scroll_up();
                        k = k + 1;
                    }
                },
                KeyCode::PageDown => {
                    let ghost s = self.scroll as int;
                    let mut k: usize = 0;
                    while k < 10
                        invariant
                            k <= 10,
                            self.scroll == lines_down(s, k as int),
                            self.selected_entry == old(self).selected_entry,
                        decreases 10 - k,
                    {
                        self.scroll_down();
                        k = k + 1;
                    }
                },
                KeyCode::Char(c) => {
                    if c == 'k' {
                        self.scroll_up();
                    } else if c == 'j' {
                        self.scroll_down();
                    }
                },
                _ => {},
            },
            InputEvent::Mouse(m) => match m.kind {
                MouseKind::ScrollUp => self.scroll_up(),
                MouseKind::ScrollDown => self.scroll_down(),
                _ => {},
            },
        }
        Vec::new()
    }

    /// The property lines: those of the selected entry, or the summary of the
    /// archive at `archive_path` with `entries`.
    pub fn lines(&self, entries: &Vec<ArchiveEntry>, archive_path: &str) -> (r: Vec<(String, String)>)
        requires
            self.selected_entry is None ==> size_sum(entries@, false) <= u64::MAX,
            self.selected_entry is None ==> size_sum(entries@, true) <= u64::MAX,
        ensures
            pair_views(r@) == match self.selected_entry {
                Some(e) => entry_lines(e),
                None => summary_lines(entries@, archive_path@),
            },
    {
        let mut r: Vec<(String, String)> = Vec::new();
        match &self.selected_entry {
            Some(e) => {
                r.push(pair("Name:   ", e.name.clone()));
                r.push(pair("Size:   ", format_size(e.size)));
                r.push(pair("Comp:   ", format_size(e.compressed_size)));
                r.push(pair("Method: ", e.method.clone()));
                r.push(
                    pair(
                        "Type:   ",
                        String::from_str(
                            if e.is_dir {
                                "Dir"
                            } else {
                                "File"
                            },
                        ),
                    ),
                );
                r.push(
                    pair(
                        "Date:   ",
                        match &e.modified {
                            Some(d) => d.clone(),
                            None => String::from_str("-"),
                        },
                    ),
                );
                assert(pair_views(r@) =~= entry_lines(*e));
            },
            None => {
                let mut files: usize = 0;
                let mut total: u64 = 0;
                let mut comp: u64 = 0;
                let mut i: usize = 0;
                while i < entries.len()
                    invariant
                        i <= entries@.len(),
                        size_sum(entries@, false) <= u64::MAX,
                        size_sum(entries@, true) <= u64::MAX,
                        files == file_count(entries@.subrange(0, i as int)),
                        files <= i,
                        total == size_sum(entries@.subrange(0, i as int), false),
                        comp == size_sum(entries@.subrange(0, i as int), true),
                    decreases entries.len() - i,
                {
                    proof {
                        assert(entries@.subrange(0, i + 1).drop_last() =~= entries@.subrange(0, i as int));
                        lemma_size_sum_prefix(entries@, i + 1, false);
                        lemma_size_sum_prefix(entries@, i + 1, true);
                    }
                    if !entries[i].is_dir {
                        files = files + 1;
                    }
                    total = total + entries[i].size;
                    comp = comp + entries[i].compressed_size;
                    i = i + 1;
                }
                assert(entries@.subrange(0, entries@.len() as int) =~= entries@);
                let label = match file_name(archive_path) {
                    Some(n) => n,
                    None => String::from_str(archive_path),
                };
                r.push(pair("Archive:", label));
                r.push(pair("Entries:", decimal_string(entries.len() as u128)));
                r.push(pair("Files:  ", decimal_string(files as u128)));
                r.push(pair("Dirs:   ", decimal_string((entries.len() - files) as u128)));
                r.push(pair("Size:   ", format_size(total)));
                r.push(pair("Comp:   ", format_size(comp)));
                assert(pair_views(r@) =~= summary_lines(entries@, archive_path@));
            },
        }
        r
    }

    /// The lines shown in `visible` rows: from the scroll position, at most to
    /// the last line.
    pub fn visible_range(&self, visible: usize) -> (r: (usize, usize))
        ensures
            r.0 == self.scroll,
            r.1 == (if self.scroll + visible < LINE_COUNT {
                self.scroll + visible
            } else {
                LINE_COUNT as int
            }),
    {
        let end = if visible < LINE_COUNT && self.scroll < LINE_COUNT - visible {
            self.scroll + visible
        } else {
            LINE_COUNT
        };
        (self.scroll, end)
    }
}

/// The position of the first entry named `name`.
fn find_named(entries: &Vec<ArchiveEntry>, name: &str) -> (r: Option<usize>)
    ensures
        r matches Some(i) ==> first_named(entries@, name@) == Some(i as int) && i < entries@.len(),
        r is None ==> first_named(entries@, name@) is None,
{
    let mut i: usize = 0;
    assert(entries@.skip(0) =~= entries@);
    while i < entries.len()
        invariant
            i <= entries@.len(),
            first_named(entries@, name@) == (match first_named(entries@.skip(i as int), name@) {
                Some(j) => Some(j + i),
                None => None,
            }),
        decreases entries.len() - i,
    {
        assert(entries@.skip(i as int).drop_first() =~= entries@.skip(i + 1));
        if str_eq(entries[i].name.as_str(), name) {
            return Some(i);
        }
        i = i + 1;
    }
    assert(entries@.skip(i as int) =~= Seq::<ArchiveEntry>::empty());
    None
}

/// The sums over a prefix stay within the sum over the whole.
pub proof fn lemma_size_sum_prefix(entries: Seq<ArchiveEntry>, i: int, compressed: bool)
    requires
        0 <= i <= entries.len(),
    ensures
        size_sum(entries.subrange(0, i), compressed) <= size_sum(entries, compressed),
    decreases entries.len(),
{
    if i < entries.len() {
        lemma_size_sum_prefix(entries.drop_last(), i, compressed);
        assert(entries.drop_last().subrange(0, i) =~= entries.subrange(0, i));
    } else {
        assert(entries.subrange(0, i) =~= entries);
    }
}


/// The summary of one entry shows that entry: one entry, one file or one
/// directory, its size on the Size line and its compressed size on the Comp
/// line.
pub proof fn law_summary_of_one_entry(e: ArchiveEntry, path: Seq<char>)
    ensures
        summary_lines(seq![e], path)[1] == ("Entries:"@, decimal(1)),
        summary_lines(seq![e], path)[2] == ("Files:  "@, decimal(if e.is_dir { 0nat } else { 1nat })),
        summary_lines(seq![e], path)[3] == ("Dirs:   "@, decimal(if e.is_dir { 1nat } else { 0nat })),
        summary_lines(seq![e], path)[4] == ("Size:   "@, spec_short_size(e.size as nat)),
        summary_lines(seq![e], path)[5] == ("Comp:   "@, spec_short_size(e.compressed_size as nat)),
{
    let one = seq![e];
    assert(one.drop_last() =~= Seq::<ArchiveEntry>::empty());
    assert(one.last() == e);
    assert(file_count(one.drop_last()) == 0);
    assert(size_sum(one.drop_last(), false) == 0);
    assert(size_sum(one.drop_last(), true) == 0);
    assert(file_count(one) == if e.is_dir {
        0nat
    } else {
        1nat
    });
    assert(size_sum(one, false) == e.size as nat);
    assert(size_sum(one, true) == e.compressed_size as nat);
}

proof fn lemma_sums_follow_fields(a: Seq<ArchiveEntry>, b: Seq<ArchiveEntry>)
    requires
        a.len() == b.len(),
    ensures
        (forall|i: int| 0 <= i < a.len() ==> (#[trigger] a[i]).size == b[i].size) ==> size_sum(a, false)
            == size_sum(b, false),
        (forall|i: int| 0 <= i < a.len() ==> (#[trigger] a[i]).compressed_size == b[i].compressed_size)
            ==> size_sum(a, true) == size_sum(b, true),
    decreases a.len(),
{
    if a.len() > 0 {
        lemma_sums_follow_fields(a.drop_last(), b.drop_last());
        assert forall|i: int| 0 <= i < a.drop_last().len() implies a.drop_last()[i] == a[i] && b.drop_last()[i]
            == b[i] by {}
        assert(a.last() == a[a.len() - 1] && b.last() == b[b.len() - 1]);
    }
}

/// The Size line reads the entries' sizes alone and the Comp line their
/// compressed sizes alone: entries that agree in those show the same line.
pub proof fn law_size_lines_read_their_own_fields(a: Seq<ArchiveEntry>, b: Seq<ArchiveEntry>, path: Seq<char>)
    requires
        a.len() == b.len(),
    ensures
        (forall|i: int| 0 <= i < a.len() ==> (#[trigger] a[i]).size == b[i].size) ==> summary_lines(a, path)[4]
            == summary_lines(b, path)[4],
        (forall|i: int| 0 <= i < a.len() ==> (#[trigger] a[i]).compressed_size == b[i].compressed_size)
            ==> summary_lines(a, path)[5] == summary_lines(b, path)[5],
{
    lemma_sums_follow_fields(a, b);
}

} // verus!
