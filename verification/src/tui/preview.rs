//! The preview tile: what it shows of the selected entry, the previews it has
//! loaded before, and how far its text is scrolled.
use vstd::prelude::*;

use crate::text::str_eq;
use crate::tui::action::Action;
use crate::tui::context::{
    named_blank, preview_model, spans_model, strings_model, PreviewModel, SidePreview, StyledSpan,
};
use crate::tui::input::{in_area, spec_in_area, Area, InputEvent, KeyCode, MouseKind};
use crate::tui::scroll::{scrolled_down, scrolled_down_by, sub_floor, ScrollState};

verus! {

/// The preview tile.
pub struct PreviewTile {
    pub content: SidePreview,
    pub cache: Vec<(String, SidePreview)>,
    pub scroll: ScrollState,
    pub area: Area,
}

/// The loaded previews by entry path; a later load of a path replaces an
/// earlier one.
pub open spec fn cache_model(c: Seq<(String, SidePreview)>) -> Map<Seq<char>, PreviewModel>
    decreases c.len(),
{
    if c.len() == 0 {
        Map::empty()
    } else {
        cache_model(c.drop_last()).insert(c.last().0@, preview_model(c.last().1))
    }
}

/// Entries after position `i` that do not have the key leave its lookup to the
/// entries before.
proof fn lemma_cache_prefix(c: Seq<(String, SidePreview)>, i: int, key: Seq<char>)
    requires
        0 <= i <= c.len(),
        forall|j: int| i <= j < c.len() ==> (#[trigger] c[j]).0@ != key,
    ensures
        cache_model(c).contains_key(key) == cache_model(c.subrange(0, i)).contains_key(key),
        cache_model(c).contains_key(key) ==> cache_model(c)[key] == cache_model(c.subrange(0, i))[key],
    decreases c.len(),
{
    if i < c.len() {
        lemma_cache_prefix(c.drop_last(), i, key);
        assert(c.drop_last().subrange(0, i) =~= c.subrange(0, i));
    } else {
        assert(c.subrange(0, i) =~= c);
    }
}

/// The model of a directory's preview: its name and the lines of its children.
pub open spec fn dir_model(name: Seq<char>, entries: Seq<Seq<char>>) -> PreviewModel {
    (Seq::empty(), Seq::empty(), name, false, true, false, entries, None)
}

/// The cache, scroll and area are as before.
pub open spec fn keeps_state(old: PreviewTile, new: PreviewTile) -> bool {
    &&& new.cache@ == old.cache@
    &&& new.scroll == old.scroll
    &&& new.area == old.area
}

/// What a change of selection shows: nothing for no selection or `..`, the
/// listing of a directory when one came with it, the loaded preview of a file
/// when there is one, else only the file's name.
pub open spec fn selection_post(
    old: PreviewTile,
    new: PreviewTile,
    name: Seq<char>,
    is_dir: bool,
    full_name: Seq<char>,
    dir_entries: Option<Seq<Seq<char>>>,
) -> bool {
    &&& keeps_state(old, new)
    &&& if name.len() == 0 || name == ".."@ {
        named_blank(new.content, Seq::empty())
    } else if is_dir {
        match dir_entries {
            Some(e) => preview_model(new.content) == dir_model(name, e),
            None => new.content == old.content,
        }
    } else if cache_model(old.cache@).contains_key(full_name) {
        preview_model(new.content) == cache_model(old.cache@)[full_name]
    } else {
        named_blank(new.content, name)
    }
}

/// What a loaded preview does: it is kept for the path, shown, and shown from
/// the top.
pub open spec fn loaded_post(old: PreviewTile, new: PreviewTile, full_name: Seq<char>, p: PreviewModel) -> bool {
    &&& cache_model(new.cache@) == cache_model(old.cache@).insert(full_name, p)
    &&& preview_model(new.content) == p
    &&& new.scroll.v_scroll == 0 && new.scroll.h_scroll == 0 && new.scroll.last_viewport == 0
    &&& new.area == old.area
}

/// The lines of an optional listing.
pub open spec fn listing_model(e: Option<Vec<String>>) -> Option<Seq<Seq<char>>> {
    match e {
        Some(v) => Some(strings_model(v)),
        None => None,
    }
}

/// What an action does to the preview tile.
pub open spec fn preview_action_post(old: PreviewTile, new: PreviewTile, a: Action) -> bool {
    match a {
        Action::SelectionChanged { name, is_dir, full_name, dir_entries } => selection_post(
            old,
            new,
            name@,
            is_dir,
            full_name@,
            listing_model(dir_entries),
        ),
        Action::PreviewLoaded { full_name, preview } => loaded_post(
            old,
            new,
            full_name@,
            preview_model(preview),
        ),
        _ => new == old,
    }
}

/// Only the vertical scroll changed, to `v`.
pub open spec fn scrolled_to(old: PreviewTile, new: PreviewTile, v: int) -> bool {
    &&& new.content == old.content
    &&& new.cache@ == old.cache@
    &&& new.area == old.area
    &&& new.scroll.v_scroll == v
    &&& new.scroll.h_scroll == old.scroll.h_scroll
    &&& new.scroll.last_viewport == old.scroll.last_viewport
}

/// What an input event does to the preview tile: keys and the wheel over the
/// tile scroll its text.
pub open spec fn preview_input_post(old: PreviewTile, new: PreviewTile, event: InputEvent) -> bool {
    let v = old.scroll.v_scroll as int;
    let total = old.content.lines@.len() as int;
    let viewport = old.scroll.last_viewport as int;
    match event {
        InputEvent::Key(k) => match k.code {
            KeyCode::Up => scrolled_to(old, new, sub_floor(v, 1)),
            KeyCode::Down => scrolled_to(old, new, scrolled_down(v, total, viewport)),
            KeyCode::PageUp => scrolled_to(old, new, sub_floor(v, 20)),
            KeyCode::PageDown => scrolled_to(old, new, scrolled_down_by(v, total, viewport, 20)),
            KeyCode::Char(c) => if c == 'k' {
                scrolled_to(old, new, sub_floor(v, 1))
            } else if c == 'j' {
                scrolled_to(old, new, scrolled_down(v, total, viewport))
            } else {
                new == old
            },
            _ => new == old,
        },
        InputEvent::Mouse(m) => if !spec_in_area(m.column, m.row, old.area) {
            new == old
        } else {
            match m.kind {
                MouseKind::ScrollUp => scrolled_to(old, new, sub_floor(v, 1)),
                MouseKind::ScrollDown => scrolled_to(old, new, scrolled_down(v, total, viewport)),
                _ => new == old,
            }
        },
    }
}

/// What the tile's body shows.
#[derive(Debug, Clone, Copy, PartialEq, Eq, Structural)]
pub enum PreviewBody {
    /// Nothing is selected.
    Prompt,
    /// A directory's listing.
    Directory,
    /// A binary file.
    Binary,
    /// A file whose preview is not loaded.
    NotLoaded,
    /// Lines `start..end` of the text, a truncation mark, and the furthest
    /// scroll position when there is a scrollbar.
    Text { start: usize, end: usize, truncated: bool, scrollbar: Option<usize> },
}

impl PreviewBody {
    /// The message a body without text shows.
    pub fn message(&self) -> (r: &'static str)
        ensures
            r@ == match self {
                PreviewBody::Prompt => "  Select a file to preview"@,
                PreviewBody::Binary => "  Binary file - cannot preview"@,
                PreviewBody::NotLoaded => "  Press Enter to preview"@,
                _ => ""@,
            },
    {
        match self {
            PreviewBody::Prompt => "  Select a file to preview",
            PreviewBody::Binary => "  Binary file - cannot preview",
            PreviewBody::NotLoaded => "  Press Enter to preview",
            _ => "",
        }
    }
}

/// The window of `total` lines shown in `visible` rows from `v`: the scroll
/// position pulled back so the last line is at the bottom at the furthest.
pub open spec fn window_start(v: int, total: int, visible: int) -> int {
    let m = if total > visible {
        total - visible
    } else {
        0
    };
    if v < m {
        v
    } else {
        m
    }
}

impl PreviewTile {
    /// An empty tile.
    pub fn new() -> (r: PreviewTile)
        ensures
            named_blank(r.content, Seq::empty()),
            r.cache@.len() == 0,
            r.scroll.v_scroll == 0 && r.scroll.h_scroll == 0 && r.scroll.last_viewport == 0,
            r.area == (Area { x: 0, y: 0, width: 0, height: 0 }),
    {
        PreviewTile {
            content: SidePreview::empty(),
            cache: Vec::new(),
            scroll: ScrollState::new(),
            area: Area { x: 0, y: 0, width: 0, height: 0 },
        }
    }

    /// Records the area the tile was last drawn in.
    pub fn set_area(&mut self, area: Area)
        ensures
            final(self).area == area,
            final(self).content == old(self).content,
            final(self).cache == old(self).cache,
            final(self).scroll == old(self).scroll,
    {
        self.area = area;
    }

    /// The loaded preview of `key`, if there is one.
    pub fn cached(&self, key: &str) -> (r: Option<SidePreview>)
        ensures
            r is Some == cache_model(self.cache@).contains_key(key@),
            r matches Some(p) ==> preview_model(p) == cache_model(self.cache@)[key@],
    {
        let mut i: usize = self.cache.len();
        while i > 0
            invariant
                i <= self.cache@.len(),
                forall|j: int| i <= j < self.cache@.len() ==> (#[trigger] self.cache@[j]).0@ != key@,
            decreases i,
        {
            let (k, p) = &self.cache[i - 1];
            if str_eq(k.as_str(), key) {
                proof {
                    lemma_cache_prefix(self.cache@, i as int, key@);
                    assert(self.cache@.subrange(0, i as int).drop_last() =~= self.cache@.subrange(
                        0,
                        i - 1,
                    ));
                }
                return Some(p.duplicate());
            }
            i = i - 1;
        }
        proof {
            lemma_cache_prefix(self.cache@, 0, key@);
        }
        None
    }

    /// Shows what a change of selection calls for.
    pub fn handle_selection_changed(
        &mut self,
        name: &str,
        is_dir: bool,
        full_name: &str,
        dir_entries: Option<&Vec<String>>,
    )
        ensures
            selection_post(
                *old(self),
                *final(self),
                name@,
                is_dir,
                full_name@,
                match dir_entries {
                    Some(e) => Some(strings_model(*e)),
                    None => None,
                },
            ),
    {
        if name.unicode_len() == 0 || str_eq(name, "..") {
            self.content = SidePreview::empty();
            return ;
        }
        if is_dir {
            if let Some(entries) = dir_entries {
                let copy = entries.clone();
                assert(copy@ =~= entries@);
                self.content = SidePreview::dir(name, copy);
                assert(strings_model(self.content.lines) =~= Seq::empty());
                assert(self.content.highlighted@.map_values(|l: Vec<StyledSpan>| spans_model(l))
                    =~= Seq::empty());
                assert(strings_model(self.content.dir_entries) =~= strings_model(*entries));
            }
            return ;
        }
        self.content = match self.cached(full_name) {
            Some(p) => p,
            None => SidePreview::empty_with_name(name),
        };
    }

    /// Keeps a loaded preview for its path and shows it from the top.
    pub fn handle_preview_loaded(&mut self, full_name: String, preview: SidePreview)
        ensures
            loaded_post(*old(self), *final(self), full_name@, preview_model(preview)),
    {
        let copy = preview.duplicate();
        let ghost before = self.cache@;
        self.cache.push((full_name, copy));
        assert(self.cache@.drop_last() =~= before);
        self.content = preview;
        self.scroll.reset();
    }

    /// Answers an action: selection changes and loaded previews.
    pub fn handle_action(&mut self, action: &Action)
        ensures
            preview_action_post(*old(self), *final(self), *action),
    {
        match action {
            Action::SelectionChanged { name, is_dir, full_name, dir_entries } => {
                self.handle_selection_changed(
                    name.as_str(),
                    *is_dir,
                    full_name.as_str(),
                    match dir_entries {
                        Some(e) => Some(e),
                        None => None,
                    },
                );
            },
            Action::PreviewLoaded { full_name, preview } => {
                self.handle_preview_loaded(full_name.clone(), preview.duplicate());
            },
            _ => {},
        }
    }

    /// Forgets every loaded preview and shows nothing.
    pub fn clear_cache(&mut self)
        ensures
            final(self).cache@.len() == 0,
            named_blank(final(self).content, Seq::empty()),
            final(self).scroll == old(self).scroll,
            final(self).area == old(self).area,
    {
        self.cache = Vec::new();
        self.content = SidePreview::empty();
    }

    /// Whether focus may move to the tile: it shows a directory or text.
    pub fn focusable(&self) -> (r: bool)
        ensures
            r == (self.content.is_dir || self.content.lines@.len() > 0),
    {
        self.content.is_dir || self.content.lines.len() > 0
    }

    /// Answers an input event by scrolling; the tile raises no action.
    pub fn handle_input(&mut self, event: InputEvent) -> (r: Vec<Action>)
        ensures
            preview_input_post(*old(self), *final(self), event),
            r@.len() == 0,
    {
        let total = self.content.lines.len();
        match event {
            InputEvent::Key(k) => match k.code {
                KeyCode::Up => self.scroll.scroll_up(),
                KeyCode::Down => self.scroll.scroll_down(total),
                KeyCode::PageUp => self.scroll.scroll_page_up(),
                KeyCode::PageDown => self.scroll.scroll_page_down(total),
                KeyCode::Char(c) => {
                    if c == 'k' {
                        self.scroll.scroll_up();
                    } else if c == 'j' {
                        self.scroll.scroll_down(total);
                    }
                },
                _ => {},
            },
            InputEvent::Mouse(m) => {
                if in_area(m.column, m.row, self.area) {
                    match m.kind {
                        MouseKind::ScrollUp => self.scroll.scroll_up(),
                        MouseKind::ScrollDown => self.scroll.scroll_down(total),
                        _ => {},
                    }
                }
            },
        }
        Vec::new()
    }

    /// The tile's title: the name, with the detected encoding in brackets.
    pub fn title(&self) -> (r: String)
        ensures
            r@ == (if self.content.name@.len() == 0 {
                " Preview "@
            } else {
                match self.content.encoding_detected {
                    Some(e) => " "@ + self.content.name@ + " ["@ + e@ + "] "@,
                    None => " "@ + self.content.name@ + " "@,
                }
            }),
    {
        if self.content.name.unicode_len() == 0 {
            return String::from_str(" Preview ");
        }
        let mut r = String::from_str(" ");
        r.append(self.content.name.as_str());
        match &self.content.encoding_detected {
            Some(e) => {
                r.append(" [");
                r.append(e.as_str());
                r.append("] ");
            },
            None => {
                r.append(" ");
            },
        }
        r
    }

    /// Lays the body out in `visible` rows: what it shows and, for text, the
    /// lines shown; the scroll position is pulled back to fit and the viewport
    /// recorded.
    pub fn layout(&mut self, visible: usize) -> (r: PreviewBody)
        ensures
            final(self).content == old(self).content,
            final(self).cache@ == old(self).cache@,
            final(self).area == old(self).area,
            final(self).scroll.h_scroll == old(self).scroll.h_scroll,
            ({
                let c = old(self).content;
                let total = c.lines@.len() as int;
                if c.name@.len() == 0 {
                    r == PreviewBody::Prompt && final(self).scroll == old(self).scroll
                } else if c.is_dir {
                    r == PreviewBody::Directory && final(self).scroll == old(self).scroll
                } else if c.is_binary {
                    r == PreviewBody::Binary && final(self).scroll == old(self).scroll
                } else if total == 0 {
                    r == PreviewBody::NotLoaded && final(self).scroll == old(self).scroll
                } else {
                    let start = window_start(old(self).scroll.v_scroll as int, total, visible as int);
                    &&& final(self).scroll.v_scroll == start
                    &&& final(self).scroll.last_viewport == visible
                    &&& r == PreviewBody::Text {
                        start: start as usize,
                        end: (if start + visible < total {
                            start + visible
                        } else {
                            total
                        }) as usize,
                        truncated: c.is_truncated,
                        scrollbar: if total > visible {
                            Some((total - visible) as usize)
                        } else {
                            None
                        },
                    }
                }
            }),
    {
        if self.content.name.unicode_len() == 0 {
            return PreviewBody::Prompt;
        }
        if self.content.is_dir {
            return PreviewBody::Directory;
        }
        if self.content.is_binary {
            return PreviewBody::Binary;
        }
        let total = self.content.lines.len();
        if total == 0 {
            return PreviewBody::NotLoaded;
        }
        let max = total.saturating_sub(visible);
        if self.scroll.v_scroll > max {
            self.scroll.v_scroll = max;
        }
        let start = self.scroll.v_scroll;
        let end = if total - start > visible {
            start + visible
        } else {
            total
        };
        let scrollbar = self.scroll.fit_viewport(total, visible);
        PreviewBody::Text { start, end, truncated: self.content.is_truncated, scrollbar }
    }
}

/// A preview, once loaded, is shown again when its file is selected again,
/// whatever was selected in between that loaded nothing.
pub proof fn law_loaded_preview_is_shown_again(
    t0: PreviewTile,
    t1: PreviewTile,
    t2: PreviewTile,
    t3: PreviewTile,
    full_name: Seq<char>,
    p: PreviewModel,
    name: Seq<char>,
    other: (Seq<char>, bool, Seq<char>, Option<Seq<Seq<char>>>),
)
    requires
        loaded_post(t0, t1, full_name, p),
        selection_post(t1, t2, other.0, other.1, other.2, other.3),
        name.len() > 0,
        name != ".."@,
        selection_post(t2, t3, name, false, full_name, None),
    ensures
        preview_model(t3.content) == p,
{
}

} // verus!
