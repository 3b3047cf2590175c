//! What the whole browser shares: its mode, a pending action, and the preview
//! of the selected entry.
use vstd::prelude::*;

verus! {

/// The largest number of bytes read for a preview.
pub const MAX_PREVIEW_BYTES: usize = 131072;

/// The largest number of characters shown in a preview.
pub const MAX_PREVIEW_CHARS: usize = 32768;

/// What the browser is doing: browsing, or waiting in a popup.
#[derive(Debug, Clone, Copy, PartialEq, Eq, Structural)]
pub enum Mode {
    Browse,
    Password,
    ExtractDest,
    Help,
    Encoding,
}

/// What a password, once entered, is for.
#[derive(Debug, Clone, Copy, PartialEq, Eq, Structural)]
pub enum PendingAction {
    Extract,
    InitialLoad,
}

/// A piece of highlighted text: the text and its style; a span without a
/// colour is drawn in the default style.
#[derive(Debug, Clone)]
pub struct StyledSpan {
    pub text: String,
    pub color: Option<(u8, u8, u8)>,
    pub bold: bool,
    pub italic: bool,
    pub underlined: bool,
}

/// What the preview tile shows for the selected entry.
#[derive(Debug, Clone)]
pub struct SidePreview {
    pub lines: Vec<String>,
    pub highlighted: Vec<Vec<StyledSpan>>,
    pub name: String,
    pub is_binary: bool,
    pub is_dir: bool,
    pub is_truncated: bool,
    pub dir_entries: Vec<String>,
    pub encoding_detected: Option<String>,
}

/// A preview with only a name: every other field empty or false.
pub open spec fn named_blank(p: SidePreview, name: Seq<char>) -> bool {
    &&& p.name@ == name
    &&& p.lines@.len() == 0
    &&& p.highlighted@.len() == 0
    &&& !p.is_binary
    &&& !p.is_dir
    &&& !p.is_truncated
    &&& p.dir_entries@.len() == 0
    &&& p.encoding_detected is None
}

impl SidePreview {
    /// The empty preview, shown when nothing is selected.
    pub fn empty() -> (r: SidePreview)
        ensures
            named_blank(r, Seq::empty()),
    {
        SidePreview {
            lines: Vec::new(),
            highlighted: Vec::new(),
            name: String::new(),
            is_binary: false,
            is_dir: false,
            is_truncated: false,
            dir_entries: Vec::new(),
            encoding_detected: None,
        }
    }

    /// The preview of a binary file: only its name and the binary mark.
    pub fn binary(name: &str) -> (r: SidePreview)
        ensures
            r.name@ == name@,
            r.is_binary,
            !r.is_dir,
            !r.is_truncated,
            r.lines@.len() == 0,
            r.highlighted@.len() == 0,
            r.dir_entries@.len() == 0,
            r.encoding_detected is None,
    {
        let mut r = SidePreview::empty();
        r.name = String::from_str(name);
        r.is_binary = true;
        r
    }

    /// The preview of a text file.
    pub fn file(
        name: &str,
        lines: Vec<String>,
        highlighted: Vec<Vec<StyledSpan>>,
        is_truncated: bool,
        encoding_detected: Option<String>,
    ) -> (r: SidePreview)
        ensures
            r.name@ == name@,
            r.lines == lines,
            r.highlighted == highlighted,
            r.is_truncated == is_truncated,
            r.encoding_detected == encoding_detected,
            !r.is_binary,
            !r.is_dir,
            r.dir_entries@.len() == 0,
    {
        SidePreview {
            lines,
            highlighted,
            name: String::from_str(name),
            is_binary: false,
            is_dir: false,
            is_truncated,
            dir_entries: Vec::new(),
            encoding_detected,
        }
    }

    /// The preview of a directory: the lines listing its children.
    pub fn dir(name: &str, dir_entries: Vec<String>) -> (r: SidePreview)
        ensures
            r.name@ == name@,
            r.is_dir,
            r.dir_entries == dir_entries,
            !r.is_binary,
            !r.is_truncated,
            r.lines@.len() == 0,
            r.highlighted@.len() == 0,
            r.encoding_detected is None,
    {
        let mut r = SidePreview::empty();
        r.name = String::from_str(name);
        r.is_dir = true;
        r.dir_entries = dir_entries;
        r
    }

    /// A preview that only names the selected file, not yet loaded.
    pub fn empty_with_name(name: &str) -> (r: SidePreview)
        ensures
            named_blank(r, name@),
    {
        let mut r = SidePreview::empty();
        r.name = String::from_str(name);
        r
    }
}

/// A span as plain values: its text, colour (red, green, blue) if it has one,
/// and style marks.
pub type SpanModel = (Seq<char>, Option<(u8, u8, u8)>, bool, bool, bool);

/// A preview as plain values: lines, highlighted lines, name, the binary,
/// directory and truncation marks, directory lines, detected encoding.
pub type PreviewModel = (
    Seq<Seq<char>>,
    Seq<Seq<SpanModel>>,
    Seq<char>,
    bool,
    bool,
    bool,
    Seq<Seq<char>>,
    Option<Seq<char>>,
);

/// The plain values of a span.
pub open spec fn span_model(s: StyledSpan) -> SpanModel {
    (s.text@, s.color, s.bold, s.italic, s.underlined)
}

/// The plain values of a highlighted line.
pub open spec fn spans_model(l: Vec<StyledSpan>) -> Seq<SpanModel> {
    l@.map_values(|s: StyledSpan| span_model(s))
}

/// The texts of a list of strings.
pub open spec fn strings_model(v: Vec<String>) -> Seq<Seq<char>> {
    v@.map_values(|s: String| s@)
}

/// The plain values of a preview.
pub open spec fn preview_model(p: SidePreview) -> PreviewModel {
    (
        strings_model(p.lines),
        p.highlighted@.map_values(|l: Vec<StyledSpan>| spans_model(l)),
        p.name@,
        p.is_binary,
        p.is_dir,
        p.is_truncated,
        strings_model(p.dir_entries),
        match p.encoding_detected {
            Some(e) => Some(e@),
            None => None,
        },
    )
}

impl StyledSpan {
    /// A field-by-field copy of the span.
    pub fn duplicate(&self) -> (r: StyledSpan)
        ensures
            r == *self,
    {
        StyledSpan {
            text: self.text.clone(),
            color: self.color,
            bold: self.bold,
            italic: self.italic,
            underlined: self.underlined,
        }
    }
}

/// A copy of a list of strings.
fn duplicate_strings(v: &Vec<String>) -> (r: Vec<String>)
    ensures
        strings_model(r) == strings_model(*v),
{
    let r = v.clone();
    assert(r@ =~= v@);
    r
}

/// A copy of highlighted lines.
fn duplicate_highlighted(v: &Vec<Vec<StyledSpan>>) -> (r: Vec<Vec<StyledSpan>>)
    ensures
        r@.len() == v@.len(),
        forall|i: int| 0 <= i < v@.len() ==> (#[trigger] r@[i])@ == v@[i]@,
{
    let mut r: Vec<Vec<StyledSpan>> = Vec::new();
    let mut i: usize = 0;
    while i < v.len()
        invariant
            i <= v@.len(),
            r@.len() == i,
            forall|j: int| 0 <= j < i ==> (#[trigger] r@[j])@ == v@[j]@,
        decreases v.len() - i,
    {
        let line = &v[i];
        let mut copy: Vec<StyledSpan> = Vec::new();
        let mut k: usize = 0;
        while k < line.len()
            invariant
                k <= line@.len(),
                copy@ == line@.subrange(0, k as int),
            decreases line.len() - k,
        {
            copy.push(line[k].duplicate());
            k = k + 1;
            assert(copy@ =~= line@.subrange(0, k as int));
        }
        assert(copy@ =~= line@);
        r.push(copy);
        i = i + 1;
    }
    r
}

impl SidePreview {
    /// A copy of the preview, equal to it in every field's value.
    pub fn duplicate(&self) -> (r: SidePreview)
        ensures
            preview_model(r) == preview_model(*self),
    {
        let highlighted = duplicate_highlighted(&self.highlighted);
        assert(highlighted@.map_values(|l: Vec<StyledSpan>| spans_model(l)) =~= self.highlighted@.map_values(
            |l: Vec<StyledSpan>| spans_model(l),
        ));
        SidePreview {
            lines: duplicate_strings(&self.lines),
            highlighted,
            name: self.name.clone(),
            is_binary: self.is_binary,
            is_dir: self.is_dir,
            is_truncated: self.is_truncated,
            dir_entries: duplicate_strings(&self.dir_entries),
            encoding_detected: match &self.encoding_detected {
                Some(e) => Some(e.clone()),
                None => None,
            },
        }
    }
}

impl Default for SidePreview {
    fn default() -> (r: SidePreview)
        ensures
            named_blank(r, Seq::empty()),
    {
        SidePreview::empty()
    }
}

} // verus!
