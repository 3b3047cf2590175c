//! Syntax highlighting of previewed text: each line split into coloured
//! pieces by the syntax its file name's extension names.
use vstd::prelude::*;

use crate::path::{extension_of_name, file_name, name_extension, file_name_of};
use crate::tui::context::{spans_model, strings_model, SpanModel, StyledSpan};
use crate::tui::loader::{lines_of, split_lines};

verus! {

/// Whether one of syntect's bundled syntaxes claims the file extension `ext`.
pub uninterp spec fn spec_syntax_known(ext: Seq<char>) -> bool;

/// What syntect gives for `lines`, highlighted one after the other by one
/// `HighlightLines` (so that each line is read in the state the lines before
/// it left) with the bundled syntax found for `token` and the bundled theme
/// named `theme`: nothing where either is not found, else for each line its
/// pieces (text, red, green, blue, font-style bits), or nothing where the
/// highlighter failed on it.
pub uninterp spec fn spec_highlight(lines: Seq<Seq<char>>, token: Seq<char>, theme: Seq<char>) -> Option<
    Seq<Option<Seq<(Seq<char>, u8, u8, u8, u8)>>>,
>;

/// A highlighted piece as plain values.
pub open spec fn piece_view(t: (String, u8, u8, u8, u8)) -> (Seq<char>, u8, u8, u8, u8) {
    (t.0@, t.1, t.2, t.3, t.4)
}

/// The pieces of a highlighted line as plain values.
pub open spec fn pieces_view(v: Vec<(String, u8, u8, u8, u8)>) -> Seq<(Seq<char>, u8, u8, u8, u8)> {
    v@.map_values(|t: (String, u8, u8, u8, u8)| piece_view(t))
}

/// The highlighted lines as plain values.
pub open spec fn highlight_view(v: Seq<Option<Vec<(String, u8, u8, u8, u8)>>>) -> Seq<
    Option<Seq<(Seq<char>, u8, u8, u8, u8)>>,
> {
    v.map_values(
        |o: Option<Vec<(String, u8, u8, u8, u8)>>|
            match o {
                Some(l) => Some(pieces_view(l)),
                None => None,
            },
    )
}

/// Loads syntect's bundled syntaxes and calls
/// `SyntaxSet::find_syntax_by_extension` with `ext`. The contract names
/// whether a syntax was found, a function of the extension alone.
#[verifier::external_body]
fn syntax_known(ext: &str) -> (r: bool)
    ensures
        r == spec_syntax_known(ext@),
{
    syntect::parsing::SyntaxSet::load_defaults_nonewlines().find_syntax_by_extension(ext).is_some()
}

/// Loads syntect's bundled syntaxes and themes, finds the syntax by
/// `SyntaxSet::find_syntax_by_token` (by extension, then by name) and the
/// theme by name, and runs `HighlightLines::highlight_line` over the lines in
/// order; each piece is taken as its text, its foreground colour and its
/// font-style bits, and a failed line as nothing. Nothing comes back where the
/// syntax or the theme is not found. The contract names the result, a function
/// of the lines, the token and the theme name alone, and states that there is
/// one result per line.
#[verifier::external_body]
fn highlight_raw(lines: &Vec<String>, token: &str, theme: &str) -> (r: Option<
    Vec<Option<Vec<(String, u8, u8, u8, u8)>>>,
>)
    ensures
        r.is_some() == spec_highlight(strings_model(*lines), token@, theme@).is_some(),
        r.is_some() ==> highlight_view(r.unwrap()@) == spec_highlight(
            strings_model(*lines),
            token@,
            theme@,
        ).unwrap(),
        r.is_some() ==> r.unwrap()@.len() == lines@.len(),
{
    let ss = syntect::parsing::SyntaxSet::load_defaults_nonewlines();
    let themes = syntect::highlighting::ThemeSet::load_defaults();
    let mut h = syntect::easy::HighlightLines::new(ss.find_syntax_by_token(token)?, themes.themes.get(theme)?);
    Some(lines.iter().map(
        |l| h.highlight_line(l, &ss).ok().map(
            |ps| ps.iter().map(
                |(st, s)| (s.to_string(), st.foreground.r, st.foreground.g, st.foreground.b, st.font_style.bits()),
            ).collect(),
        ),
    ).collect())
}

/// The span a highlighted piece stands for: its text and colour; bold, italic
/// and underlined by the font-style bits 1, 4 and 2.
pub open spec fn piece_span(t: (Seq<char>, u8, u8, u8, u8)) -> SpanModel {
    (t.0, Some((t.1, t.2, t.3)), (t.4 & 1u8) != 0, (t.4 & 4u8) != 0, (t.4 & 2u8) != 0)
}

/// A line shown without highlighting: one span of the whole line, without
/// colour or style marks.
pub open spec fn plain_line(line: Seq<char>) -> Seq<SpanModel> {
    seq![(line, None::<(u8, u8, u8)>, false, false, false)]
}

/// The extension the syntax is chosen by: that of the path's file name, or
/// none.
pub open spec fn highlight_ext(filename: Seq<char>) -> Seq<char> {
    match file_name_of(filename) {
        Some(n) => match name_extension(n) {
            Some(e) => e,
            None => Seq::empty(),
        },
        None => Seq::empty(),
    }
}

/// The theme previews are highlighted with.
pub open spec fn preview_theme() -> Seq<char> {
    "base16-ocean.dark"@
}

/// The syntax a file extension is highlighted by: the one that claims the
/// extension, else plain text.
pub open spec fn syntax_token(ext: Seq<char>) -> Seq<char> {
    if spec_syntax_known(ext) {
        ext
    } else {
        "Plain Text"@
    }
}

/// What the highlighter gives for each line of `lines` under the extension
/// `ext`: every line failed where the syntax or theme was not found.
pub open spec fn line_results(lines: Seq<Seq<char>>, ext: Seq<char>) -> Seq<
    Option<Seq<(Seq<char>, u8, u8, u8, u8)>>,
> {
    match spec_highlight(lines, syntax_token(ext), preview_theme()) {
        Some(h) => h,
        None => Seq::new(lines.len(), |i: int| None::<Seq<(Seq<char>, u8, u8, u8, u8)>>),
    }
}

/// The highlighted lines: each line as the spans of its pieces, or one plain
/// span without colour where the highlighter failed on it.
pub open spec fn highlighted_lines(lines: Seq<Seq<char>>, ext: Seq<char>) -> Seq<Seq<SpanModel>> {
    let h = line_results(lines, ext);
    Seq::new(
        lines.len(),
        |i: int|
            if i < h.len() && h[i] is Some {
                h[i]->0.map_values(|t: (Seq<char>, u8, u8, u8, u8)| piece_span(t))
            } else {
                plain_line(lines[i])
            },
    )
}

fn span_of(t: &(String, u8, u8, u8, u8)) -> (r: StyledSpan)
    ensures
        crate::tui::context::span_model(r) == piece_span(piece_view(*t)),
{
    StyledSpan {
        text: t.0.clone(),
        color: Some((t.1, t.2, t.3)),
        bold: (t.4 & 1u8) != 0,
        italic: (t.4 & 4u8) != 0,
        underlined: (t.4 & 2u8) != 0,
    }
}

fn line_spans(pieces: &Vec<(String, u8, u8, u8, u8)>) -> (r: Vec<StyledSpan>)
    ensures
        spans_model(r) == pieces_view(*pieces).map_values(
            |t: (Seq<char>, u8, u8, u8, u8)| piece_span(t),
        ),
{
    let mut r: Vec<StyledSpan> = Vec::new();
    let mut i: usize = 0;
    while i < pieces.len()
        invariant
            i <= pieces@.len(),
            r@.len() == i,
            spans_model(r) == pieces_view(*pieces).take(i as int).map_values(
                |t: (Seq<char>, u8, u8, u8, u8)| piece_span(t),
            ),
        decreases pieces.len() - i,
    {
        let s = span_of(&pieces[i]);
        let ghost before = r@;
        r.push(s);
        proof {
            let pv = pieces_view(*pieces);
            assert(pv[i as int] == piece_view(pieces@[i as int]));
            assert(pv.take(i + 1) =~= pv.take(i as int).push(pv[i as int]));
            assert(r@ =~= before.push(s));
            assert(crate::tui::context::span_model(s) == piece_span(pv[i as int]));
            assert(spans_model(r)[i as int] == crate::tui::context::span_model(s));
            assert forall|j: int| 0 <= j < i implies spans_model(r)[j] == pv.take(i as int).map_values(
                |t: (Seq<char>, u8, u8, u8, u8)| piece_span(t),
            )[j] by {
                assert(r@[j] == before[j]);
            }
            assert(spans_model(r) =~= pv.take(i + 1).map_values(
                |t: (Seq<char>, u8, u8, u8, u8)| piece_span(t),
            ));
        }
        i = i + 1;
    }
    assert(pieces_view(*pieces).take(i as int) =~= pieces_view(*pieces));
    r
}

/// The lines of `text` highlighted by the syntax the extension of `filename`
/// names; a line the highlighter fails on is kept as one span in the default
/// style.
pub fn highlight_text(text: &str, filename: &str) -> (r: Vec<Vec<StyledSpan>>)
    ensures
        r@.map_values(|l: Vec<StyledSpan>| spans_model(l)) == highlighted_lines(
            lines_of(text@),
            highlight_ext(filename@),
        ),
{
    let lines = split_lines(text);
    let ext = match file_name(filename) {
        Some(n) => match extension_of_name(n.as_str()) {
            Some(e) => e,
            None => String::new(),
        },
        None => String::new(),
    };
    let token: &str = if syntax_known(ext.as_str()) {
        ext.as_str()
    } else {
        "Plain Text"
    };
    let raw = match highlight_raw(&lines, token, "base16-ocean.dark") {
        Some(v) => v,
        None => {
            let mut v: Vec<Option<Vec<(String, u8, u8, u8, u8)>>> = Vec::new();
            let mut k: usize = 0;
            while k < lines.len()
                invariant
                    k <= lines@.len(),
                    v@.len() == k,
                    forall|j: int| 0 <= j < k ==> (#[trigger] v@[j]) is None,
                decreases lines.len() - k,
            {
                v.push(None);
                k = k + 1;
            }
            assert(highlight_view(v@) =~= line_results(strings_model(lines), ext@));
            v
        },
    };
    let ghost want = highlighted_lines(strings_model(lines), ext@);
    let mut r: Vec<Vec<StyledSpan>> = Vec::new();
    let mut i: usize = 0;
    while i < lines.len()
        invariant
            i <= lines@.len(),
            raw@.len() == lines@.len(),
            highlight_view(raw@) == line_results(strings_model(lines), ext@),
            want == highlighted_lines(strings_model(lines), ext@),
            r@.len() == i,
            forall|j: int| 0 <= j < i ==> spans_model(#[trigger] r@[j]) == want[j],
        decreases lines.len() - i,
    {
        let line = match &raw[i] {
            Some(pieces) => {
                assert(highlight_view(raw@)[i as int] == Some(pieces_view(*pieces)));
                line_spans(pieces)
            },
            None => {
                assert(highlight_view(raw@)[i as int] is None);
                let mut v: Vec<StyledSpan> = Vec::new();
                v.push(
                    StyledSpan {
                        text: lines[i].clone(),
                        color: None,
                        bold: false,
                        italic: false,
                        underlined: false,
                    },
                );
                assert(strings_model(lines)[i as int] == lines@[i as int]@);
                assert(spans_model(v) =~= plain_line(strings_model(lines)[i as int]));
                v
            },
        };
        r.push(line);
        i = i + 1;
    }
    assert(r@.map_values(|l: Vec<StyledSpan>| spans_model(l)) =~= want);
    r
}

} // verus!
