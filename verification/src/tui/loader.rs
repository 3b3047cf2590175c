//! Turning what the archive gives into what the browser shows: the text of a
//! previewed file, its lines, and entry names without a leading `./`.
use vstd::prelude::*;

use crate::archive::tar::{spec_strip_dot_slash, strip_dot_slash};
use crate::archive::ArchiveEntry;
use crate::encoding::{
    auto_detect_encoding, byte_views, decode_filename, decodes_cleanly, is_utf8, spec_auto_detect,
    spec_decode, spec_utf8_lossy, try_decode_utf8,
};
use crate::path::{file_name, file_name_of};
use crate::text::{first_index_of, lemma_first_index_bound, lemma_first_index_of};
use crate::tree::{is_binary_content, spec_is_binary};
use crate::tui::context::{spans_model, strings_model, SidePreview, StyledSpan, MAX_PREVIEW_BYTES, MAX_PREVIEW_CHARS};
use crate::tui::highlight::{highlight_ext, highlight_text, highlighted_lines};
use vstd::utf8::{decode_utf8, valid_utf8};

verus! {

/// The text of a previewed file and the encoding it was found to be in: UTF-8
/// as it is; else the encoding guessed for it, when one decodes it cleanly;
/// else UTF-8 with replacement characters.
pub open spec fn spec_decode_preview(bytes: Seq<u8>) -> (Seq<char>, Option<Seq<char>>) {
    if bytes.len() == 0 {
        (Seq::empty(), None)
    } else if valid_utf8(bytes) {
        (decode_utf8(bytes), None)
    } else {
        match spec_auto_detect(seq![bytes]) {
            Some(enc) => if decodes_cleanly(enc, bytes) {
                (spec_decode(enc, bytes).0, Some(enc))
            } else {
                (spec_utf8_lossy(bytes), None)
            },
            None => (spec_utf8_lossy(bytes), None),
        }
    }
}

/// Decodes the bytes of a previewed file, and names the encoding when it was
/// not UTF-8.
pub fn decode_preview_bytes(bytes: &[u8]) -> (r: (String, Option<String>))
    ensures
        r.0@ == spec_decode_preview(bytes@).0,
        match r.1 {
            Some(e) => spec_decode_preview(bytes@).1 == Some(e@),
            None => spec_decode_preview(bytes@).1 is None,
        },
{
    if bytes.len() == 0 {
        return (String::new(), None);
    }
    if is_utf8(bytes) {
        return (try_decode_utf8(bytes), None);
    }
    let names: Vec<&[u8]> = vec![bytes];
    assert(byte_views(names@) =~= seq![bytes@]);
    if let Some(enc) = auto_detect_encoding(names.as_slice()) {
        if let Ok(decoded) = decode_filename(bytes, enc) {
            return (decoded, Some(String::from_str(enc)));
        }
    }
    (try_decode_utf8(bytes), None)
}

/// A line without the carriage return before its line feed.
pub open spec fn strip_cr(l: Seq<char>) -> Seq<char> {
    if l.len() > 0 && l.last() == '\r' {
        l.drop_last()
    } else {
        l
    }
}

/// The lines of a text: split at line feeds, a carriage return before a line
/// feed dropped, no empty line after a final line feed.
pub open spec fn lines_of(s: Seq<char>) -> Seq<Seq<char>>
    decreases s.len(),
{
    if s.len() == 0 {
        Seq::empty()
    } else {
        match first_index_of(s, '\n') {
            None => seq![s],
            Some(i) => {
                proof {
                    lemma_first_index_bound(s, '\n');
                }
                seq![strip_cr(s.subrange(0, i))] + lines_of(s.subrange(i + 1, s.len() as int))
            },
        }
    }
}

/// The lines of `s`.
pub fn split_lines(s: &str) -> (r: Vec<String>)
    ensures
        strings_model(r) == lines_of(s@),
{
    let n = s.unicode_len();
    let mut r: Vec<String> = Vec::new();
    let mut start: usize = 0;
    let mut i: usize = 0;
    assert(s@.subrange(0, n as int) =~= s@);
    assert(strings_model(r) + lines_of(s@) =~= lines_of(s@));
    while i < n
        invariant
            n == s@.len(),
            start <= i <= n,
            forall|j: int| start <= j < i ==> s@[j] != '\n',
            lines_of(s@) == strings_model(r) + lines_of(s@.subrange(start as int, n as int)),
        decreases n - i,
    {
        if s.get_char(i) == '\n' {
            let ghost rest = s@.subrange(start as int, n as int);
            proof {
                lemma_first_index_of(rest, '\n', i - start);
                assert(rest.subrange(0, i - start) =~= s@.subrange(start as int, i as int));
                assert(rest.subrange(i - start + 1, rest.len() as int) =~= s@.subrange(
                    i + 1,
                    n as int,
                ));
            }
            let mut line = s.substring_char(start, i).to_owned();
            if i > start && s.get_char(i - 1) == '\r' {
                line = s.substring_char(start, i - 1).to_owned();
                assert(line@ =~= strip_cr(s@.subrange(start as int, i as int)));
            }
            let ghost before = strings_model(r);
            r.push(line);
            assert(strings_model(r) =~= before.push(line@));
            assert(lines_of(rest) == seq![line@] + lines_of(s@.subrange(i + 1, n as int)));
            assert(before.push(line@) + lines_of(s@.subrange(i + 1, n as int)) =~= before + (seq![
                line@,
            ] + lines_of(s@.subrange(i + 1, n as int))));
            start = i + 1;
        }
        i = i + 1;
    }
    if start < n {
        let ghost rest = s@.subrange(start as int, n as int);
        proof {
            lemma_first_index_of(rest, '\n', rest.len() as int);
        }
        let ghost before = strings_model(r);
        r.push(s.substring_char(start, n).to_owned());
        assert(strings_model(r) =~= before.push(rest));
        assert(lines_of(rest) == seq![rest]);
        assert(before.push(rest) =~= before + seq![rest]);
    } else {
        assert(s@.subrange(start as int, n as int) =~= Seq::<char>::empty());
        assert(strings_model(r) + Seq::<Seq<char>>::empty() =~= strings_model(r));
    }
    r
}

/// The name a preview shows for the entry at `full_name`: its file name.
pub open spec fn preview_name(full_name: Seq<char>) -> Seq<char> {
    match file_name_of(full_name) {
        Some(n) => n,
        None => full_name,
    }
}

/// The text a preview shows, whether it is cut short, and the encoding it was
/// in: at most the character limit, and cut short when that limit or the
/// byte limit was reached.
pub open spec fn preview_text(bytes: Seq<u8>) -> (Seq<char>, bool, Option<Seq<char>>) {
    let (text, enc) = spec_decode_preview(bytes);
    if text.len() > MAX_PREVIEW_CHARS {
        (text.take(MAX_PREVIEW_CHARS as int), true, enc)
    } else {
        (text, bytes.len() >= MAX_PREVIEW_BYTES, enc)
    }
}

/// Builds the preview of the entry at `full_name` from the bytes read of it,
/// and gives the text it shows: a binary file only gets its mark; the text of
/// another is split into lines, and each line highlighted by the syntax the
/// entry's extension names.
pub fn prepare_preview(full_name: &str, bytes: &[u8]) -> (r: (SidePreview, String))
    ensures
        spec_is_binary(bytes@) ==> {
            &&& r.0.name@ == full_name@
            &&& r.0.is_binary
            &&& !r.0.is_dir && !r.0.is_truncated
            &&& r.0.lines@.len() == 0 && r.0.highlighted@.len() == 0
            &&& r.0.dir_entries@.len() == 0 && r.0.encoding_detected is None
            &&& r.1@.len() == 0
        },
        !spec_is_binary(bytes@) ==> {
            let t = preview_text(bytes@);
            &&& r.0.name@ == preview_name(full_name@)
            &&& strings_model(r.0.lines) == lines_of(t.0)
            &&& r.0.highlighted@.map_values(|l: Vec<StyledSpan>| spans_model(l)) == highlighted_lines(
                lines_of(t.0),
                highlight_ext(full_name@),
            )
            &&& r.0.is_truncated == t.1
            &&& match r.0.encoding_detected {
                Some(e) => t.2 == Some(e@),
                None => t.2 is None,
            }
            &&& !r.0.is_binary && !r.0.is_dir
            &&& r.0.dir_entries@.len() == 0
            &&& r.1@ == t.0
        },
{
    let byte_truncated = bytes.len() >= MAX_PREVIEW_BYTES;
    if is_binary_content(bytes) {
        return (SidePreview::binary(full_name), String::new());
    }
    let (decoded, enc) = decode_preview_bytes(bytes);
    let (text, truncated) = if decoded.unicode_len() > MAX_PREVIEW_CHARS {
        (decoded.as_str().substring_char(0, MAX_PREVIEW_CHARS).to_owned(), true)
    } else {
        (decoded, byte_truncated)
    };
    proof {
        if decoded@.len() > MAX_PREVIEW_CHARS {
            assert(text@ =~= decoded@.take(MAX_PREVIEW_CHARS as int));
        }
    }
    let lines = split_lines(text.as_str());
    let name = match file_name(full_name) {
        Some(n) => n,
        None => String::from_str(full_name),
    };
    let highlighted = highlight_text(text.as_str(), full_name);
    (SidePreview::file(name.as_str(), lines, highlighted, truncated, enc), text)
}

/// Every entry name without one leading `./`; nothing else changes.
pub fn normalize_entry_names(entries: &mut Vec<ArchiveEntry>)
    ensures
        final(entries)@.len() == old(entries)@.len(),
        forall|i: int|
            0 <= i < old(entries)@.len() ==> {
                let (a, b) = (#[trigger] final(entries)@[i], old(entries)@[i]);
                &&& a.name@ == spec_strip_dot_slash(b.name@)
                &&& a.size == b.size
                &&& a.compressed_size == b.compressed_size
                &&& a.is_dir == b.is_dir
                &&& a.method == b.method
                &&& a.modified == b.modified
            },
{
    let ghost start = entries@;
    let mut i: usize = 0;
    while i < entries.len()
        invariant
            i <= entries@.len(),
            entries@.len() == start.len(),
            forall|j: int| i <= j < start.len() ==> entries@[j] == start[j],
            forall|j: int|
                0 <= j < i ==> {
                    let (a, b) = (#[trigger] entries@[j], start[j]);
                    &&& a.name@ == spec_strip_dot_slash(b.name@)
                    &&& a.size == b.size
                    &&& a.compressed_size == b.compressed_size
                    &&& a.is_dir == b.is_dir
                    &&& a.method == b.method
                    &&& a.modified == b.modified
                },
        decreases entries.len() - i,
    {
        let mut e = entries[i].duplicate();
        e.name = strip_dot_slash(e.name.as_str());
        entries.set(i, e);
        i = i + 1;
    }
}

} // verus!
