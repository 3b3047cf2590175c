//! The command line: its commands, the format a new archive gets, and the
//! text the commands print.
use vstd::prelude::*;

use crate::archive::{detect_format, outcome_is, spec_detect_format, ArchiveEntry, Format};
use crate::error::DecmpError;
use crate::text::{decimal, decimal_string, lowercase_of, pad_left, pad_right, push_repeated, str_eq};
use crate::tui::properties::size_sum;
use crate::utils::{format_size, spec_format_size};

verus! {

/// The command line.
pub struct Cli {
    pub command: Command,
    pub verbose: bool,
}

/// The commands.
pub enum Command {
    /// List an archive's entries, names decoded in `encoding` if given.
    List { file: String, encoding: Option<String> },
    /// Extract an archive into `output`.
    Extract { file: String, output: String, password: Option<String>, encoding: Option<String> },
    /// Make an archive of `sources`, in `format` or, for `auto`, the format
    /// its name calls for.
    Create {
        file: String,
        sources: Vec<String>,
        password: Option<String>,
        level: Option<u32>,
        format: String,
    },
}

/// The format a new archive at `path` gets for the format name `format`:
/// `auto` detects it from the name, any other is parsed.
pub fn create_format(path: &str, format: &str) -> (r: Result<Format, DecmpError>)
    ensures
        format@ == "auto"@ ==> outcome_is(r, spec_detect_format(path@)),
        format@ != "auto"@ ==> {
            &&& Format::spec_for_name(lowercase_of(format@)) matches Some(f) ==> r == Ok::<
                Format,
                DecmpError,
            >(f)
            &&& Format::spec_for_name(lowercase_of(format@)) is None ==> (r matches Err(
                DecmpError::UnsupportedFormat(m),
            ) && m@ == format@)
        },
{
    if str_eq(format, "auto") {
        detect_format(path)
    } else {
        Format::parse(format)
    }
}

/// A rule of sixty dashes.
pub open spec fn rule() -> Seq<char> {
    Seq::new(60, |i: int| '-')
}

/// A rule of sixty dashes.
fn rule_string() -> (r: String)
    ensures
        r@ == rule(),
{
    let mut r = String::new();
    push_repeated(&mut r, '-', 60);
    assert(r@ =~= rule());
    r
}

/// The lines printed before a verbose listing.
pub open spec fn spec_list_header(path: Seq<char>, format: Seq<char>) -> Seq<Seq<char>> {
    seq![
        "Archive: "@ + path + " (format: "@ + format + ")"@,
        pad_right("Type"@, 12) + " "@ + pad_left("Compressed"@, 12) + " "@ + pad_left("Size"@, 12)
            + " Name"@,
        rule(),
    ]
}

/// The texts of a list of strings.
pub open spec fn texts(v: Seq<String>) -> Seq<Seq<char>> {
    v.map_values(|s: String| s@)
}

/// The lines printed before a verbose listing of the archive at `path`.
pub fn list_header(path: &str, format: Format) -> (r: Vec<String>)
    ensures
        texts(r@) == spec_list_header(path@, format.spec_extension()),
{
    let mut first = String::from_str("Archive: ");
    first.append(path);
    first.append(" (format: ");
    first.append(format.extension());
    first.append(")");
    let mut second = String::from_str("Type");
    push_repeated(&mut second, ' ', 8);
    second.append(" ");
    push_repeated(&mut second, ' ', 2);
    second.append("Compressed ");
    push_repeated(&mut second, ' ', 8);
    second.append("Size Name");
    proof {
        reveal_strlit("Type");
        reveal_strlit("Compressed");
        reveal_strlit("Size");
        reveal_strlit(" ");
        reveal_strlit(" Name");
        reveal_strlit("Compressed ");
        reveal_strlit("Size Name");
        assert(second@ =~= pad_right("Type"@, 12) + " "@ + pad_left("Compressed"@, 12) + " "@
            + pad_left("Size"@, 12) + " Name"@);
    }
    let mut r = Vec::new();
    r.push(first);
    r.push(second);
    r.push(rule_string());
    assert(texts(r@) =~= spec_list_header(path@, format.spec_extension()));
    r
}

/// The line printed for an entry: the listing line when verbose, else the
/// name.
pub fn list_line(entry: &ArchiveEntry, verbose: bool) -> (r: String)
    ensures
        r@ == (if verbose {
            entry.spec_listing_line()
        } else {
            entry.name@
        }),
{
    if verbose {
        entry.to_string()
    } else {
        entry.name.clone()
    }
}

/// The lines printed after a verbose listing: a rule, then the number of
/// entries and their total size and compressed size.
pub open spec fn spec_list_footer(entries: Seq<ArchiveEntry>) -> Seq<Seq<char>> {
    seq![
        rule(),
        decimal(entries.len()) + " entries, "@ + spec_format_size(size_sum(entries, false)) + " ("@
            + spec_format_size(size_sum(entries, true)) + " compressed)"@,
    ]
}

/// The lines printed after a verbose listing.
pub fn list_footer(entries: &Vec<ArchiveEntry>) -> (r: Vec<String>)
    requires
        size_sum(entries@, false) <= u64::MAX,
        size_sum(entries@, true) <= u64::MAX,
    ensures
        texts(r@) == spec_list_footer(entries@),
{
    let mut total: u64 = 0;
    let mut comp: u64 = 0;
    let mut i: usize = 0;
    while i < entries.len()
        invariant
            i <= entries@.len(),
            size_sum(entries@, false) <= u64::MAX,
            size_sum(entries@, true) <= u64::MAX,
            total == size_sum(entries@.subrange(0, i as int), false),
            comp == size_sum(entries@.subrange(0, i as int), true),
        decreases entries.len() - i,
    {
        proof {
            assert(entries@.subrange(0, i + 1).drop_last() =~= entries@.subrange(0, i as int));
            crate::tui::properties::lemma_size_sum_prefix(entries@, i + 1, false);
            crate::tui::properties::lemma_size_sum_prefix(entries@, i + 1, true);
        }
        total = total + entries[i].size;
        comp = comp + entries[i].compressed_size;
        i = i + 1;
    }
    assert(entries@.subrange(0, entries@.len() as int) =~= entries@);
    let mut line = decimal_string(entries.len() as u128);
    line.append(" entries, ");
    line.append(format_size(total).as_str());
    line.append(" (");
    line.append(format_size(comp).as_str());
    line.append(" compressed)");
    let mut r = Vec::new();
    r.push(rule_string());
    r.push(line);
    assert(texts(r@) =~= spec_list_footer(entries@));
    r
}

/// The line printed before a verbose extraction.
pub fn extract_banner(path: &str, format: Format, output: &str) -> (r: String)
    ensures
        r@ == "Extracting: "@ + path@ + " (format: "@ + format.spec_extension() + ") \u{2192} "@
            + output@,
{
    let mut r = String::from_str("Extracting: ");
    r.append(path);
    r.append(" (format: ");
    r.append(format.extension());
    r.append(") \u{2192} ");
    r.append(output);
    r
}

/// The line printed before a verbose creation.
pub fn create_banner(path: &str, format: Format, sources: usize) -> (r: String)
    ensures
        r@ == "Creating: "@ + path@ + " (format: "@ + format.spec_extension() + ") from "@
            + decimal(sources as nat) + " source(s)"@,
{
    let mut r = String::from_str("Creating: ");
    r.append(path);
    r.append(" (format: ");
    r.append(format.extension());
    r.append(") from ");
    r.append(decimal_string(sources as u128).as_str());
    r.append(" source(s)");
    r
}

/// The line printed after a verbose creation: the archive and its size.
pub fn created_line(path: &str, size: u64) -> (r: String)
    ensures
        r@ == "Created: "@ + path@ + " ("@ + spec_format_size(size as nat) + ")"@,
{
    let mut r = String::from_str("Created: ");
    r.append(path);
    r.append(" (");
    r.append(format_size(size).as_str());
    r.append(")");
    r
}

} // verus!
