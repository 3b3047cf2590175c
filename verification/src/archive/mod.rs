//! Archive formats, their detection from file names, and the entries that a
//! listing of an archive shows.
pub mod gzip;
pub mod rar;
pub mod sevenz;
pub mod tar;
pub mod xz;
pub mod zip;

use vstd::prelude::*;

use crate::error::DecmpError;
use crate::path::{
    extension_of_name, file_name, file_name_of, lemma_ascii_lower_extension, lemma_plain_name_is_its_part,
    name_extension,
};
use crate::text::lemma_last_index_of;
use crate::text::{
    ascii_lower, concat2, decimal, decimal_string, ends_with, is_ascii_seq,
    lemma_ascii_lower_char, lemma_ascii_lower_idempotent, lowercase_of, pad_left, pad_left_string,
    str_ends_with, str_eq, to_lowercase,
};

verus! {

/// The archive and compression formats.
#[derive(Debug, Clone, Copy, PartialEq, Eq, Structural)]
pub enum Format {
    Zip,
    SevenZ,
    Tar,
    TarGz,
    TarXz,
    TarZst,
    TarBz2,
    TarLzma,
    Gz,
    Zst,
    Xz,
    Lzma,
    Bz2,
}

impl Format {
    /// The usual file extension of the format, without the leading dot.
    pub open spec fn spec_extension(self) -> Seq<char> {
        match self {
            Format::Zip => "zip"@,
            Format::SevenZ => "7z"@,
            Format::Tar => "tar"@,
            Format::TarGz => "tar.gz"@,
            Format::TarXz => "tar.xz"@,
            Format::TarZst => "tar.zst"@,
            Format::TarBz2 => "tar.bz2"@,
            Format::TarLzma => "tar.lzma"@,
            Format::Gz => "gz"@,
            Format::Zst => "zst"@,
            Format::Xz => "xz"@,
            Format::Lzma => "lzma"@,
            Format::Bz2 => "bz2"@,
        }
    }

    /// The usual file extension of the format, without the leading dot.
    pub fn extension(&self) -> (r: &'static str)
        ensures
            r@ == self.spec_extension(),
    {
        match self {
            Format::Zip => "zip",
            Format::SevenZ => "7z",
            Format::Tar => "tar",
            Format::TarGz => "tar.gz",
            Format::TarXz => "tar.xz",
            Format::TarZst => "tar.zst",
            Format::TarBz2 => "tar.bz2",
            Format::TarLzma => "tar.lzma",
            Format::Gz => "gz",
            Format::Zst => "zst",
            Format::Xz => "xz",
            Format::Lzma => "lzma",
            Format::Bz2 => "bz2",
        }
    }

    /// The text shown for the format: its extension.
    pub fn to_string(&self) -> (r: String)
        ensures
            r@ == self.spec_extension(),
    {
        String::from_str(self.extension())
    }

    /// The format a lower-case format name stands for.
    pub open spec fn spec_for_name(lower: Seq<char>) -> Option<Format> {
        if lower == "zip"@ {
            Some(Format::Zip)
        } else if lower == "7z"@ {
            Some(Format::SevenZ)
        } else if lower == "tar"@ {
            Some(Format::Tar)
        } else if lower == "tar.gz"@ || lower == "tgz"@ {
            Some(Format::TarGz)
        } else if lower == "tar.xz"@ || lower == "txz"@ {
            Some(Format::TarXz)
        } else if lower == "tar.zst"@ || lower == "tar.zstd"@ {
            Some(Format::TarZst)
        } else if lower == "tar.bz2"@ || lower == "tbz2"@ || lower == "tbz"@ {
            Some(Format::TarBz2)
        } else if lower == "tar.lzma"@ {
            Some(Format::TarLzma)
        } else if lower == "gz"@ || lower == "gzip"@ {
            Some(Format::Gz)
        } else if lower == "zst"@ || lower == "zstd"@ {
            Some(Format::Zst)
        } else if lower == "xz"@ {
            Some(Format::Xz)
        } else if lower == "lzma"@ {
            Some(Format::Lzma)
        } else if lower == "bz2"@ || lower == "bzip2"@ {
            Some(Format::Bz2)
        } else {
            None
        }
    }

    /// The format a lower-case format name stands for.
    pub fn for_name(lower: &str) -> (r: Option<Format>)
        ensures
            r == Format::spec_for_name(lower@),
    {
        if str_eq(lower, "zip") {
            Some(Format::Zip)
        } else if str_eq(lower, "7z") {
            Some(Format::SevenZ)
        } else if str_eq(lower, "tar") {
            Some(Format::Tar)
        } else if str_eq(lower, "tar.gz") || str_eq(lower, "tgz") {
            Some(Format::TarGz)
        } else if str_eq(lower, "tar.xz") || str_eq(lower, "txz") {
            Some(Format::TarXz)
        } else if str_eq(lower, "tar.zst") || str_eq(lower, "tar.zstd") {
            Some(Format::TarZst)
        } else if str_eq(lower, "tar.bz2") || str_eq(lower, "tbz2") || str_eq(lower, "tbz") {
            Some(Format::TarBz2)
        } else if str_eq(lower, "tar.lzma") {
            Some(Format::TarLzma)
        } else if str_eq(lower, "gz") || str_eq(lower, "gzip") {
            Some(Format::Gz)
        } else if str_eq(lower, "zst") || str_eq(lower, "zstd") {
            Some(Format::Zst)
        } else if str_eq(lower, "xz") {
            Some(Format::Xz)
        } else if str_eq(lower, "lzma") {
            Some(Format::Lzma)
        } else if str_eq(lower, "bz2") || str_eq(lower, "bzip2") {
            Some(Format::Bz2)
        } else {
            None
        }
    }

    /// Parses a format name, ignoring case. An unknown name is refused with the
    /// name as given.
    pub fn parse(s: &str) -> (r: Result<Format, DecmpError>)
        ensures
            Format::spec_for_name(lowercase_of(s@)) matches Some(f) ==> r == Ok::<
                Format,
                DecmpError,
            >(f),
            Format::spec_for_name(lowercase_of(s@)) is None ==> (r matches Err(
                DecmpError::UnsupportedFormat(m),
            ) && m@ == s@),
    {
        let lower = to_lowercase(s);
        match Format::for_name(lower.as_str()) {
            Some(f) => Ok(f),
            None => Err(DecmpError::UnsupportedFormat(String::from_str(s))),
        }
    }
}

impl std::str::FromStr for Format {
    type Err = DecmpError;

    /// Parses a format name as `Format::parse` does.
    fn from_str(s: &str) -> (r: std::result::Result<Self, Self::Err>)
        ensures
            Format::spec_for_name(lowercase_of(s@)) matches Some(f) ==> r == Ok::<
                Format,
                DecmpError,
            >(f),
            Format::spec_for_name(lowercase_of(s@)) is None ==> (r matches Err(
                DecmpError::UnsupportedFormat(m),
            ) && m@ == s@),
    {
        Format::parse(s)
    }
}

/// How a lower-cased file name, and its lower-cased extension, determine the
/// format; the error carries the detail of the refusal.
pub open spec fn spec_classify(lower_name: Seq<char>, lower_ext: Option<Seq<char>>) -> Result<
    Format,
    Seq<char>,
> {
    if ends_with(lower_name, ".tar.gz"@) || ends_with(lower_name, ".tgz"@) {
        Ok(Format::TarGz)
    } else if ends_with(lower_name, ".tar.xz"@) || ends_with(lower_name, ".txz"@) {
        Ok(Format::TarXz)
    } else if ends_with(lower_name, ".tar.zst"@) || ends_with(lower_name, ".tar.zstd"@) {
        Ok(Format::TarZst)
    } else if ends_with(lower_name, ".tar.bz2"@) || ends_with(lower_name, ".tbz2"@) || ends_with(
        lower_name,
        ".tbz"@,
    ) {
        Ok(Format::TarBz2)
    } else if ends_with(lower_name, ".tar.lzma"@) {
        Ok(Format::TarLzma)
    } else {
        match lower_ext {
            Some(e) => if e == "zip"@ {
                Ok(Format::Zip)
            } else if e == "7z"@ {
                Ok(Format::SevenZ)
            } else if e == "tar"@ {
                Ok(Format::Tar)
            } else if e == "gz"@ || e == "gzip"@ {
                Ok(Format::Gz)
            } else if e == "zst"@ || e == "zstd"@ {
                Ok(Format::Zst)
            } else if e == "xz"@ {
                Ok(Format::Xz)
            } else if e == "lzma"@ {
                Ok(Format::Lzma)
            } else if e == "bz2"@ {
                Ok(Format::Bz2)
            } else {
                Err(e)
            },
            None => Err("no file extension"@),
        }
    }
}

/// `r` is the outcome `s` describes: the same format, or an unsupported-format
/// error with the same detail.
pub open spec fn outcome_is(r: Result<Format, DecmpError>, s: Result<Format, Seq<char>>) -> bool {
    match s {
        Ok(f) => r == Ok::<Format, DecmpError>(f),
        Err(d) => (r matches Err(DecmpError::UnsupportedFormat(m)) && m@ == d),
    }
}

/// Determines the format from a lower-cased file name and its lower-cased
/// extension.
pub fn classify(lower_name: &str, lower_ext: Option<&str>) -> (r: Result<Format, DecmpError>)
    ensures
        outcome_is(
            r,
            spec_classify(
                lower_name@,
                match lower_ext {
                    Some(e) => Some(e@),
                    None => None,
                },
            ),
        ),
{
    if str_ends_with(lower_name, ".tar.gz") || str_ends_with(lower_name, ".tgz") {
        return Ok(Format::TarGz);
    }
    if str_ends_with(lower_name, ".tar.xz") || str_ends_with(lower_name, ".txz") {
        return Ok(Format::TarXz);
    }
    if str_ends_with(lower_name, ".tar.zst") || str_ends_with(lower_name, ".tar.zstd") {
        return Ok(Format::TarZst);
    }
    if str_ends_with(lower_name, ".tar.bz2") || str_ends_with(lower_name, ".tbz2")
        || str_ends_with(lower_name, ".tbz") {
        return Ok(Format::TarBz2);
    }
    if str_ends_with(lower_name, ".tar.lzma") {
        return Ok(Format::TarLzma);
    }
    match lower_ext {
        Some(e) => {
            if str_eq(e, "zip") {
                Ok(Format::Zip)
            } else if str_eq(e, "7z") {
                Ok(Format::SevenZ)
            } else if str_eq(e, "tar") {
                Ok(Format::Tar)
            } else if str_eq(e, "gz") || str_eq(e, "gzip") {
                Ok(Format::Gz)
            } else if str_eq(e, "zst") || str_eq(e, "zstd") {
                Ok(Format::Zst)
            } else if str_eq(e, "xz") {
                Ok(Format::Xz)
            } else if str_eq(e, "lzma") {
                Ok(Format::Lzma)
            } else if str_eq(e, "bz2") {
                Ok(Format::Bz2)
            } else {
                Err(DecmpError::UnsupportedFormat(String::from_str(e)))
            }
        },
        None => Err(DecmpError::UnsupportedFormat(String::from_str("no file extension"))),
    }
}

/// The outcome of detecting the format of the path written `path`.
pub open spec fn spec_detect_format(path: Seq<char>) -> Result<Format, Seq<char>> {
    match file_name_of(path) {
        None => Err("empty filename"@),
        Some(n) => spec_classify(
            lowercase_of(n),
            match name_extension(n) {
                Some(e) => Some(lowercase_of(e)),
                None => None,
            },
        ),
    }
}

/// Determines the archive format from the file name of `path`: the compound
/// tar suffixes first, then the extension, ignoring case.
pub fn detect_format(path: &str) -> (r: Result<Format, DecmpError>)
    ensures
        outcome_is(r, spec_detect_format(path@)),
{
    let name = match file_name(path) {
        Some(n) => n,
        None => {
            return Err(DecmpError::UnsupportedFormat(String::from_str("empty filename")));
        },
    };
    let lower = to_lowercase(name.as_str());
    match extension_of_name(name.as_str()) {
        Some(e) => {
            let lower_ext = to_lowercase(e.as_str());
            classify(lower.as_str(), Some(lower_ext.as_str()))
        },
        None => classify(lower.as_str(), None),
    }
}

/// Checks that an archive is made of at least one source.
pub fn require_sources(count: usize) -> (r: Result<(), DecmpError>)
    ensures
        count == 0 ==> r matches Err(DecmpError::NoSources),
        count > 0 ==> r is Ok,
{
    if count == 0 {
        Err(DecmpError::NoSources)
    } else {
        Ok(())
    }
}

/// The handler that reads and writes a format.
#[derive(Debug, Clone, Copy, PartialEq, Eq, Structural)]
pub enum HandlerKind {
    Zip,
    SevenZ,
    /// Tar archives, plain or compressed as a whole.
    Tar,
    Gzip,
    Zstd,
    /// Single files compressed with xz or lzma.
    Xz,
    Bzip2,
}

/// The handler of each format: the tar family shares one, as do xz and lzma.
pub open spec fn spec_handler_kind(format: Format) -> HandlerKind {
    match format {
        Format::Zip => HandlerKind::Zip,
        Format::SevenZ => HandlerKind::SevenZ,
        Format::Tar | Format::TarGz | Format::TarXz | Format::TarZst | Format::TarBz2
        | Format::TarLzma => HandlerKind::Tar,
        Format::Gz => HandlerKind::Gzip,
        Format::Zst => HandlerKind::Zstd,
        Format::Xz | Format::Lzma => HandlerKind::Xz,
        Format::Bz2 => HandlerKind::Bzip2,
    }
}

/// The handler of a format.
pub fn handler_kind(format: Format) -> (r: HandlerKind)
    ensures
        r == spec_handler_kind(format),
{
    match format {
        Format::Zip => HandlerKind::Zip,
        Format::SevenZ => HandlerKind::SevenZ,
        Format::Tar | Format::TarGz | Format::TarXz | Format::TarZst | Format::TarBz2
        | Format::TarLzma => HandlerKind::Tar,
        Format::Gz => HandlerKind::Gzip,
        Format::Zst => HandlerKind::Zstd,
        Format::Xz | Format::Lzma => HandlerKind::Xz,
        Format::Bz2 => HandlerKind::Bzip2,
    }
}

/// Checks the sources of a single compressed file made with `codec`: exactly
/// one, and not a directory, for which `tar_format` is suggested.
pub fn check_single_source(count: usize, first_is_dir: bool, codec: &str, tar_format: &str) -> (r: Result<(), DecmpError>)
    ensures
        count != 1 ==> (r matches Err(DecmpError::InvalidArchive(m)) && m@ == codec@
            + " can only compress a single file"@),
        count == 1 && first_is_dir ==> (r matches Err(DecmpError::InvalidArchive(m)) && m@
            == codec@ + " cannot compress directories; use "@ + tar_format@ + " instead"@),
        count == 1 && !first_is_dir ==> r is Ok,
{
    if count != 1 {
        return Err(DecmpError::InvalidArchive(concat2(codec, " can only compress a single file")));
    }
    if first_is_dir {
        let mut m = concat2(codec, " cannot compress directories; use ");
        m.append(tar_format);
        m.append(" instead");
        return Err(DecmpError::InvalidArchive(m));
    }
    Ok(())
}

/// One entry of an archive's listing.
#[derive(Debug, Clone)]
pub struct ArchiveEntry {
    pub name: String,
    pub size: u64,
    pub compressed_size: u64,
    pub is_dir: bool,
    pub method: String,
    pub modified: Option<String>,
}

impl ArchiveEntry {
    /// A field-by-field copy of the entry.
    pub fn duplicate(&self) -> (r: ArchiveEntry)
        ensures
            r == *self,
    {
        ArchiveEntry {
            name: self.name.clone(),
            size: self.size,
            compressed_size: self.compressed_size,
            is_dir: self.is_dir,
            method: self.method.clone(),
            modified: match &self.modified {
                Some(m) => Some(m.clone()),
                None => None,
            },
        }
    }

    /// The listing line of the entry: a `d` or `-` mark, the compressed size and
    /// the size right-aligned in ten columns each, then the name.
    pub open spec fn spec_listing_line(self) -> Seq<char> {
        (if self.is_dir {
            "d"@
        } else {
            "-"@
        }) + " "@ + pad_left(decimal(self.compressed_size as nat), 10) + " "@ + pad_left(
            decimal(self.size as nat),
            10,
        ) + " "@ + self.name@
    }

    /// The listing line of the entry.
    pub fn to_string(&self) -> (r: String)
        ensures
            r@ == self.spec_listing_line(),
    {
        let mut r = String::from_str(
            if self.is_dir {
                "d"
            } else {
                "-"
            },
        );
        r.append(" ");
        let c = decimal_string(self.compressed_size as u128);
        let c = pad_left_string(c.as_str(), 10);
        r.append(c.as_str());
        r.append(" ");
        let s = decimal_string(self.size as u128);
        let s = pad_left_string(s.as_str(), 10);
        r.append(s.as_str());
        r.append(" ");
        r.append(self.name.as_str());
        r
    }
}

/// Where `b + t` ends: a character of `t` that differs from the aligned
/// character of `x` rules out that `b + t` ends with `x`.
proof fn lemma_tail_mismatch(b: Seq<char>, t: Seq<char>, x: Seq<char>, m: int)
    requires
        0 <= m < x.len(),
        0 <= t.len() - x.len() + m < t.len(),
        t[t.len() - x.len() + m] != x[m],
    ensures
        !ends_with(b + t, x),
{
    let s = b + t;
    if ends_with(s, x) {
        assert(s.subrange(s.len() - x.len(), s.len() as int)[m] == x[m]);
        assert(s[s.len() - x.len() + m] == t[t.len() - x.len() + m]);
    }
}

/// `b + t` ends with `y + t` only when `b` ends with `y`.
proof fn lemma_tail_split(b: Seq<char>, y: Seq<char>, t: Seq<char>)
    requires
        ends_with(b + t, y + t),
    ensures
        ends_with(b, y),
{
    let s = b + t;
    let x = y + t;
    assert forall|i: int| 0 <= i < y.len() implies #[trigger] b.subrange(b.len() - y.len(), b.len() as int)[i] == y[i] by {
        assert(s.subrange(s.len() - x.len(), s.len() as int)[i] == x[i]);
        assert(s[s.len() - x.len() + i] == b[b.len() - y.len() + i]);
    }
    assert(b.subrange(b.len() - y.len(), b.len() as int) =~= y);
}

/// A name made of a non-empty base, a dot and a word without dots has that
/// word as its extension.
proof fn lemma_simple_extension(b: Seq<char>, e: Seq<char>)
    requires
        b.len() > 0,
        forall|i: int| 0 <= i < e.len() ==> e[i] != '.',
    ensures
        name_extension(b + seq!['.'] + e) == Some(e),
{
    let s = b + seq!['.'] + e;
    lemma_last_index_of(s, '.');
    assert(s[b.len() as int] == '.');
    assert forall|j: int| b.len() < j < s.len() implies s[j] != '.' by {
        assert(s[j] == e[j - b.len() - 1]);
    }
    assert(s.subrange(b.len() + 1int, s.len() as int) =~= e);
}

/// A file named with a format's extension after a non-empty base is detected
/// as that format, the name taken in lower case; a base ending in `.tar`
/// makes the compressed formats their tar variants and is left out.
pub proof fn law_extension_is_detected(b: Seq<char>, f: Format)
    requires
        b.len() > 0,
        !ends_with(b, ".tar"@),
    ensures
        spec_classify(b + "."@ + f.spec_extension(), name_extension(b + "."@ + f.spec_extension()))
            == Ok::<Format, Seq<char>>(f),
{
    let t = "."@ + f.spec_extension();
    assert(b + "."@ + f.spec_extension() =~= b + t);
    match f {
        Format::Zip => {
            reveal_strlit(".");
            assert("."@.len() == 1);
            reveal_strlit("zip");
            assert("zip"@.len() == 3);
            assert("."@ =~= seq!['.']);
            assert(t =~= seq!['.', 'z', 'i', 'p']);
            reveal_strlit(".tar.gz");
            assert(".tar.gz"@.len() == 7);
            assert(".tar.gz"@[6] == 'z');
            lemma_tail_mismatch(b, t, ".tar.gz"@, 6);
            assert(!ends_with(b + t, ".tar.gz"@));
            reveal_strlit(".tgz");
            assert(".tgz"@.len() == 4);
            assert(".tgz"@[3] == 'z');
            lemma_tail_mismatch(b, t, ".tgz"@, 3);
            assert(!ends_with(b + t, ".tgz"@));
            reveal_strlit(".tar.xz");
            assert(".tar.xz"@.len() == 7);
            assert(".tar.xz"@[6] == 'z');
            lemma_tail_mismatch(b, t, ".tar.xz"@, 6);
            assert(!ends_with(b + t, ".tar.xz"@));
            reveal_strlit(".txz");
            assert(".txz"@.len() == 4);
            assert(".txz"@[3] == 'z');
            lemma_tail_mismatch(b, t, ".txz"@, 3);
            assert(!ends_with(b + t, ".txz"@));
            reveal_strlit(".tar.zst");
            assert(".tar.zst"@.len() == 8);
            assert(".tar.zst"@[7] == 't');
            lemma_tail_mismatch(b, t, ".tar.zst"@, 7);
            assert(!ends_with(b + t, ".tar.zst"@));
            reveal_strlit(".tar.zstd");
            assert(".tar.zstd"@.len() == 9);
            assert(".tar.zstd"@[8] == 'd');
            lemma_tail_mismatch(b, t, ".tar.zstd"@, 8);
            assert(!ends_with(b + t, ".tar.zstd"@));
            reveal_strlit(".tar.bz2");
            assert(".tar.bz2"@.len() == 8);
            assert(".tar.bz2"@[7] == '2');
            lemma_tail_mismatch(b, t, ".tar.bz2"@, 7);
            assert(!ends_with(b + t, ".tar.bz2"@));
            reveal_strlit(".tbz2");
            assert(".tbz2"@.len() == 5);
            assert(".tbz2"@[4] == '2');
            lemma_tail_mismatch(b, t, ".tbz2"@, 4);
            assert(!ends_with(b + t, ".tbz2"@));
            reveal_strlit(".tbz");
            assert(".tbz"@.len() == 4);
            assert(".tbz"@[3] == 'z');
            lemma_tail_mismatch(b, t, ".tbz"@, 3);
            assert(!ends_with(b + t, ".tbz"@));
            reveal_strlit(".tar.lzma");
            assert(".tar.lzma"@.len() == 9);
            assert(".tar.lzma"@[8] == 'a');
            lemma_tail_mismatch(b, t, ".tar.lzma"@, 8);
            assert(!ends_with(b + t, ".tar.lzma"@));
            lemma_simple_extension(b, f.spec_extension());
            assert(b + seq!['.'] + f.spec_extension() =~= b + t);
            assert(name_extension(b + t) == Some(f.spec_extension()));
            assert(!ends_with(b + t, ".tar.gz"@));
            assert(!ends_with(b + t, ".tar.lzma"@));
            assert(spec_classify(b + t, Some(f.spec_extension())) == Ok::<Format, Seq<char>>(f));
            assert(spec_classify(b + t, name_extension(b + t)) == Ok::<Format, Seq<char>>(f));
        },
        Format::SevenZ => {
            reveal_strlit(".");
            assert("."@.len() == 1);
            reveal_strlit("7z");
            assert("7z"@.len() == 2);
            assert("."@ =~= seq!['.']);
            assert(t =~= seq!['.', '7', 'z']);
            reveal_strlit(".tar.gz");
            assert(".tar.gz"@.len() == 7);
            assert(".tar.gz"@[5] == 'g');
            lemma_tail_mismatch(b, t, ".tar.gz"@, 5);
            assert(!ends_with(b + t, ".tar.gz"@));
            reveal_strlit(".tgz");
            assert(".tgz"@.len() == 4);
            assert(".tgz"@[2] == 'g');
            lemma_tail_mismatch(b, t, ".tgz"@, 2);
            assert(!ends_with(b + t, ".tgz"@));
            reveal_strlit(".tar.xz");
            assert(".tar.xz"@.len() == 7);
            assert(".tar.xz"@[5] == 'x');
            lemma_tail_mismatch(b, t, ".tar.xz"@, 5);
            assert(!ends_with(b + t, ".tar.xz"@));
            reveal_strlit(".txz");
            assert(".txz"@.len() == 4);
            assert(".txz"@[2] == 'x');
            lemma_tail_mismatch(b, t, ".txz"@, 2);
            assert(!ends_with(b + t, ".txz"@));
            reveal_strlit(".tar.zst");
            assert(".tar.zst"@.len() == 8);
            assert(".tar.zst"@[7] == 't');
            lemma_tail_mismatch(b, t, ".tar.zst"@, 7);
            assert(!ends_with(b + t, ".tar.zst"@));
            reveal_strlit(".tar.zstd");
            assert(".tar.zstd"@.len() == 9);
            assert(".tar.zstd"@[8] == 'd');
            lemma_tail_mismatch(b, t, ".tar.zstd"@, 8);
            assert(!ends_with(b + t, ".tar.zstd"@));
            reveal_strlit(".tar.bz2");
            assert(".tar.bz2"@.len() == 8);
            assert(".tar.bz2"@[7] == '2');
            lemma_tail_mismatch(b, t, ".tar.bz2"@, 7);
            assert(!ends_with(b + t, ".tar.bz2"@));
            reveal_strlit(".tbz2");
            assert(".tbz2"@.len() == 5);
            assert(".tbz2"@[4] == '2');
            lemma_tail_mismatch(b, t, ".tbz2"@, 4);
            assert(!ends_with(b + t, ".tbz2"@));
            reveal_strlit(".tbz");
            assert(".tbz"@.len() == 4);
            assert(".tbz"@[2] == 'b');
            lemma_tail_mismatch(b, t, ".tbz"@, 2);
            assert(!ends_with(b + t, ".tbz"@));
            reveal_strlit(".tar.lzma");
            assert(".tar.lzma"@.len() == 9);
            assert(".tar.lzma"@[8] == 'a');
            lemma_tail_mismatch(b, t, ".tar.lzma"@, 8);
            assert(!ends_with(b + t, ".tar.lzma"@));
            lemma_simple_extension(b, f.spec_extension());
            assert(b + seq!['.'] + f.spec_extension() =~= b + t);
            reveal_strlit("zip");
            assert("zip"@.len() == 3);
            assert("7z"@ != "zip"@);
            assert(spec_classify(b + t, name_extension(b + t)) == Ok::<Format, Seq<char>>(f));
        },
        Format::Tar => {
            reveal_strlit(".");
            assert("."@.len() == 1);
            reveal_strlit("tar");
            assert("tar"@.len() == 3);
            assert("."@ =~= seq!['.']);
            assert(t =~= seq!['.', 't', 'a', 'r']);
            reveal_strlit(".tar.gz");
            assert(".tar.gz"@.len() == 7);
            assert(".tar.gz"@[6] == 'z');
            lemma_tail_mismatch(b, t, ".tar.gz"@, 6);
            assert(!ends_with(b + t, ".tar.gz"@));
            reveal_strlit(".tgz");
            assert(".tgz"@.len() == 4);
            assert(".tgz"@[3] == 'z');
            lemma_tail_mismatch(b, t, ".tgz"@, 3);
            assert(!ends_with(b + t, ".tgz"@));
            reveal_strlit(".tar.xz");
            assert(".tar.xz"@.len() == 7);
            assert(".tar.xz"@[6] == 'z');
            lemma_tail_mismatch(b, t, ".tar.xz"@, 6);
            assert(!ends_with(b + t, ".tar.xz"@));
            reveal_strlit(".txz");
            assert(".txz"@.len() == 4);
            assert(".txz"@[3] == 'z');
            lemma_tail_mismatch(b, t, ".txz"@, 3);
            assert(!ends_with(b + t, ".txz"@));
            reveal_strlit(".tar.zst");
            assert(".tar.zst"@.len() == 8);
            assert(".tar.zst"@[7] == 't');
            lemma_tail_mismatch(b, t, ".tar.zst"@, 7);
            assert(!ends_with(b + t, ".tar.zst"@));
            reveal_strlit(".tar.zstd");
            assert(".tar.zstd"@.len() == 9);
            assert(".tar.zstd"@[8] == 'd');
            lemma_tail_mismatch(b, t, ".tar.zstd"@, 8);
            assert(!ends_with(b + t, ".tar.zstd"@));
            reveal_strlit(".tar.bz2");
            assert(".tar.bz2"@.len() == 8);
            assert(".tar.bz2"@[7] == '2');
            lemma_tail_mismatch(b, t, ".tar.bz2"@, 7);
            assert(!ends_with(b + t, ".tar.bz2"@));
            reveal_strlit(".tbz2");
            assert(".tbz2"@.len() == 5);
            assert(".tbz2"@[4] == '2');
            lemma_tail_mismatch(b, t, ".tbz2"@, 4);
            assert(!ends_with(b + t, ".tbz2"@));
            reveal_strlit(".tbz");
            assert(".tbz"@.len() == 4);
            assert(".tbz"@[3] == 'z');
            lemma_tail_mismatch(b, t, ".tbz"@, 3);
            assert(!ends_with(b + t, ".tbz"@));
            reveal_strlit(".tar.lzma");
            assert(".tar.lzma"@.len() == 9);
            assert(".tar.lzma"@[8] == 'a');
            lemma_tail_mismatch(b, t, ".tar.lzma"@, 8);
            assert(!ends_with(b + t, ".tar.lzma"@));
            lemma_simple_extension(b, f.spec_extension());
            assert(b + seq!['.'] + f.spec_extension() =~= b + t);
            reveal_strlit("zip");
            assert("zip"@.len() == 3);
            assert("tar"@[0] != "zip"@[0]);
            assert("tar"@ != "zip"@);
            reveal_strlit("7z");
            assert("7z"@.len() == 2);
            assert("tar"@ != "7z"@);
            assert(spec_classify(b + t, name_extension(b + t)) == Ok::<Format, Seq<char>>(f));
        },
        Format::TarGz => {
            reveal_strlit(".");
            assert("."@.len() == 1);
            reveal_strlit("tar.gz");
            assert("tar.gz"@.len() == 6);
            assert("."@ =~= seq!['.']);
            assert(t =~= seq!['.', 't', 'a', 'r', '.', 'g', 'z']);
            reveal_strlit(".tar.gz");
            assert(".tar.gz"@.len() == 7);
            assert((b + t).subrange((b + t).len() - t.len(), (b + t).len() as int) =~= t);
            assert(ends_with(b + t, t));
            assert(".tar.gz"@ =~= t);
            assert(spec_classify(b + t, name_extension(b + t)) == Ok::<Format, Seq<char>>(f));
        },
        Format::TarXz => {
            reveal_strlit(".");
            assert("."@.len() == 1);
            reveal_strlit("tar.xz");
            assert("tar.xz"@.len() == 6);
            assert("."@ =~= seq!['.']);
            assert(t =~= seq!['.', 't', 'a', 'r', '.', 'x', 'z']);
            reveal_strlit(".tar.gz");
            assert(".tar.gz"@.len() == 7);
            assert(".tar.gz"@[5] == 'g');
            lemma_tail_mismatch(b, t, ".tar.gz"@, 5);
            assert(!ends_with(b + t, ".tar.gz"@));
            reveal_strlit(".tgz");
            assert(".tgz"@.len() == 4);
            assert(".tgz"@[2] == 'g');
            lemma_tail_mismatch(b, t, ".tgz"@, 2);
            assert(!ends_with(b + t, ".tgz"@));
            reveal_strlit(".tar.xz");
            assert(".tar.xz"@.len() == 7);
            assert((b + t).subrange((b + t).len() - t.len(), (b + t).len() as int) =~= t);
            assert(ends_with(b + t, t));
            assert(".tar.xz"@ =~= t);
            assert(spec_classify(b + t, name_extension(b + t)) == Ok::<Format, Seq<char>>(f));
        },
        Format::TarZst => {
            reveal_strlit(".");
            assert("."@.len() == 1);
            reveal_strlit("tar.zst");
            assert("tar.zst"@.len() == 7);
            assert("."@ =~= seq!['.']);
            assert(t =~= seq!['.', 't', 'a', 'r', '.', 'z', 's', 't']);
            reveal_strlit(".tar.gz");
            assert(".tar.gz"@.len() == 7);
            assert(".tar.gz"@[6] == 'z');
            lemma_tail_mismatch(b, t, ".tar.gz"@, 6);
            assert(!ends_with(b + t, ".tar.gz"@));
            reveal_strlit(".tgz");
            assert(".tgz"@.len() == 4);
            assert(".tgz"@[3] == 'z');
            lemma_tail_mismatch(b, t, ".tgz"@, 3);
            assert(!ends_with(b + t, ".tgz"@));
            reveal_strlit(".tar.xz");
            assert(".tar.xz"@.len() == 7);
            assert(".tar.xz"@[6] == 'z');
            lemma_tail_mismatch(b, t, ".tar.xz"@, 6);
            assert(!ends_with(b + t, ".tar.xz"@));
            reveal_strlit(".txz");
            assert(".txz"@.len() == 4);
            assert(".txz"@[3] == 'z');
            lemma_tail_mismatch(b, t, ".txz"@, 3);
            assert(!ends_with(b + t, ".txz"@));
            reveal_strlit(".tar.zst");
            assert(".tar.zst"@.len() == 8);
            assert((b + t).subrange((b + t).len() - t.len(), (b + t).len() as int) =~= t);
            assert(ends_with(b + t, t));
            assert(".tar.zst"@ =~= t);
            assert(spec_classify(b + t, name_extension(b + t)) == Ok::<Format, Seq<char>>(f));
        },
        Format::TarBz2 => {
            reveal_strlit(".");
            assert("."@.len() == 1);
            reveal_strlit("tar.bz2");
            assert("tar.bz2"@.len() == 7);
            assert("."@ =~= seq!['.']);
            assert(t =~= seq!['.', 't', 'a', 'r', '.', 'b', 'z', '2']);
            reveal_strlit(".tar.gz");
            assert(".tar.gz"@.len() == 7);
            assert(".tar.gz"@[6] == 'z');
            lemma_tail_mismatch(b, t, ".tar.gz"@, 6);
            assert(!ends_with(b + t, ".tar.gz"@));
            reveal_strlit(".tgz");
            assert(".tgz"@.len() == 4);
            assert(".tgz"@[3] == 'z');
            lemma_tail_mismatch(b, t, ".tgz"@, 3);
            assert(!ends_with(b + t, ".tgz"@));
            reveal_strlit(".tar.xz");
            assert(".tar.xz"@.len() == 7);
            assert(".tar.xz"@[6] == 'z');
            lemma_tail_mismatch(b, t, ".tar.xz"@, 6);
            assert(!ends_with(b + t, ".tar.xz"@));
            reveal_strlit(".txz");
            assert(".txz"@.len() == 4);
            assert(".txz"@[3] == 'z');
            lemma_tail_mismatch(b, t, ".txz"@, 3);
            assert(!ends_with(b + t, ".txz"@));
            reveal_strlit(".tar.zst");
            assert(".tar.zst"@.len() == 8);
            assert(".tar.zst"@[7] == 't');
            lemma_tail_mismatch(b, t, ".tar.zst"@, 7);
            assert(!ends_with(b + t, ".tar.zst"@));
            reveal_strlit(".tar.zstd");
            assert(".tar.zstd"@.len() == 9);
            assert(".tar.zstd"@[8] == 'd');
            lemma_tail_mismatch(b, t, ".tar.zstd"@, 8);
            assert(!ends_with(b + t, ".tar.zstd"@));
            reveal_strlit(".tar.bz2");
            assert(".tar.bz2"@.len() == 8);
            assert((b + t).subrange((b + t).len() - t.len(), (b + t).len() as int) =~= t);
            assert(ends_with(b + t, t));
            assert(".tar.bz2"@ =~= t);
            assert(spec_classify(b + t, name_extension(b + t)) == Ok::<Format, Seq<char>>(f));
        },
        Format::TarLzma => {
            reveal_strlit(".");
            assert("."@.len() == 1);
            reveal_strlit("tar.lzma");
            assert("tar.lzma"@.len() == 8);
            assert("."@ =~= seq!['.']);
            assert(t =~= seq!['.', 't', 'a', 'r', '.', 'l', 'z', 'm', 'a']);
            reveal_strlit(".tar.gz");
            assert(".tar.gz"@.len() == 7);
            assert(".tar.gz"@[6] == 'z');
            lemma_tail_mismatch(b, t, ".tar.gz"@, 6);
            assert(!ends_with(b + t, ".tar.gz"@));
            reveal_strlit(".tgz");
            assert(".tgz"@.len() == 4);
            assert(".tgz"@[3] == 'z');
            lemma_tail_mismatch(b, t, ".tgz"@, 3);
            assert(!ends_with(b + t, ".tgz"@));
            reveal_strlit(".tar.xz");
            assert(".tar.xz"@.len() == 7);
            assert(".tar.xz"@[6] == 'z');
            lemma_tail_mismatch(b, t, ".tar.xz"@, 6);
            assert(!ends_with(b + t, ".tar.xz"@));
            reveal_strlit(".txz");
            assert(".txz"@.len() == 4);
            assert(".txz"@[3] == 'z');
            lemma_tail_mismatch(b, t, ".txz"@, 3);
            assert(!ends_with(b + t, ".txz"@));
            reveal_strlit(".tar.zst");
            assert(".tar.zst"@.len() == 8);
            assert(".tar.zst"@[7] == 't');
            lemma_tail_mismatch(b, t, ".tar.zst"@, 7);
            assert(!ends_with(b + t, ".tar.zst"@));
            reveal_strlit(".tar.zstd");
            assert(".tar.zstd"@.len() == 9);
            assert(".tar.zstd"@[8] == 'd');
            lemma_tail_mismatch(b, t, ".tar.zstd"@, 8);
            assert(!ends_with(b + t, ".tar.zstd"@));
            reveal_strlit(".tar.bz2");
            assert(".tar.bz2"@.len() == 8);
            assert(".tar.bz2"@[7] == '2');
            lemma_tail_mismatch(b, t, ".tar.bz2"@, 7);
            assert(!ends_with(b + t, ".tar.bz2"@));
            reveal_strlit(".tbz2");
            assert(".tbz2"@.len() == 5);
            assert(".tbz2"@[4] == '2');
            lemma_tail_mismatch(b, t, ".tbz2"@, 4);
            assert(!ends_with(b + t, ".tbz2"@));
            reveal_strlit(".tbz");
            assert(".tbz"@.len() == 4);
            assert(".tbz"@[3] == 'z');
            lemma_tail_mismatch(b, t, ".tbz"@, 3);
            assert(!ends_with(b + t, ".tbz"@));
            reveal_strlit(".tar.lzma");
            assert(".tar.lzma"@.len() == 9);
            assert((b + t).subrange((b + t).len() - t.len(), (b + t).len() as int) =~= t);
            assert(ends_with(b + t, t));
            assert(".tar.lzma"@ =~= t);
            assert(spec_classify(b + t, name_extension(b + t)) == Ok::<Format, Seq<char>>(f));
        },
        Format::Gz => {
            reveal_strlit(".");
            assert("."@.len() == 1);
            reveal_strlit("gz");
            assert("gz"@.len() == 2);
            assert("."@ =~= seq!['.']);
            assert(t =~= seq!['.', 'g', 'z']);
            reveal_strlit(".tar.gz");
            assert(".tar.gz"@.len() == 7);
            reveal_strlit(".tar");
            assert(".tar"@.len() == 4);
            assert(".tar.gz"@ =~= ".tar"@ + t);
            if ends_with(b + t, ".tar.gz"@) {
                lemma_tail_split(b, ".tar"@, t);
            }
            reveal_strlit(".tgz");
            assert(".tgz"@.len() == 4);
            assert(".tgz"@[1] == 't');
            lemma_tail_mismatch(b, t, ".tgz"@, 1);
            assert(!ends_with(b + t, ".tgz"@));
            reveal_strlit(".tar.xz");
            assert(".tar.xz"@.len() == 7);
            assert(".tar.xz"@[5] == 'x');
            lemma_tail_mismatch(b, t, ".tar.xz"@, 5);
            assert(!ends_with(b + t, ".tar.xz"@));
            reveal_strlit(".txz");
            assert(".txz"@.len() == 4);
            assert(".txz"@[2] == 'x');
            lemma_tail_mismatch(b, t, ".txz"@, 2);
            assert(!ends_with(b + t, ".txz"@));
            reveal_strlit(".tar.zst");
            assert(".tar.zst"@.len() == 8);
            assert(".tar.zst"@[7] == 't');
            lemma_tail_mismatch(b, t, ".tar.zst"@, 7);
            assert(!ends_with(b + t, ".tar.zst"@));
            reveal_strlit(".tar.zstd");
            assert(".tar.zstd"@.len() == 9);
            assert(".tar.zstd"@[8] == 'd');
            lemma_tail_mismatch(b, t, ".tar.zstd"@, 8);
            assert(!ends_with(b + t, ".tar.zstd"@));
            reveal_strlit(".tar.bz2");
            assert(".tar.bz2"@.len() == 8);
            assert(".tar.bz2"@[7] == '2');
            lemma_tail_mismatch(b, t, ".tar.bz2"@, 7);
            assert(!ends_with(b + t, ".tar.bz2"@));
            reveal_strlit(".tbz2");
            assert(".tbz2"@.len() == 5);
            assert(".tbz2"@[4] == '2');
            lemma_tail_mismatch(b, t, ".tbz2"@, 4);
            assert(!ends_with(b + t, ".tbz2"@));
            reveal_strlit(".tbz");
            assert(".tbz"@.len() == 4);
            assert(".tbz"@[2] == 'b');
            lemma_tail_mismatch(b, t, ".tbz"@, 2);
            assert(!ends_with(b + t, ".tbz"@));
            reveal_strlit(".tar.lzma");
            assert(".tar.lzma"@.len() == 9);
            assert(".tar.lzma"@[8] == 'a');
            lemma_tail_mismatch(b, t, ".tar.lzma"@, 8);
            assert(!ends_with(b + t, ".tar.lzma"@));
            lemma_simple_extension(b, f.spec_extension());
            assert(b + seq!['.'] + f.spec_extension() =~= b + t);
            reveal_strlit("zip");
            assert("zip"@.len() == 3);
            assert("gz"@ != "zip"@);
            reveal_strlit("7z");
            assert("7z"@.len() == 2);
            assert("gz"@[0] != "7z"@[0]);
            assert("gz"@ != "7z"@);
            reveal_strlit("tar");
            assert("tar"@.len() == 3);
            assert("gz"@ != "tar"@);
            assert(spec_classify(b + t, name_extension(b + t)) == Ok::<Format, Seq<char>>(f));
        },
        Format::Zst => {
            reveal_strlit(".");
            assert("."@.len() == 1);
            reveal_strlit("zst");
            assert("zst"@.len() == 3);
            assert("."@ =~= seq!['.']);
            assert(t =~= seq!['.', 'z', 's', 't']);
            reveal_strlit(".tar.gz");
            assert(".tar.gz"@.len() == 7);
            assert(".tar.gz"@[6] == 'z');
            lemma_tail_mismatch(b, t, ".tar.gz"@, 6);
            assert(!ends_with(b + t, ".tar.gz"@));
            reveal_strlit(".tgz");
            assert(".tgz"@.len() == 4);
            assert(".tgz"@[3] == 'z');
            lemma_tail_mismatch(b, t, ".tgz"@, 3);
            assert(!ends_with(b + t, ".tgz"@));
            reveal_strlit(".tar.xz");
            assert(".tar.xz"@.len() == 7);
            assert(".tar.xz"@[6] == 'z');
            lemma_tail_mismatch(b, t, ".tar.xz"@, 6);
            assert(!ends_with(b + t, ".tar.xz"@));
            reveal_strlit(".txz");
            assert(".txz"@.len() == 4);
            assert(".txz"@[3] == 'z');
            lemma_tail_mismatch(b, t, ".txz"@, 3);
            assert(!ends_with(b + t, ".txz"@));
            reveal_strlit(".tar.zst");
            assert(".tar.zst"@.len() == 8);
            reveal_strlit(".tar");
            assert(".tar"@.len() == 4);
            assert(".tar.zst"@ =~= ".tar"@ + t);
            if ends_with(b + t, ".tar.zst"@) {
                lemma_tail_split(b, ".tar"@, t);
            }
            reveal_strlit(".tar.zstd");
            assert(".tar.zstd"@.len() == 9);
            assert(".tar.zstd"@[8] == 'd');
            lemma_tail_mismatch(b, t, ".tar.zstd"@, 8);
            assert(!ends_with(b + t, ".tar.zstd"@));
            reveal_strlit(".tar.bz2");
            assert(".tar.bz2"@.len() == 8);
            assert(".tar.bz2"@[7] == '2');
            lemma_tail_mismatch(b, t, ".tar.bz2"@, 7);
            assert(!ends_with(b + t, ".tar.bz2"@));
            reveal_strlit(".tbz2");
            assert(".tbz2"@.len() == 5);
            assert(".tbz2"@[4] == '2');
            lemma_tail_mismatch(b, t, ".tbz2"@, 4);
            assert(!ends_with(b + t, ".tbz2"@));
            reveal_strlit(".tbz");
            assert(".tbz"@.len() == 4);
            assert(".tbz"@[3] == 'z');
            lemma_tail_mismatch(b, t, ".tbz"@, 3);
            assert(!ends_with(b + t, ".tbz"@));
            reveal_strlit(".tar.lzma");
            assert(".tar.lzma"@.len() == 9);
            assert(".tar.lzma"@[8] == 'a');
            lemma_tail_mismatch(b, t, ".tar.lzma"@, 8);
            assert(!ends_with(b + t, ".tar.lzma"@));
            lemma_simple_extension(b, f.spec_extension());
            assert(b + seq!['.'] + f.spec_extension() =~= b + t);
            reveal_strlit("zip");
            assert("zip"@.len() == 3);
            assert("zst"@[1] != "zip"@[1]);
            assert("zst"@ != "zip"@);
            reveal_strlit("7z");
            assert("7z"@.len() == 2);
            assert("zst"@ != "7z"@);
            reveal_strlit("tar");
            assert("tar"@.len() == 3);
            assert("zst"@[0] != "tar"@[0]);
            assert("zst"@ != "tar"@);
            reveal_strlit("gz");
            assert("gz"@.len() == 2);
            assert("zst"@ != "gz"@);
            reveal_strlit("gzip");
            assert("gzip"@.len() == 4);
            assert("zst"@ != "gzip"@);
            assert(spec_classify(b + t, name_extension(b + t)) == Ok::<Format, Seq<char>>(f));
        },
        Format::Xz => {
            reveal_strlit(".");
            assert("."@.len() == 1);
            reveal_strlit("xz");
            assert("xz"@.len() == 2);
            assert("."@ =~= seq!['.']);
            assert(t =~= seq!['.', 'x', 'z']);
            reveal_strlit(".tar.gz");
            assert(".tar.gz"@.len() == 7);
            assert(".tar.gz"@[5] == 'g');
            lemma_tail_mismatch(b, t, ".tar.gz"@, 5);
            assert(!ends_with(b + t, ".tar.gz"@));
            reveal_strlit(".tgz");
            assert(".tgz"@.len() == 4);
            assert(".tgz"@[2] == 'g');
            lemma_tail_mismatch(b, t, ".tgz"@, 2);
            assert(!ends_with(b + t, ".tgz"@));
            reveal_strlit(".tar.xz");
            assert(".tar.xz"@.len() == 7);
            reveal_strlit(".tar");
            assert(".tar"@.len() == 4);
            assert(".tar.xz"@ =~= ".tar"@ + t);
            if ends_with(b + t, ".tar.xz"@) {
                lemma_tail_split(b, ".tar"@, t);
            }
            reveal_strlit(".txz");
            assert(".txz"@.len() == 4);
            assert(".txz"@[1] == 't');
            lemma_tail_mismatch(b, t, ".txz"@, 1);
            assert(!ends_with(b + t, ".txz"@));
            reveal_strlit(".tar.zst");
            assert(".tar.zst"@.len() == 8);
            assert(".tar.zst"@[7] == 't');
            lemma_tail_mismatch(b, t, ".tar.zst"@, 7);
            assert(!ends_with(b + t, ".tar.zst"@));
            reveal_strlit(".tar.zstd");
            assert(".tar.zstd"@.len() == 9);
            assert(".tar.zstd"@[8] == 'd');
            lemma_tail_mismatch(b, t, ".tar.zstd"@, 8);
            assert(!ends_with(b + t, ".tar.zstd"@));
            reveal_strlit(".tar.bz2");
            assert(".tar.bz2"@.len() == 8);
            assert(".tar.bz2"@[7] == '2');
            lemma_tail_mismatch(b, t, ".tar.bz2"@, 7);
            assert(!ends_with(b + t, ".tar.bz2"@));
            reveal_strlit(".tbz2");
            assert(".tbz2"@.len() == 5);
            assert(".tbz2"@[4] == '2');
            lemma_tail_mismatch(b, t, ".tbz2"@, 4);
            assert(!ends_with(b + t, ".tbz2"@));
            reveal_strlit(".tbz");
            assert(".tbz"@.len() == 4);
            assert(".tbz"@[2] == 'b');
            lemma_tail_mismatch(b, t, ".tbz"@, 2);
            assert(!ends_with(b + t, ".tbz"@));
            reveal_strlit(".tar.lzma");
            assert(".tar.lzma"@.len() == 9);
            assert(".tar.lzma"@[8] == 'a');
            lemma_tail_mismatch(b, t, ".tar.lzma"@, 8);
            assert(!ends_with(b + t, ".tar.lzma"@));
            lemma_simple_extension(b, f.spec_extension());
            assert(b + seq!['.'] + f.spec_extension() =~= b + t);
            reveal_strlit("zip");
            assert("zip"@.len() == 3);
            assert("xz"@ != "zip"@);
            reveal_strlit("7z");
            assert("7z"@.len() == 2);
            assert("xz"@[0] != "7z"@[0]);
            assert("xz"@ != "7z"@);
            reveal_strlit("tar");
            assert("tar"@.len() == 3);
            assert("xz"@ != "tar"@);
            reveal_strlit("gz");
            assert("gz"@.len() == 2);
            assert("xz"@[0] != "gz"@[0]);
            assert("xz"@ != "gz"@);
            reveal_strlit("gzip");
            assert("gzip"@.len() == 4);
            assert("xz"@ != "gzip"@);
            reveal_strlit("zst");
            assert("zst"@.len() == 3);
            assert("xz"@ != "zst"@);
            reveal_strlit("zstd");
            assert("zstd"@.len() == 4);
            assert("xz"@ != "zstd"@);
            assert(spec_classify(b + t, name_extension(b + t)) == Ok::<Format, Seq<char>>(f));
        },
        Format::Lzma => {
            reveal_strlit(".");
            assert("."@.len() == 1);
            reveal_strlit("lzma");
            assert("lzma"@.len() == 4);
            assert("."@ =~= seq!['.']);
            assert(t =~= seq!['.', 'l', 'z', 'm', 'a']);
            reveal_strlit(".tar.gz");
            assert(".tar.gz"@.len() == 7);
            assert(".tar.gz"@[6] == 'z');
            lemma_tail_mismatch(b, t, ".tar.gz"@, 6);
            assert(!ends_with(b + t, ".tar.gz"@));
            reveal_strlit(".tgz");
            assert(".tgz"@.len() == 4);
            assert(".tgz"@[3] == 'z');
            lemma_tail_mismatch(b, t, ".tgz"@, 3);
            assert(!ends_with(b + t, ".tgz"@));
            reveal_strlit(".tar.xz");
            assert(".tar.xz"@.len() == 7);
            assert(".tar.xz"@[6] == 'z');
            lemma_tail_mismatch(b, t, ".tar.xz"@, 6);
            assert(!ends_with(b + t, ".tar.xz"@));
            reveal_strlit(".txz");
            assert(".txz"@.len() == 4);
            assert(".txz"@[3] == 'z');
            lemma_tail_mismatch(b, t, ".txz"@, 3);
            assert(!ends_with(b + t, ".txz"@));
            reveal_strlit(".tar.zst");
            assert(".tar.zst"@.len() == 8);
            assert(".tar.zst"@[7] == 't');
            lemma_tail_mismatch(b, t, ".tar.zst"@, 7);
            assert(!ends_with(b + t, ".tar.zst"@));
            reveal_strlit(".tar.zstd");
            assert(".tar.zstd"@.len() == 9);
            assert(".tar.zstd"@[8] == 'd');
            lemma_tail_mismatch(b, t, ".tar.zstd"@, 8);
            assert(!ends_with(b + t, ".tar.zstd"@));
            reveal_strlit(".tar.bz2");
            assert(".tar.bz2"@.len() == 8);
            assert(".tar.bz2"@[7] == '2');
            lemma_tail_mismatch(b, t, ".tar.bz2"@, 7);
            assert(!ends_with(b + t, ".tar.bz2"@));
            reveal_strlit(".tbz2");
            assert(".tbz2"@.len() == 5);
            assert(".tbz2"@[4] == '2');
            lemma_tail_mismatch(b, t, ".tbz2"@, 4);
            assert(!ends_with(b + t, ".tbz2"@));
            reveal_strlit(".tbz");
            assert(".tbz"@.len() == 4);
            assert(".tbz"@[3] == 'z');
            lemma_tail_mismatch(b, t, ".tbz"@, 3);
            assert(!ends_with(b + t, ".tbz"@));
            reveal_strlit(".tar.lzma");
            assert(".tar.lzma"@.len() == 9);
            reveal_strlit(".tar");
            assert(".tar"@.len() == 4);
            assert(".tar.lzma"@ =~= ".tar"@ + t);
            if ends_with(b + t, ".tar.lzma"@) {
                lemma_tail_split(b, ".tar"@, t);
            }
            lemma_simple_extension(b, f.spec_extension());
            assert(b + seq!['.'] + f.spec_extension() =~= b + t);
            reveal_strlit("zip");
            assert("zip"@.len() == 3);
            assert("lzma"@ != "zip"@);
            reveal_strlit("7z");
            assert("7z"@.len() == 2);
            assert("lzma"@ != "7z"@);
            reveal_strlit("tar");
            assert("tar"@.len() == 3);
            assert("lzma"@ != "tar"@);
            reveal_strlit("gz");
            assert("gz"@.len() == 2);
            assert("lzma"@ != "gz"@);
            reveal_strlit("gzip");
            assert("gzip"@.len() == 4);
            assert("lzma"@[0] != "gzip"@[0]);
            assert("lzma"@ != "gzip"@);
            reveal_strlit("zst");
            assert("zst"@.len() == 3);
            assert("lzma"@ != "zst"@);
            reveal_strlit("zstd");
            assert("zstd"@.len() == 4);
            assert("lzma"@[0] != "zstd"@[0]);
            assert("lzma"@ != "zstd"@);
            reveal_strlit("xz");
            assert("xz"@.len() == 2);
            assert("lzma"@ != "xz"@);
            assert(spec_classify(b + t, name_extension(b + t)) == Ok::<Format, Seq<char>>(f));
        },
        Format::Bz2 => {
            reveal_strlit(".");
            assert("."@.len() == 1);
            reveal_strlit("bz2");
            assert("bz2"@.len() == 3);
            assert("."@ =~= seq!['.']);
            assert(t =~= seq!['.', 'b', 'z', '2']);
            reveal_strlit(".tar.gz");
            assert(".tar.gz"@.len() == 7);
            assert(".tar.gz"@[6] == 'z');
            lemma_tail_mismatch(b, t, ".tar.gz"@, 6);
            assert(!ends_with(b + t, ".tar.gz"@));
            reveal_strlit(".tgz");
            assert(".tgz"@.len() == 4);
            assert(".tgz"@[3] == 'z');
            lemma_tail_mismatch(b, t, ".tgz"@, 3);
            assert(!ends_with(b + t, ".tgz"@));
            reveal_strlit(".tar.xz");
            assert(".tar.xz"@.len() == 7);
            assert(".tar.xz"@[6] == 'z');
            lemma_tail_mismatch(b, t, ".tar.xz"@, 6);
            assert(!ends_with(b + t, ".tar.xz"@));
            reveal_strlit(".txz");
            assert(".txz"@.len() == 4);
            assert(".txz"@[3] == 'z');
            lemma_tail_mismatch(b, t, ".txz"@, 3);
            assert(!ends_with(b + t, ".txz"@));
            reveal_strlit(".tar.zst");
            assert(".tar.zst"@.len() == 8);
            assert(".tar.zst"@[7] == 't');
            lemma_tail_mismatch(b, t, ".tar.zst"@, 7);
            assert(!ends_with(b + t, ".tar.zst"@));
            reveal_strlit(".tar.zstd");
            assert(".tar.zstd"@.len() == 9);
            assert(".tar.zstd"@[8] == 'd');
            lemma_tail_mismatch(b, t, ".tar.zstd"@, 8);
            assert(!ends_with(b + t, ".tar.zstd"@));
            reveal_strlit(".tar.bz2");
            assert(".tar.bz2"@.len() == 8);
            reveal_strlit(".tar");
            assert(".tar"@.len() == 4);
            assert(".tar.bz2"@ =~= ".tar"@ + t);
            if ends_with(b + t, ".tar.bz2"@) {
                lemma_tail_split(b, ".tar"@, t);
            }
            reveal_strlit(".tbz2");
            assert(".tbz2"@.len() == 5);
            assert(".tbz2"@[1] == 't');
            lemma_tail_mismatch(b, t, ".tbz2"@, 1);
            assert(!ends_with(b + t, ".tbz2"@));
            reveal_strlit(".tbz");
            assert(".tbz"@.len() == 4);
            assert(".tbz"@[3] == 'z');
            lemma_tail_mismatch(b, t, ".tbz"@, 3);
            assert(!ends_with(b + t, ".tbz"@));
            reveal_strlit(".tar.lzma");
            assert(".tar.lzma"@.len() == 9);
            assert(".tar.lzma"@[8] == 'a');
            lemma_tail_mismatch(b, t, ".tar.lzma"@, 8);
            assert(!ends_with(b + t, ".tar.lzma"@));
            lemma_simple_extension(b, f.spec_extension());
            assert(b + seq!['.'] + f.spec_extension() =~= b + t);
            reveal_strlit("zip");
            assert("zip"@.len() == 3);
            assert("bz2"@[0] != "zip"@[0]);
            assert("bz2"@ != "zip"@);
            reveal_strlit("7z");
            assert("7z"@.len() == 2);
            assert("bz2"@ != "7z"@);
            reveal_strlit("tar");
            assert("tar"@.len() == 3);
            assert("bz2"@[0] != "tar"@[0]);
            assert("bz2"@ != "tar"@);
            reveal_strlit("gz");
            assert("gz"@.len() == 2);
            assert("bz2"@ != "gz"@);
            reveal_strlit("gzip");
            assert("gzip"@.len() == 4);
            assert("bz2"@ != "gzip"@);
            reveal_strlit("zst");
            assert("zst"@.len() == 3);
            assert("bz2"@[0] != "zst"@[0]);
            assert("bz2"@ != "zst"@);
            reveal_strlit("zstd");
            assert("zstd"@.len() == 4);
            assert("bz2"@ != "zstd"@);
            reveal_strlit("xz");
            assert("xz"@.len() == 2);
            assert("bz2"@ != "xz"@);
            reveal_strlit("lzma");
            assert("lzma"@.len() == 4);
            assert("bz2"@ != "lzma"@);
            assert(spec_classify(b + t, name_extension(b + t)) == Ok::<Format, Seq<char>>(f));
        },
    }
}

/// Every format's extension, read as a format name, names that format.
pub proof fn law_extension_names_its_format(f: Format)
    ensures
        Format::spec_for_name(f.spec_extension()) == Some(f),
{
    match f {
        Format::Zip => {
            reveal_strlit("zip");
            assert("zip"@.len() == 3);
        },
        Format::SevenZ => {
            reveal_strlit("7z");
            assert("7z"@.len() == 2);
            reveal_strlit("zip");
            assert("zip"@.len() == 3);
            assert("7z"@ != "zip"@);
        },
        Format::Tar => {
            reveal_strlit("tar");
            assert("tar"@.len() == 3);
            reveal_strlit("zip");
            assert("zip"@.len() == 3);
            assert("tar"@[0] != "zip"@[0]);
            assert("tar"@ != "zip"@);
            reveal_strlit("7z");
            assert("7z"@.len() == 2);
            assert("tar"@ != "7z"@);
        },
        Format::TarGz => {
            reveal_strlit("tar.gz");
            assert("tar.gz"@.len() == 6);
            reveal_strlit("zip");
            assert("zip"@.len() == 3);
            assert("tar.gz"@ != "zip"@);
            reveal_strlit("7z");
            assert("7z"@.len() == 2);
            assert("tar.gz"@ != "7z"@);
            reveal_strlit("tar");
            assert("tar"@.len() == 3);
            assert("tar.gz"@ != "tar"@);
        },
        Format::TarXz => {
            reveal_strlit("tar.xz");
            assert("tar.xz"@.len() == 6);
            reveal_strlit("zip");
            assert("zip"@.len() == 3);
            assert("tar.xz"@ != "zip"@);
            reveal_strlit("7z");
            assert("7z"@.len() == 2);
            assert("tar.xz"@ != "7z"@);
            reveal_strlit("tar");
            assert("tar"@.len() == 3);
            assert("tar.xz"@ != "tar"@);
            reveal_strlit("tar.gz");
            assert("tar.gz"@.len() == 6);
            assert("tar.xz"@[4] != "tar.gz"@[4]);
            assert("tar.xz"@ != "tar.gz"@);
            reveal_strlit("tgz");
            assert("tgz"@.len() == 3);
            assert("tar.xz"@ != "tgz"@);
        },
        Format::TarZst => {
            reveal_strlit("tar.zst");
            assert("tar.zst"@.len() == 7);
            reveal_strlit("zip");
            assert("zip"@.len() == 3);
            assert("tar.zst"@ != "zip"@);
            reveal_strlit("7z");
            assert("7z"@.len() == 2);
            assert("tar.zst"@ != "7z"@);
            reveal_strlit("tar");
            assert("tar"@.len() == 3);
            assert("tar.zst"@ != "tar"@);
            reveal_strlit("tar.gz");
            assert("tar.gz"@.len() == 6);
            assert("tar.zst"@ != "tar.gz"@);
            reveal_strlit("tgz");
            assert("tgz"@.len() == 3);
            assert("tar.zst"@ != "tgz"@);
            reveal_strlit("tar.xz");
            assert("tar.xz"@.len() == 6);
            assert("tar.zst"@ != "tar.xz"@);
            reveal_strlit("txz");
            assert("txz"@.len() == 3);
            assert("tar.zst"@ != "txz"@);
        },
        Format::TarBz2 => {
            reveal_strlit("tar.bz2");
            assert("tar.bz2"@.len() == 7);
            reveal_strlit("zip");
            assert("zip"@.len() == 3);
            assert("tar.bz2"@ != "zip"@);
            reveal_strlit("7z");
            assert("7z"@.len() == 2);
            assert("tar.bz2"@ != "7z"@);
            reveal_strlit("tar");
            assert("tar"@.len() == 3);
            assert("tar.bz2"@ != "tar"@);
            reveal_strlit("tar.gz");
            assert("tar.gz"@.len() == 6);
            assert("tar.bz2"@ != "tar.gz"@);
            reveal_strlit("tgz");
            assert("tgz"@.len() == 3);
            assert("tar.bz2"@ != "tgz"@);
            reveal_strlit("tar.xz");
            assert("tar.xz"@.len() == 6);
            assert("tar.bz2"@ != "tar.xz"@);
            reveal_strlit("txz");
            assert("txz"@.len() == 3);
            assert("tar.bz2"@ != "txz"@);
            reveal_strlit("tar.zst");
            assert("tar.zst"@.len() == 7);
            assert("tar.bz2"@[4] != "tar.zst"@[4]);
            assert("tar.bz2"@ != "tar.zst"@);
            reveal_strlit("tar.zstd");
            assert("tar.zstd"@.len() == 8);
            assert("tar.bz2"@ != "tar.zstd"@);
        },
        Format::TarLzma => {
            reveal_strlit("tar.lzma");
            assert("tar.lzma"@.len() == 8);
            reveal_strlit("zip");
            assert("zip"@.len() == 3);
            assert("tar.lzma"@ != "zip"@);
            reveal_strlit("7z");
            assert("7z"@.len() == 2);
            assert("tar.lzma"@ != "7z"@);
            reveal_strlit("tar");
            assert("tar"@.len() == 3);
            assert("tar.lzma"@ != "tar"@);
            reveal_strlit("tar.gz");
            assert("tar.gz"@.len() == 6);
            assert("tar.lzma"@ != "tar.gz"@);
            reveal_strlit("tgz");
            assert("tgz"@.len() == 3);
            assert("tar.lzma"@ != "tgz"@);
            reveal_strlit("tar.xz");
            assert("tar.xz"@.len() == 6);
            assert("tar.lzma"@ != "tar.xz"@);
            reveal_strlit("txz");
            assert("txz"@.len() == 3);
            assert("tar.lzma"@ != "txz"@);
            reveal_strlit("tar.zst");
            assert("tar.zst"@.len() == 7);
            assert("tar.lzma"@ != "tar.zst"@);
            reveal_strlit("tar.zstd");
            assert("tar.zstd"@.len() == 8);
            assert("tar.lzma"@[4] != "tar.zstd"@[4]);
            assert("tar.lzma"@ != "tar.zstd"@);
            reveal_strlit("tar.bz2");
            assert("tar.bz2"@.len() == 7);
            assert("tar.lzma"@ != "tar.bz2"@);
            reveal_strlit("tbz2");
            assert("tbz2"@.len() == 4);
            assert("tar.lzma"@ != "tbz2"@);
            reveal_strlit("tbz");
            assert("tbz"@.len() == 3);
            assert("tar.lzma"@ != "tbz"@);
        },
        Format::Gz => {
            reveal_strlit("gz");
            assert("gz"@.len() == 2);
            reveal_strlit("zip");
            assert("zip"@.len() == 3);
            assert("gz"@ != "zip"@);
            reveal_strlit("7z");
            assert("7z"@.len() == 2);
            assert("gz"@[0] != "7z"@[0]);
            assert("gz"@ != "7z"@);
            reveal_strlit("tar");
            assert("tar"@.len() == 3);
            assert("gz"@ != "tar"@);
            reveal_strlit("tar.gz");
            assert("tar.gz"@.len() == 6);
            assert("gz"@ != "tar.gz"@);
            reveal_strlit("tgz");
            assert("tgz"@.len() == 3);
            assert("gz"@ != "tgz"@);
            reveal_strlit("tar.xz");
            assert("tar.xz"@.len() == 6);
            assert("gz"@ != "tar.xz"@);
            reveal_strlit("txz");
            assert("txz"@.len() == 3);
            assert("gz"@ != "txz"@);
            reveal_strlit("tar.zst");
            assert("tar.zst"@.len() == 7);
            assert("gz"@ != "tar.zst"@);
            reveal_strlit("tar.zstd");
            assert("tar.zstd"@.len() == 8);
            assert("gz"@ != "tar.zstd"@);
            reveal_strlit("tar.bz2");
            assert("tar.bz2"@.len() == 7);
            assert("gz"@ != "tar.bz2"@);
            reveal_strlit("tbz2");
            assert("tbz2"@.len() == 4);
            assert("gz"@ != "tbz2"@);
            reveal_strlit("tbz");
            assert("tbz"@.len() == 3);
            assert("gz"@ != "tbz"@);
            reveal_strlit("tar.lzma");
            assert("tar.lzma"@.len() == 8);
            assert("gz"@ != "tar.lzma"@);
        },
        Format::Zst => {
            reveal_strlit("zst");
            assert("zst"@.len() == 3);
            reveal_strlit("zip");
            assert("zip"@.len() == 3);
            assert("zst"@[1] != "zip"@[1]);
            assert("zst"@ != "zip"@);
            reveal_strlit("7z");
            assert("7z"@.len() == 2);
            assert("zst"@ != "7z"@);
            reveal_strlit("tar");
            assert("tar"@.len() == 3);
            assert("zst"@[0] != "tar"@[0]);
            assert("zst"@ != "tar"@);
            reveal_strlit("tar.gz");
            assert("tar.gz"@.len() == 6);
            assert("zst"@ != "tar.gz"@);
            reveal_strlit("tgz");
            assert("tgz"@.len() == 3);
            assert("zst"@[0] != "tgz"@[0]);
            assert("zst"@ != "tgz"@);
            reveal_strlit("tar.xz");
            assert("tar.xz"@.len() == 6);
            assert("zst"@ != "tar.xz"@);
            reveal_strlit("txz");
            assert("txz"@.len() == 3);
            assert("zst"@[0] != "txz"@[0]);
            assert("zst"@ != "txz"@);
            reveal_strlit("tar.zst");
            assert("tar.zst"@.len() == 7);
            assert("zst"@ != "tar.zst"@);
            reveal_strlit("tar.zstd");
            assert("tar.zstd"@.len() == 8);
            assert("zst"@ != "tar.zstd"@);
            reveal_strlit("tar.bz2");
            assert("tar.bz2"@.len() == 7);
            assert("zst"@ != "tar.bz2"@);
            reveal_strlit("tbz2");
            assert("tbz2"@.len() == 4);
            assert("zst"@ != "tbz2"@);
            reveal_strlit("tbz");
            assert("tbz"@.len() == 3);
            assert("zst"@[0] != "tbz"@[0]);
            assert("zst"@ != "tbz"@);
            reveal_strlit("tar.lzma");
            assert("tar.lzma"@.len() == 8);
            assert("zst"@ != "tar.lzma"@);
            reveal_strlit("gz");
            assert("gz"@.len() == 2);
            assert("zst"@ != "gz"@);
            reveal_strlit("gzip");
            assert("gzip"@.len() == 4);
            assert("zst"@ != "gzip"@);
        },
        Format::Xz => {
            reveal_strlit("xz");
            assert("xz"@.len() == 2);
            reveal_strlit("zip");
            assert("zip"@.len() == 3);
            assert("xz"@ != "zip"@);
            reveal_strlit("7z");
            assert("7z"@.len() == 2);
            assert("xz"@[0] != "7z"@[0]);
            assert("xz"@ != "7z"@);
            reveal_strlit("tar");
            assert("tar"@.len() == 3);
            assert("xz"@ != "tar"@);
            reveal_strlit("tar.gz");
            assert("tar.gz"@.len() == 6);
            assert("xz"@ != "tar.gz"@);
            reveal_strlit("tgz");
            assert("tgz"@.len() == 3);
            assert("xz"@ != "tgz"@);
            reveal_strlit("tar.xz");
            assert("tar.xz"@.len() == 6);
            assert("xz"@ != "tar.xz"@);
            reveal_strlit("txz");
            assert("txz"@.len() == 3);
            assert("xz"@ != "txz"@);
            reveal_strlit("tar.zst");
            assert("tar.zst"@.len() == 7);
            assert("xz"@ != "tar.zst"@);
            reveal_strlit("tar.zstd");
            assert("tar.zstd"@.len() == 8);
            assert("xz"@ != "tar.zstd"@);
            reveal_strlit("tar.bz2");
            assert("tar.bz2"@.len() == 7);
            assert("xz"@ != "tar.bz2"@);
            reveal_strlit("tbz2");
            assert("tbz2"@.len() == 4);
            assert("xz"@ != "tbz2"@);
            reveal_strlit("tbz");
            assert("tbz"@.len() == 3);
            assert("xz"@ != "tbz"@);
            reveal_strlit("tar.lzma");
            assert("tar.lzma"@.len() == 8);
            assert("xz"@ != "tar.lzma"@);
            reveal_strlit("gz");
            assert("gz"@.len() == 2);
            assert("xz"@[0] != "gz"@[0]);
            assert("xz"@ != "gz"@);
            reveal_strlit("gzip");
            assert("gzip"@.len() == 4);
            assert("xz"@ != "gzip"@);
            reveal_strlit("zst");
            assert("zst"@.len() == 3);
            assert("xz"@ != "zst"@);
            reveal_strlit("zstd");
            assert("zstd"@.len() == 4);
            assert("xz"@ != "zstd"@);
        },
        Format::Lzma => {
            reveal_strlit("lzma");
            assert("lzma"@.len() == 4);
            reveal_strlit("zip");
            assert("zip"@.len() == 3);
            assert("lzma"@ != "zip"@);
            reveal_strlit("7z");
            assert("7z"@.len() == 2);
            assert("lzma"@ != "7z"@);
            reveal_strlit("tar");
            assert("tar"@.len() == 3);
            assert("lzma"@ != "tar"@);
            reveal_strlit("tar.gz");
            assert("tar.gz"@.len() == 6);
            assert("lzma"@ != "tar.gz"@);
            reveal_strlit("tgz");
            assert("tgz"@.len() == 3);
            assert("lzma"@ != "tgz"@);
            reveal_strlit("tar.xz");
            assert("tar.xz"@.len() == 6);
            assert("lzma"@ != "tar.xz"@);
            reveal_strlit("txz");
            assert("txz"@.len() == 3);
            assert("lzma"@ != "txz"@);
            reveal_strlit("tar.zst");
            assert("tar.zst"@.len() == 7);
            assert("lzma"@ != "tar.zst"@);
            reveal_strlit("tar.zstd");
            assert("tar.zstd"@.len() == 8);
            assert("lzma"@ != "tar.zstd"@);
            reveal_strlit("tar.bz2");
            assert("tar.bz2"@.len() == 7);
            assert("lzma"@ != "tar.bz2"@);
            reveal_strlit("tbz2");
            assert("tbz2"@.len() == 4);
            assert("lzma"@[0] != "tbz2"@[0]);
            assert("lzma"@ != "tbz2"@);
            reveal_strlit("tbz");
            assert("tbz"@.len() == 3);
            assert("lzma"@ != "tbz"@);
            reveal_strlit("tar.lzma");
            assert("tar.lzma"@.len() == 8);
            assert("lzma"@ != "tar.lzma"@);
            reveal_strlit("gz");
            assert("gz"@.len() == 2);
            assert("lzma"@ != "gz"@);
            reveal_strlit("gzip");
            assert("gzip"@.len() == 4);
            assert("lzma"@[0] != "gzip"@[0]);
            assert("lzma"@ != "gzip"@);
            reveal_strlit("zst");
            assert("zst"@.len() == 3);
            assert("lzma"@ != "zst"@);
            reveal_strlit("zstd");
            assert("zstd"@.len() == 4);
            assert("lzma"@[0] != "zstd"@[0]);
            assert("lzma"@ != "zstd"@);
            reveal_strlit("xz");
            assert("xz"@.len() == 2);
            assert("lzma"@ != "xz"@);
        },
        Format::Bz2 => {
            reveal_strlit("bz2");
            assert("bz2"@.len() == 3);
            reveal_strlit("zip");
            assert("zip"@.len() == 3);
            assert("bz2"@[0] != "zip"@[0]);
            assert("bz2"@ != "zip"@);
            reveal_strlit("7z");
            assert("7z"@.len() == 2);
            assert("bz2"@ != "7z"@);
            reveal_strlit("tar");
            assert("tar"@.len() == 3);
            assert("bz2"@[0] != "tar"@[0]);
            assert("bz2"@ != "tar"@);
            reveal_strlit("tar.gz");
            assert("tar.gz"@.len() == 6);
            assert("bz2"@ != "tar.gz"@);
            reveal_strlit("tgz");
            assert("tgz"@.len() == 3);
            assert("bz2"@[0] != "tgz"@[0]);
            assert("bz2"@ != "tgz"@);
            reveal_strlit("tar.xz");
            assert("tar.xz"@.len() == 6);
            assert("bz2"@ != "tar.xz"@);
            reveal_strlit("txz");
            assert("txz"@.len() == 3);
            assert("bz2"@[0] != "txz"@[0]);
            assert("bz2"@ != "txz"@);
            reveal_strlit("tar.zst");
            assert("tar.zst"@.len() == 7);
            assert("bz2"@ != "tar.zst"@);
            reveal_strlit("tar.zstd");
            assert("tar.zstd"@.len() == 8);
            assert("bz2"@ != "tar.zstd"@);
            reveal_strlit("tar.bz2");
            assert("tar.bz2"@.len() == 7);
            assert("bz2"@ != "tar.bz2"@);
            reveal_strlit("tbz2");
            assert("tbz2"@.len() == 4);
            assert("bz2"@ != "tbz2"@);
            reveal_strlit("tbz");
            assert("tbz"@.len() == 3);
            assert("bz2"@[0] != "tbz"@[0]);
            assert("bz2"@ != "tbz"@);
            reveal_strlit("tar.lzma");
            assert("tar.lzma"@.len() == 8);
            assert("bz2"@ != "tar.lzma"@);
            reveal_strlit("gz");
            assert("gz"@.len() == 2);
            assert("bz2"@ != "gz"@);
            reveal_strlit("gzip");
            assert("gzip"@.len() == 4);
            assert("bz2"@ != "gzip"@);
            reveal_strlit("zst");
            assert("zst"@.len() == 3);
            assert("bz2"@[0] != "zst"@[0]);
            assert("bz2"@ != "zst"@);
            reveal_strlit("zstd");
            assert("zstd"@.len() == 4);
            assert("bz2"@ != "zstd"@);
            reveal_strlit("xz");
            assert("xz"@.len() == 2);
            assert("bz2"@ != "xz"@);
            reveal_strlit("lzma");
            assert("lzma"@.len() == 4);
            assert("bz2"@ != "lzma"@);
        },
    }
}


/// Text of lower-case ASCII letters, digits and dots.
pub open spec fn plain_lower(s: Seq<char>) -> bool {
    forall|i: int|
        0 <= i < s.len() ==> (('a' <= #[trigger] s[i] && s[i] <= 'z') || ('0' <= s[i] && s[i] <= '9')
            || s[i] == '.')
}

/// Lower-case ASCII text is ASCII, its own lower case, and holds no separator
/// or colon.
proof fn lemma_plain_lower(s: Seq<char>)
    requires
        plain_lower(s),
    ensures
        is_ascii_seq(s),
        ascii_lower(s) == s,
        forall|i: int| 0 <= i < s.len() ==> s[i] != '/' && s[i] != '\\' && s[i] != ':',
{
    assert(ascii_lower(s) =~= s);
}

/// Every format's extension is lower-case ASCII text of at least two
/// characters.
proof fn lemma_extension_plain(f: Format)
    ensures
        plain_lower(f.spec_extension()),
        f.spec_extension().len() >= 2,
{
    match f {
        Format::Zip => {
            reveal_strlit("zip");
            assert(f.spec_extension() =~= seq!['z', 'i', 'p']);
        },
        Format::SevenZ => {
            reveal_strlit("7z");
            assert(f.spec_extension() =~= seq!['7', 'z']);
        },
        Format::Tar => {
            reveal_strlit("tar");
            assert(f.spec_extension() =~= seq!['t', 'a', 'r']);
        },
        Format::TarGz => {
            reveal_strlit("tar.gz");
            assert(f.spec_extension() =~= seq!['t', 'a', 'r', '.', 'g', 'z']);
        },
        Format::TarXz => {
            reveal_strlit("tar.xz");
            assert(f.spec_extension() =~= seq!['t', 'a', 'r', '.', 'x', 'z']);
        },
        Format::TarZst => {
            reveal_strlit("tar.zst");
            assert(f.spec_extension() =~= seq!['t', 'a', 'r', '.', 'z', 's', 't']);
        },
        Format::TarBz2 => {
            reveal_strlit("tar.bz2");
            assert(f.spec_extension() =~= seq!['t', 'a', 'r', '.', 'b', 'z', '2']);
        },
        Format::TarLzma => {
            reveal_strlit("tar.lzma");
            assert(f.spec_extension() =~= seq!['t', 'a', 'r', '.', 'l', 'z', 'm', 'a']);
        },
        Format::Gz => {
            reveal_strlit("gz");
            assert(f.spec_extension() =~= seq!['g', 'z']);
        },
        Format::Zst => {
            reveal_strlit("zst");
            assert(f.spec_extension() =~= seq!['z', 's', 't']);
        },
        Format::Xz => {
            reveal_strlit("xz");
            assert(f.spec_extension() =~= seq!['x', 'z']);
        },
        Format::Lzma => {
            reveal_strlit("lzma");
            assert(f.spec_extension() =~= seq!['l', 'z', 'm', 'a']);
        },
        Format::Bz2 => {
            reveal_strlit("bz2");
            assert(f.spec_extension() =~= seq!['b', 'z', '2']);
        },
    }
}

/// Each format's extension, which is also the text shown for the format,
/// parses back to that format.
pub proof fn law_extension_parses_back(f: Format)
    ensures
        Format::spec_for_name(lowercase_of(f.spec_extension())) == Some(f),
{
    lemma_extension_plain(f);
    lemma_plain_lower(f.spec_extension());
    law_extension_names_its_format(f);
}

/// Parsing an ASCII format name ignores letter case: the name and its lower
/// case parse alike.
pub proof fn law_parse_ignores_case(s: Seq<char>)
    requires
        is_ascii_seq(s),
    ensures
        Format::spec_for_name(lowercase_of(lowercase_of(s))) == Format::spec_for_name(lowercase_of(s)),
{
    lemma_ascii_lower_idempotent(s);
}

/// For ASCII file names, the detected format depends only on the file name in
/// lower case: not on the directories before it, nor on letter case.
pub proof fn law_detection_depends_on_lowercase_name(p: Seq<char>, q: Seq<char>)
    requires
        match (file_name_of(p), file_name_of(q)) {
            (None, None) => true,
            (Some(a), Some(b)) => is_ascii_seq(a) && is_ascii_seq(b) && lowercase_of(a) == lowercase_of(b),
            _ => false,
        },
    ensures
        spec_detect_format(p) == spec_detect_format(q),
{
    match (file_name_of(p), file_name_of(q)) {
        (Some(a), Some(b)) => {
            lemma_ascii_lower_extension(a);
            lemma_ascii_lower_extension(b);
        },
        _ => {},
    }
}

/// A file named with a format's extension after a non-empty ASCII base that
/// holds no dot, separator or colon is detected as that format, whatever the
/// letter case of the base.
pub proof fn law_extension_detected_at_path(b: Seq<char>, f: Format)
    requires
        b.len() > 0,
        is_ascii_seq(b),
        forall|i: int| 0 <= i < b.len() ==> b[i] != '.' && b[i] != '/' && b[i] != '\\' && b[i] != ':',
    ensures
        spec_detect_format(b + "."@ + f.spec_extension()) == Ok::<Format, Seq<char>>(f),
{
    let x = f.spec_extension();
    lemma_extension_plain(f);
    lemma_plain_lower(x);
    reveal_strlit(".");
    assert("."@ =~= seq!['.']);
    let path = b + "."@ + x;
    assert(path =~= b + seq!['.'] + x);
    assert(forall|i: int| 0 <= i < path.len() ==> path[i] != '/' && path[i] != '\\' && path[i] != ':') by {
        assert forall|i: int| 0 <= i < path.len() implies path[i] != '/' && path[i] != '\\' && path[i]
            != ':' by {
            if i < b.len() {
                assert(path[i] == b[i]);
            } else if i == b.len() {
                assert(path[i] == '.');
            } else {
                assert(path[i] == x[i - b.len() - 1]);
            }
        }
    }
    assert(path.len() >= 4);
    assert(path != seq!['.']);
    assert(path != seq!['.', '.']);
    lemma_plain_name_is_its_part(path);
    assert(file_name_of(path) == Some(path));
    assert(is_ascii_seq(path)) by {
        assert forall|i: int| 0 <= i < path.len() implies (path[i] as u32) < 128 by {
            if i < b.len() {
                assert(path[i] == b[i]);
            } else if i == b.len() {
                assert(path[i] == '.');
            } else {
                assert(path[i] == x[i - b.len() - 1]);
            }
        }
    }
    let lb = ascii_lower(b);
    assert(ascii_lower(path) =~= lb + "."@ + x) by {
        assert forall|i: int| 0 <= i < path.len() implies ascii_lower(path)[i] == (lb + "."@ + x)[i] by {
            if i < b.len() {
                assert(path[i] == b[i]);
            } else if i == b.len() {
                assert(path[i] == '.');
            } else {
                assert(path[i] == x[i - b.len() - 1]);
                assert(ascii_lower(x)[i - b.len() - 1] == x[i - b.len() - 1]);
            }
        }
    }
    lemma_ascii_lower_extension(path);
    assert forall|i: int| 0 <= i < lb.len() implies lb[i] != '.' by {
        lemma_ascii_lower_char(b[i]);
    }
    reveal_strlit(".tar");
    assert(".tar"@[0] == '.');
    assert(!ends_with(lb, ".tar"@)) by {
        if ends_with(lb, ".tar"@) {
            assert(lb.subrange(lb.len() - 4, lb.len() as int)[0] == '.');
            assert(lb[lb.len() - 4] == '.');
        }
    }
    law_extension_is_detected(lb, f);
}


/// The format names and suffixes, character by character.
proof fn lemma_format_literals()
    ensures
        "zip"@ == seq!['z', 'i', 'p'],
        "7z"@ == seq!['7', 'z'],
        "tar"@ == seq!['t', 'a', 'r'],
        "tar.gz"@ == seq!['t', 'a', 'r', '.', 'g', 'z'],
        "tgz"@ == seq!['t', 'g', 'z'],
        "tar.xz"@ == seq!['t', 'a', 'r', '.', 'x', 'z'],
        "txz"@ == seq!['t', 'x', 'z'],
        "tar.zst"@ == seq!['t', 'a', 'r', '.', 'z', 's', 't'],
        "tar.zstd"@ == seq!['t', 'a', 'r', '.', 'z', 's', 't', 'd'],
        "tar.bz2"@ == seq!['t', 'a', 'r', '.', 'b', 'z', '2'],
        "tbz2"@ == seq!['t', 'b', 'z', '2'],
        "tbz"@ == seq!['t', 'b', 'z'],
        "tar.lzma"@ == seq!['t', 'a', 'r', '.', 'l', 'z', 'm', 'a'],
        "gz"@ == seq!['g', 'z'],
        "gzip"@ == seq!['g', 'z', 'i', 'p'],
        "zst"@ == seq!['z', 's', 't'],
        "zstd"@ == seq!['z', 's', 't', 'd'],
        "xz"@ == seq!['x', 'z'],
        "lzma"@ == seq!['l', 'z', 'm', 'a'],
        "bz2"@ == seq!['b', 'z', '2'],
        "bzip2"@ == seq!['b', 'z', 'i', 'p', '2'],
        ".tar.gz"@ == seq!['.', 't', 'a', 'r', '.', 'g', 'z'],
        ".tgz"@ == seq!['.', 't', 'g', 'z'],
        ".tar.xz"@ == seq!['.', 't', 'a', 'r', '.', 'x', 'z'],
        ".txz"@ == seq!['.', 't', 'x', 'z'],
        ".tar.zst"@ == seq!['.', 't', 'a', 'r', '.', 'z', 's', 't'],
        ".tar.zstd"@ == seq!['.', 't', 'a', 'r', '.', 'z', 's', 't', 'd'],
        ".tar.bz2"@ == seq!['.', 't', 'a', 'r', '.', 'b', 'z', '2'],
        ".tbz2"@ == seq!['.', 't', 'b', 'z', '2'],
        ".tbz"@ == seq!['.', 't', 'b', 'z'],
        ".tar.lzma"@ == seq!['.', 't', 'a', 'r', '.', 'l', 'z', 'm', 'a'],
        "zip"@.len() == 3,
        "7z"@.len() == 2,
        "tar"@.len() == 3,
        "tar.gz"@.len() == 6,
        "tgz"@.len() == 3,
        "tar.xz"@.len() == 6,
        "txz"@.len() == 3,
        "tar.zst"@.len() == 7,
        "tar.zstd"@.len() == 8,
        "tar.bz2"@.len() == 7,
        "tbz2"@.len() == 4,
        "tbz"@.len() == 3,
        "tar.lzma"@.len() == 8,
        "gz"@.len() == 2,
        "gzip"@.len() == 4,
        "zst"@.len() == 3,
        "zstd"@.len() == 4,
        "xz"@.len() == 2,
        "lzma"@.len() == 4,
        "bz2"@.len() == 3,
        "bzip2"@.len() == 5,
        ".tar.gz"@.len() == 7,
        ".tgz"@.len() == 4,
        ".tar.xz"@.len() == 7,
        ".txz"@.len() == 4,
        ".tar.zst"@.len() == 8,
        ".tar.zstd"@.len() == 9,
        ".tar.bz2"@.len() == 8,
        ".tbz2"@.len() == 5,
        ".tbz"@.len() == 4,
        ".tar.lzma"@.len() == 9,
{
    reveal_strlit("zip");
    assert("zip"@ =~= seq!['z', 'i', 'p']);
    reveal_strlit("7z");
    assert("7z"@ =~= seq!['7', 'z']);
    reveal_strlit("tar");
    assert("tar"@ =~= seq!['t', 'a', 'r']);
    reveal_strlit("tar.gz");
    assert("tar.gz"@ =~= seq!['t', 'a', 'r', '.', 'g', 'z']);
    reveal_strlit("tgz");
    assert("tgz"@ =~= seq!['t', 'g', 'z']);
    reveal_strlit("tar.xz");
    assert("tar.xz"@ =~= seq!['t', 'a', 'r', '.', 'x', 'z']);
    reveal_strlit("txz");
    assert("txz"@ =~= seq!['t', 'x', 'z']);
    reveal_strlit("tar.zst");
    assert("tar.zst"@ =~= seq!['t', 'a', 'r', '.', 'z', 's', 't']);
    reveal_strlit("tar.zstd");
    assert("tar.zstd"@ =~= seq!['t', 'a', 'r', '.', 'z', 's', 't', 'd']);
    reveal_strlit("tar.bz2");
    assert("tar.bz2"@ =~= seq!['t', 'a', 'r', '.', 'b', 'z', '2']);
    reveal_strlit("tbz2");
    assert("tbz2"@ =~= seq!['t', 'b', 'z', '2']);
    reveal_strlit("tbz");
    assert("tbz"@ =~= seq!['t', 'b', 'z']);
    reveal_strlit("tar.lzma");
    assert("tar.lzma"@ =~= seq!['t', 'a', 'r', '.', 'l', 'z', 'm', 'a']);
    reveal_strlit("gz");
    assert("gz"@ =~= seq!['g', 'z']);
    reveal_strlit("gzip");
    assert("gzip"@ =~= seq!['g', 'z', 'i', 'p']);
    reveal_strlit("zst");
    assert("zst"@ =~= seq!['z', 's', 't']);
    reveal_strlit("zstd");
    assert("zstd"@ =~= seq!['z', 's', 't', 'd']);
    reveal_strlit("xz");
    assert("xz"@ =~= seq!['x', 'z']);
    reveal_strlit("lzma");
    assert("lzma"@ =~= seq!['l', 'z', 'm', 'a']);
    reveal_strlit("bz2");
    assert("bz2"@ =~= seq!['b', 'z', '2']);
    reveal_strlit("bzip2");
    assert("bzip2"@ =~= seq!['b', 'z', 'i', 'p', '2']);
    reveal_strlit(".tar.gz");
    assert(".tar.gz"@ =~= seq!['.', 't', 'a', 'r', '.', 'g', 'z']);
    reveal_strlit(".tgz");
    assert(".tgz"@ =~= seq!['.', 't', 'g', 'z']);
    reveal_strlit(".tar.xz");
    assert(".tar.xz"@ =~= seq!['.', 't', 'a', 'r', '.', 'x', 'z']);
    reveal_strlit(".txz");
    assert(".txz"@ =~= seq!['.', 't', 'x', 'z']);
    reveal_strlit(".tar.zst");
    assert(".tar.zst"@ =~= seq!['.', 't', 'a', 'r', '.', 'z', 's', 't']);
    reveal_strlit(".tar.zstd");
    assert(".tar.zstd"@ =~= seq!['.', 't', 'a', 'r', '.', 'z', 's', 't', 'd']);
    reveal_strlit(".tar.bz2");
    assert(".tar.bz2"@ =~= seq!['.', 't', 'a', 'r', '.', 'b', 'z', '2']);
    reveal_strlit(".tbz2");
    assert(".tbz2"@ =~= seq!['.', 't', 'b', 'z', '2']);
    reveal_strlit(".tbz");
    assert(".tbz"@ =~= seq!['.', 't', 'b', 'z']);
    reveal_strlit(".tar.lzma");
    assert(".tar.lzma"@ =~= seq!['.', 't', 'a', 'r', '.', 'l', 'z', 'm', 'a']);
}

/// A text cannot end with two suffixes that differ `k` characters from their
/// ends.
proof fn lemma_suffix_clash(n: Seq<char>, a: Seq<char>, b: Seq<char>, k: int)
    requires
        1 <= k <= a.len(),
        k <= b.len(),
        a[a.len() - k] != b[b.len() - k],
    ensures
        !(ends_with(n, a) && ends_with(n, b)),
{
    if ends_with(n, a) && ends_with(n, b) {
        assert(n.subrange(n.len() - a.len(), n.len() as int)[a.len() - k] == n[n.len() - k]);
        assert(n.subrange(n.len() - b.len(), n.len() as int)[b.len() - k] == n[n.len() - k]);
    }
}

/// A name ending in a compound tar suffix, or one of its short aliases, is
/// detected as that tar format whatever its extension: `.tar.gz` and `.tgz`
/// as tar.gz; `.tar.xz` and `.txz` as tar.xz; `.tar.zst` and `.tar.zstd` as
/// tar.zst; `.tar.bz2`, `.tbz2` and `.tbz` as tar.bz2; `.tar.lzma` as
/// tar.lzma.
pub proof fn law_tar_suffixes_are_detected(name: Seq<char>, ext: Option<Seq<char>>)
    ensures
        ends_with(name, ".tar.gz"@) || ends_with(name, ".tgz"@) ==> spec_classify(name, ext) == Ok::<Format, Seq<char>>(Format::TarGz),
        ends_with(name, ".tar.xz"@) || ends_with(name, ".txz"@) ==> spec_classify(name, ext) == Ok::<Format, Seq<char>>(Format::TarXz),
        ends_with(name, ".tar.zst"@) || ends_with(name, ".tar.zstd"@) ==> spec_classify(name, ext) == Ok::<Format, Seq<char>>(Format::TarZst),
        ends_with(name, ".tar.bz2"@) || ends_with(name, ".tbz2"@) || ends_with(name, ".tbz"@) ==> spec_classify(name, ext) == Ok::<Format, Seq<char>>(Format::TarBz2),
        ends_with(name, ".tar.lzma"@) ==> spec_classify(name, ext) == Ok::<Format, Seq<char>>(Format::TarLzma),
{
    lemma_format_literals();
    if ends_with(name, ".tar.gz"@) {
    }
    if ends_with(name, ".tgz"@) {
    }
    if ends_with(name, ".tar.xz"@) {
        lemma_suffix_clash(name, ".tar.xz"@, ".tar.gz"@, 2);
        lemma_suffix_clash(name, ".tar.xz"@, ".tgz"@, 2);
    }
    if ends_with(name, ".txz"@) {
        lemma_suffix_clash(name, ".txz"@, ".tar.gz"@, 2);
        lemma_suffix_clash(name, ".txz"@, ".tgz"@, 2);
    }
    if ends_with(name, ".tar.zst"@) {
        lemma_suffix_clash(name, ".tar.zst"@, ".tar.gz"@, 1);
        lemma_suffix_clash(name, ".tar.zst"@, ".tgz"@, 1);
        lemma_suffix_clash(name, ".tar.zst"@, ".tar.xz"@, 1);
        lemma_suffix_clash(name, ".tar.zst"@, ".txz"@, 1);
    }
    if ends_with(name, ".tar.zstd"@) {
        lemma_suffix_clash(name, ".tar.zstd"@, ".tar.gz"@, 1);
        lemma_suffix_clash(name, ".tar.zstd"@, ".tgz"@, 1);
        lemma_suffix_clash(name, ".tar.zstd"@, ".tar.xz"@, 1);
        lemma_suffix_clash(name, ".tar.zstd"@, ".txz"@, 1);
    }
    if ends_with(name, ".tar.bz2"@) {
        lemma_suffix_clash(name, ".tar.bz2"@, ".tar.gz"@, 1);
        lemma_suffix_clash(name, ".tar.bz2"@, ".tgz"@, 1);
        lemma_suffix_clash(name, ".tar.bz2"@, ".tar.xz"@, 1);
        lemma_suffix_clash(name, ".tar.bz2"@, ".txz"@, 1);
        lemma_suffix_clash(name, ".tar.bz2"@, ".tar.zst"@, 1);
        lemma_suffix_clash(name, ".tar.bz2"@, ".tar.zstd"@, 1);
    }
    if ends_with(name, ".tbz2"@) {
        lemma_suffix_clash(name, ".tbz2"@, ".tar.gz"@, 1);
        lemma_suffix_clash(name, ".tbz2"@, ".tgz"@, 1);
        lemma_suffix_clash(name, ".tbz2"@, ".tar.xz"@, 1);
        lemma_suffix_clash(name, ".tbz2"@, ".txz"@, 1);
        lemma_suffix_clash(name, ".tbz2"@, ".tar.zst"@, 1);
        lemma_suffix_clash(name, ".tbz2"@, ".tar.zstd"@, 1);
    }
    if ends_with(name, ".tbz"@) {
        lemma_suffix_clash(name, ".tbz"@, ".tar.gz"@, 2);
        lemma_suffix_clash(name, ".tbz"@, ".tgz"@, 2);
        lemma_suffix_clash(name, ".tbz"@, ".tar.xz"@, 2);
        lemma_suffix_clash(name, ".tbz"@, ".txz"@, 2);
        lemma_suffix_clash(name, ".tbz"@, ".tar.zst"@, 1);
        lemma_suffix_clash(name, ".tbz"@, ".tar.zstd"@, 1);
    }
    if ends_with(name, ".tar.lzma"@) {
        lemma_suffix_clash(name, ".tar.lzma"@, ".tar.gz"@, 1);
        lemma_suffix_clash(name, ".tar.lzma"@, ".tgz"@, 1);
        lemma_suffix_clash(name, ".tar.lzma"@, ".tar.xz"@, 1);
        lemma_suffix_clash(name, ".tar.lzma"@, ".txz"@, 1);
        lemma_suffix_clash(name, ".tar.lzma"@, ".tar.zst"@, 1);
        lemma_suffix_clash(name, ".tar.lzma"@, ".tar.zstd"@, 1);
        lemma_suffix_clash(name, ".tar.lzma"@, ".tar.bz2"@, 1);
        lemma_suffix_clash(name, ".tar.lzma"@, ".tbz2"@, 1);
        lemma_suffix_clash(name, ".tar.lzma"@, ".tbz"@, 1);
    }
}


/// Every format name and alias parses to its format in any letter case:
/// zip; 7z; tar; tar.gz and tgz; tar.xz and txz; tar.zst and tar.zstd;
/// tar.bz2, tbz2 and tbz; tar.lzma; gz and gzip; zst and zstd; xz; lzma; bz2
/// and bzip2.
pub proof fn law_format_names_parse(s: Seq<char>)
    requires
        is_ascii_seq(s),
    ensures
        ascii_lower(s) == "zip"@ ==> Format::spec_for_name(lowercase_of(s)) == Some(Format::Zip),
        ascii_lower(s) == "7z"@ ==> Format::spec_for_name(lowercase_of(s)) == Some(Format::SevenZ),
        ascii_lower(s) == "tar"@ ==> Format::spec_for_name(lowercase_of(s)) == Some(Format::Tar),
        ascii_lower(s) == "tar.gz"@ ==> Format::spec_for_name(lowercase_of(s)) == Some(Format::TarGz),
        ascii_lower(s) == "tgz"@ ==> Format::spec_for_name(lowercase_of(s)) == Some(Format::TarGz),
        ascii_lower(s) == "tar.xz"@ ==> Format::spec_for_name(lowercase_of(s)) == Some(Format::TarXz),
        ascii_lower(s) == "txz"@ ==> Format::spec_for_name(lowercase_of(s)) == Some(Format::TarXz),
        ascii_lower(s) == "tar.zst"@ ==> Format::spec_for_name(lowercase_of(s)) == Some(Format::TarZst),
        ascii_lower(s) == "tar.zstd"@ ==> Format::spec_for_name(lowercase_of(s)) == Some(Format::TarZst),
        ascii_lower(s) == "tar.bz2"@ ==> Format::spec_for_name(lowercase_of(s)) == Some(Format::TarBz2),
        ascii_lower(s) == "tbz2"@ ==> Format::spec_for_name(lowercase_of(s)) == Some(Format::TarBz2),
        ascii_lower(s) == "tbz"@ ==> Format::spec_for_name(lowercase_of(s)) == Some(Format::TarBz2),
        ascii_lower(s) == "tar.lzma"@ ==> Format::spec_for_name(lowercase_of(s)) == Some(Format::TarLzma),
        ascii_lower(s) == "gz"@ ==> Format::spec_for_name(lowercase_of(s)) == Some(Format::Gz),
        ascii_lower(s) == "gzip"@ ==> Format::spec_for_name(lowercase_of(s)) == Some(Format::Gz),
        ascii_lower(s) == "zst"@ ==> Format::spec_for_name(lowercase_of(s)) == Some(Format::Zst),
        ascii_lower(s) == "zstd"@ ==> Format::spec_for_name(lowercase_of(s)) == Some(Format::Zst),
        ascii_lower(s) == "xz"@ ==> Format::spec_for_name(lowercase_of(s)) == Some(Format::Xz),
        ascii_lower(s) == "lzma"@ ==> Format::spec_for_name(lowercase_of(s)) == Some(Format::Lzma),
        ascii_lower(s) == "bz2"@ ==> Format::spec_for_name(lowercase_of(s)) == Some(Format::Bz2),
        ascii_lower(s) == "bzip2"@ ==> Format::spec_for_name(lowercase_of(s)) == Some(Format::Bz2),
{
    lemma_format_literals();
    let l = lowercase_of(s);
    if ascii_lower(s) == "zip"@ {
        assert(l == "zip"@);
        assert(Format::spec_for_name("zip"@) == Some(Format::Zip));
    }
    if ascii_lower(s) == "7z"@ {
        assert(l == "7z"@);
        assert(Format::spec_for_name("7z"@) == Some(Format::SevenZ));
    }
    if ascii_lower(s) == "tar"@ {
        assert(l == "tar"@);
        assert(Format::spec_for_name("tar"@) == Some(Format::Tar));
    }
    if ascii_lower(s) == "tar.gz"@ {
        assert(l == "tar.gz"@);
        assert(Format::spec_for_name("tar.gz"@) == Some(Format::TarGz));
    }
    if ascii_lower(s) == "tgz"@ {
        assert(l == "tgz"@);
        assert(Format::spec_for_name("tgz"@) == Some(Format::TarGz));
    }
    if ascii_lower(s) == "tar.xz"@ {
        assert(l == "tar.xz"@);
        assert(Format::spec_for_name("tar.xz"@) == Some(Format::TarXz));
    }
    if ascii_lower(s) == "txz"@ {
        assert(l == "txz"@);
        assert(Format::spec_for_name("txz"@) == Some(Format::TarXz));
    }
    if ascii_lower(s) == "tar.zst"@ {
        assert(l == "tar.zst"@);
        assert(Format::spec_for_name("tar.zst"@) == Some(Format::TarZst));
    }
    if ascii_lower(s) == "tar.zstd"@ {
        assert(l == "tar.zstd"@);
        assert(Format::spec_for_name("tar.zstd"@) == Some(Format::TarZst));
    }
    if ascii_lower(s) == "tar.bz2"@ {
        assert(l == "tar.bz2"@);
        assert(Format::spec_for_name("tar.bz2"@) == Some(Format::TarBz2));
    }
    if ascii_lower(s) == "tbz2"@ {
        assert(l == "tbz2"@);
        assert(Format::spec_for_name("tbz2"@) == Some(Format::TarBz2));
    }
    if ascii_lower(s) == "tbz"@ {
        assert(l == "tbz"@);
        assert(Format::spec_for_name("tbz"@) == Some(Format::TarBz2));
    }
    if ascii_lower(s) == "tar.lzma"@ {
        assert(l == "tar.lzma"@);
        assert(Format::spec_for_name("tar.lzma"@) == Some(Format::TarLzma));
    }
    if ascii_lower(s) == "gz"@ {
        assert(l == "gz"@);
        assert(Format::spec_for_name("gz"@) == Some(Format::Gz));
    }
    if ascii_lower(s) == "gzip"@ {
        assert(l == "gzip"@);
        assert(Format::spec_for_name("gzip"@) == Some(Format::Gz));
    }
    if ascii_lower(s) == "zst"@ {
        assert(l == "zst"@);
        assert(Format::spec_for_name("zst"@) == Some(Format::Zst));
    }
    if ascii_lower(s) == "zstd"@ {
        assert(l == "zstd"@);
        assert(Format::spec_for_name("zstd"@) == Some(Format::Zst));
    }
    if ascii_lower(s) == "xz"@ {
        assert(l == "xz"@);
        assert(Format::spec_for_name("xz"@) == Some(Format::Xz));
    }
    if ascii_lower(s) == "lzma"@ {
        assert(l == "lzma"@);
        assert(Format::spec_for_name("lzma"@) == Some(Format::Lzma));
    }
    if ascii_lower(s) == "bz2"@ {
        assert(l == "bz2"@);
        assert(Format::spec_for_name("bz2"@) == Some(Format::Bz2));
    }
    if ascii_lower(s) == "bzip2"@ {
        assert(l == "bzip2"@);
        assert(Format::spec_for_name("bzip2"@) == Some(Format::Bz2));
    }
}

/// A name that ends in no compound tar suffix is detected by its extension:
/// zip, 7z, tar, gz or gzip, zst or zstd, xz, lzma, bz2. Any other extension
/// is refused with the extension as the detail, and a name without one as
/// having no extension.
pub proof fn law_extensions_are_detected(name: Seq<char>, ext: Option<Seq<char>>)
    requires
        !ends_with(name, ".tar.gz"@),
        !ends_with(name, ".tgz"@),
        !ends_with(name, ".tar.xz"@),
        !ends_with(name, ".txz"@),
        !ends_with(name, ".tar.zst"@),
        !ends_with(name, ".tar.zstd"@),
        !ends_with(name, ".tar.bz2"@),
        !ends_with(name, ".tbz2"@),
        !ends_with(name, ".tbz"@),
        !ends_with(name, ".tar.lzma"@),
    ensures
        ext == Some("zip"@) ==> spec_classify(name, ext) == Ok::<Format, Seq<char>>(Format::Zip),
        ext == Some("7z"@) ==> spec_classify(name, ext) == Ok::<Format, Seq<char>>(Format::SevenZ),
        ext == Some("tar"@) ==> spec_classify(name, ext) == Ok::<Format, Seq<char>>(Format::Tar),
        ext == Some("gz"@) ==> spec_classify(name, ext) == Ok::<Format, Seq<char>>(Format::Gz),
        ext == Some("gzip"@) ==> spec_classify(name, ext) == Ok::<Format, Seq<char>>(Format::Gz),
        ext == Some("zst"@) ==> spec_classify(name, ext) == Ok::<Format, Seq<char>>(Format::Zst),
        ext == Some("zstd"@) ==> spec_classify(name, ext) == Ok::<Format, Seq<char>>(Format::Zst),
        ext == Some("xz"@) ==> spec_classify(name, ext) == Ok::<Format, Seq<char>>(Format::Xz),
        ext == Some("lzma"@) ==> spec_classify(name, ext) == Ok::<Format, Seq<char>>(Format::Lzma),
        ext == Some("bz2"@) ==> spec_classify(name, ext) == Ok::<Format, Seq<char>>(Format::Bz2),
        ext matches Some(e) ==> ((e != "zip"@ && e != "7z"@ && e != "tar"@ && e != "gz"@ && e != "gzip"@ && e != "zst"@ && e != "zstd"@ && e != "xz"@ && e != "lzma"@ && e != "bz2"@) ==> spec_classify(name, ext) == Err::<Format, Seq<char>>(e)),
        ext is None ==> spec_classify(name, ext) == Err::<Format, Seq<char>>("no file extension"@),
{
    lemma_format_literals();
}


/// `a + x` ends with `x`.
proof fn lemma_ends_with_own_suffix(a: Seq<char>, x: Seq<char>)
    ensures
        ends_with(a + x, x),
{
    assert((a + x).subrange(a.len() as int, (a + x).len() as int) =~= x);
}

/// A name made of an ASCII base without separator or colon and a lower-case
/// suffix of three or more characters is its own file name, and detection
/// reads it in lower case.
proof fn lemma_detect_plain_name(b: Seq<char>, x: Seq<char>)
    requires
        is_ascii_seq(b),
        forall|i: int| 0 <= i < b.len() ==> b[i] != '/' && b[i] != '\\' && b[i] != ':',
        plain_lower(x),
        x.len() >= 3,
    ensures
        spec_detect_format(b + x) == spec_classify(
            ascii_lower(b) + x,
            name_extension(ascii_lower(b) + x),
        ),
{
    lemma_plain_lower(x);
    let path = b + x;
    assert forall|i: int| 0 <= i < path.len() implies path[i] != '/' && path[i] != '\\' && path[i] != ':'
        && (path[i] as u32) < 128 by {
        if i < b.len() {
            assert(path[i] == b[i]);
        } else {
            assert(path[i] == x[i - b.len()]);
        }
    }
    assert(path.len() >= 3);
    assert(path != seq!['.']);
    assert(path != seq!['.', '.']);
    lemma_plain_name_is_its_part(path);
    assert(file_name_of(path) == Some(path));
    assert(ascii_lower(path) =~= ascii_lower(b) + x) by {
        assert forall|i: int| 0 <= i < path.len() implies ascii_lower(path)[i] == (ascii_lower(b) + x)[i] by {
            if i < b.len() {
                assert(path[i] == b[i]);
            } else {
                assert(path[i] == x[i - b.len()]);
                assert(ascii_lower(x)[i - b.len()] == x[i - b.len()]);
            }
        }
    }
    lemma_ascii_lower_extension(path);
}

/// A file whose name is an ASCII base, in any letter case and without
/// separator or colon, followed by a compound tar suffix or one of its short
/// aliases, is detected as that tar format.
pub proof fn law_tar_suffixes_detected_at_path(b: Seq<char>)
    requires
        is_ascii_seq(b),
        forall|i: int| 0 <= i < b.len() ==> b[i] != '/' && b[i] != '\\' && b[i] != ':',
    ensures
        spec_detect_format(b + ".tar.gz"@) == Ok::<Format, Seq<char>>(Format::TarGz),
        spec_detect_format(b + ".tgz"@) == Ok::<Format, Seq<char>>(Format::TarGz),
        spec_detect_format(b + ".tar.xz"@) == Ok::<Format, Seq<char>>(Format::TarXz),
        spec_detect_format(b + ".txz"@) == Ok::<Format, Seq<char>>(Format::TarXz),
        spec_detect_format(b + ".tar.zst"@) == Ok::<Format, Seq<char>>(Format::TarZst),
        spec_detect_format(b + ".tar.zstd"@) == Ok::<Format, Seq<char>>(Format::TarZst),
        spec_detect_format(b + ".tar.bz2"@) == Ok::<Format, Seq<char>>(Format::TarBz2),
        spec_detect_format(b + ".tbz2"@) == Ok::<Format, Seq<char>>(Format::TarBz2),
        spec_detect_format(b + ".tbz"@) == Ok::<Format, Seq<char>>(Format::TarBz2),
        spec_detect_format(b + ".tar.lzma"@) == Ok::<Format, Seq<char>>(Format::TarLzma),
{
    assert(spec_detect_format(b + ".tar.gz"@) == Ok::<Format, Seq<char>>(Format::TarGz)) by {
        lemma_format_literals();
        lemma_detect_plain_name(b, ".tar.gz"@);
        lemma_ends_with_own_suffix(ascii_lower(b), ".tar.gz"@);
        law_tar_suffixes_are_detected(ascii_lower(b) + ".tar.gz"@, name_extension(ascii_lower(b) + ".tar.gz"@));
    }
    assert(spec_detect_format(b + ".tgz"@) == Ok::<Format, Seq<char>>(Format::TarGz)) by {
        lemma_format_literals();
        lemma_detect_plain_name(b, ".tgz"@);
        lemma_ends_with_own_suffix(ascii_lower(b), ".tgz"@);
        law_tar_suffixes_are_detected(ascii_lower(b) + ".tgz"@, name_extension(ascii_lower(b) + ".tgz"@));
    }
    assert(spec_detect_format(b + ".tar.xz"@) == Ok::<Format, Seq<char>>(Format::TarXz)) by {
        lemma_format_literals();
        lemma_detect_plain_name(b, ".tar.xz"@);
        lemma_ends_with_own_suffix(ascii_lower(b), ".tar.xz"@);
        law_tar_suffixes_are_detected(ascii_lower(b) + ".tar.xz"@, name_extension(ascii_lower(b) + ".tar.xz"@));
    }
    assert(spec_detect_format(b + ".txz"@) == Ok::<Format, Seq<char>>(Format::TarXz)) by {
        lemma_format_literals();
        lemma_detect_plain_name(b, ".txz"@);
        lemma_ends_with_own_suffix(ascii_lower(b), ".txz"@);
        law_tar_suffixes_are_detected(ascii_lower(b) + ".txz"@, name_extension(ascii_lower(b) + ".txz"@));
    }
    assert(spec_detect_format(b + ".tar.zst"@) == Ok::<Format, Seq<char>>(Format::TarZst)) by {
        lemma_format_literals();
        lemma_detect_plain_name(b, ".tar.zst"@);
        lemma_ends_with_own_suffix(ascii_lower(b), ".tar.zst"@);
        law_tar_suffixes_are_detected(ascii_lower(b) + ".tar.zst"@, name_extension(ascii_lower(b) + ".tar.zst"@));
    }
    assert(spec_detect_format(b + ".tar.zstd"@) == Ok::<Format, Seq<char>>(Format::TarZst)) by {
        lemma_format_literals();
        lemma_detect_plain_name(b, ".tar.zstd"@);
        lemma_ends_with_own_suffix(ascii_lower(b), ".tar.zstd"@);
        law_tar_suffixes_are_detected(ascii_lower(b) + ".tar.zstd"@, name_extension(ascii_lower(b) + ".tar.zstd"@));
    }
    assert(spec_detect_format(b + ".tar.bz2"@) == Ok::<Format, Seq<char>>(Format::TarBz2)) by {
        lemma_format_literals();
        lemma_detect_plain_name(b, ".tar.bz2"@);
        lemma_ends_with_own_suffix(ascii_lower(b), ".tar.bz2"@);
        law_tar_suffixes_are_detected(ascii_lower(b) + ".tar.bz2"@, name_extension(ascii_lower(b) + ".tar.bz2"@));
    }
    assert(spec_detect_format(b + ".tbz2"@) == Ok::<Format, Seq<char>>(Format::TarBz2)) by {
        lemma_format_literals();
        lemma_detect_plain_name(b, ".tbz2"@);
        lemma_ends_with_own_suffix(ascii_lower(b), ".tbz2"@);
        law_tar_suffixes_are_detected(ascii_lower(b) + ".tbz2"@, name_extension(ascii_lower(b) + ".tbz2"@));
    }
    assert(spec_detect_format(b + ".tbz"@) == Ok::<Format, Seq<char>>(Format::TarBz2)) by {
        lemma_format_literals();
        lemma_detect_plain_name(b, ".tbz"@);
        lemma_ends_with_own_suffix(ascii_lower(b), ".tbz"@);
        law_tar_suffixes_are_detected(ascii_lower(b) + ".tbz"@, name_extension(ascii_lower(b) + ".tbz"@));
    }
    assert(spec_detect_format(b + ".tar.lzma"@) == Ok::<Format, Seq<char>>(Format::TarLzma)) by {
        lemma_format_literals();
        lemma_detect_plain_name(b, ".tar.lzma"@);
        lemma_ends_with_own_suffix(ascii_lower(b), ".tar.lzma"@);
        law_tar_suffixes_are_detected(ascii_lower(b) + ".tar.lzma"@, name_extension(ascii_lower(b) + ".tar.lzma"@));
    }
}

} // verus!
