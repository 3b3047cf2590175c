//! The tar family: plain tar and tar inside gzip, xz, zstd, bzip2 or lzma.
//! Entry names in a chosen encoding, the `./` prefix that tar writers add, and
//! the entries a listing shows.
use vstd::prelude::*;
use vstd::utf8::{decode_utf8, valid_utf8};

use crate::archive::{ArchiveEntry, Format};
use crate::encoding::{decode_filename, spec_decode, spec_label_known, spec_utf8_lossy, try_decode_utf8};
use crate::error::DecmpError;
use crate::text::{starts_with, str_starts_with};
use crate::archive::sevenz::{spec_utc_minutes, utc_minutes};

verus! {

/// Handler of the tar family; the format says which compression wraps the tar
/// stream.
pub struct TarHandler {
    format: Format,
}

impl TarHandler {
    /// The format the handler reads and writes.
    pub closed spec fn spec_format(&self) -> Format {
        self.format
    }

    /// A handler for archives of `format`.
    pub fn new(format: Format) -> (r: TarHandler)
        ensures
            r.spec_format() == format,
    {
        TarHandler { format }
    }

    /// The format the handler reads and writes.
    pub fn format(&self) -> (r: Format)
        ensures
            r == self.spec_format(),
    {
        self.format
    }
}

/// Whether `format` is one of the tar family.
pub open spec fn spec_is_tar_format(format: Format) -> bool {
    format is Tar || format is TarGz || format is TarXz || format is TarZst || format is TarBz2
        || format is TarLzma
}

/// Whether `format` is one of the tar family; the handler refuses the others.
pub fn is_tar_format(format: Format) -> (r: bool)
    ensures
        r == spec_is_tar_format(format),
{
    match format {
        Format::Tar | Format::TarGz | Format::TarXz | Format::TarZst | Format::TarBz2
        | Format::TarLzma => true,
        _ => false,
    }
}

/// The name of an entry: its raw name decoded in `encoding` when one is given,
/// else read as UTF-8 with invalid sequences replaced.
pub fn entry_name(raw: &[u8], encoding: Option<&str>) -> (r: Result<String, DecmpError>)
    ensures
        encoding is None ==> (r matches Ok(n) && n@ == spec_utf8_lossy(raw@)),
        encoding is None && valid_utf8(raw@) ==> (r matches Ok(n) && n@ == decode_utf8(raw@)),
        encoding matches Some(e) ==> (spec_label_known(e@) && !spec_decode(e@, raw@).1 <==> r is Ok),
        encoding matches Some(e) ==> (r matches Ok(n) ==> n@ == spec_decode(e@, raw@).0),
        encoding matches Some(e) ==> (r matches Err(err) ==> err is EncodingError),
{
    match encoding {
        Some(e) => decode_filename(raw, e),
        None => Ok(try_decode_utf8(raw)),
    }
}

/// `name` without one leading `./`.
pub open spec fn spec_strip_dot_slash(name: Seq<char>) -> Seq<char> {
    if starts_with(name, seq!['.', '/']) {
        name.subrange(2, name.len() as int)
    } else {
        name
    }
}

/// `name` without one leading `./`.
pub fn strip_dot_slash(name: &str) -> (r: String)
    ensures
        r@ == spec_strip_dot_slash(name@),
{
    proof {
        reveal_strlit("./");
        assert("./"@ =~= seq!['.', '/']);
    }
    if str_starts_with(name, "./") {
        let n = name.unicode_len();
        name.substring_char(2, n).to_owned()
    } else {
        name.to_owned()
    }
}

/// The name an entry is selected by when extracting or reading: its decoded name
/// without a leading `./`.
pub fn lookup_name(raw: &[u8], encoding: Option<&str>) -> (r: Result<String, DecmpError>)
    ensures
        encoding is None ==> (r matches Ok(n) && n@ == spec_strip_dot_slash(spec_utf8_lossy(raw@))),
        encoding matches Some(e) ==> (spec_label_known(e@) && !spec_decode(e@, raw@).1 <==> r is Ok),
        encoding matches Some(e) ==> (r matches Ok(n) ==> n@ == spec_strip_dot_slash(
            spec_decode(e@, raw@).0,
        )),
        encoding matches Some(e) ==> (r matches Err(err) ==> err is EncodingError),
{
    let name = entry_name(raw, encoding)?;
    Ok(strip_dot_slash(name.as_str()))
}

/// The listing entry of one tar member.
pub fn list_entry(
    raw_name: &[u8],
    encoding: Option<&str>,
    size: u64,
    is_dir: bool,
    format: Format,
    modified: Option<String>,
) -> (r: Result<ArchiveEntry, DecmpError>)
    ensures
        encoding is None ==> r is Ok,
        encoding matches Some(e) ==> (spec_label_known(e@) && !spec_decode(e@, raw_name@).1
            <==> r is Ok),
        r matches Ok(entry) ==> {
            &&& encoding is None ==> entry.name@ == spec_utf8_lossy(raw_name@)
            &&& encoding matches Some(e) ==> entry.name@ == spec_decode(e@, raw_name@).0
            &&& entry.size == size
            &&& entry.compressed_size == 0
            &&& entry.is_dir == is_dir
            &&& entry.method@ == format.spec_extension()
            &&& entry.modified == modified
        },
        r matches Err(err) ==> err is EncodingError,
{
    let name = entry_name(raw_name, encoding)?;
    Ok(
        ArchiveEntry {
            name,
            size,
            compressed_size: 0,
            is_dir,
            method: format.to_string(),
            modified,
        },
    )
}

/// The modification time of a tar member, `secs` seconds after the Unix epoch,
/// to the minute in UTC; none when chrono cannot represent it.
pub fn format_mtime(secs: u64) -> (r: Option<String>)
    ensures
        secs <= i64::MAX ==> r.is_some() == spec_utc_minutes(secs as i64, 0).is_some(),
        secs <= i64::MAX && r.is_some() ==> spec_utc_minutes(secs as i64, 0) == Some(r.unwrap()@),
        secs > i64::MAX ==> r.is_none(),
{
    if secs > 0x7FFF_FFFF_FFFF_FFFF {
        return None;
    }
    utc_minutes(secs as i64, 0)
}

} // verus!
