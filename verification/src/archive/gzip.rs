//! The gzip single-file format: what a listing shows, which sources it can
//! compress, and which entry name stands for the decompressed file.
use vstd::prelude::*;

use crate::archive::ArchiveEntry;
use crate::error::DecmpError;
use crate::path::spec_strip_archive_extension;
use crate::utils::strip_archive_extension;
use crate::text::concat2;

verus! {

/// Handler of gzip files (`.gz`).
pub struct GzipHandler;

/// The name of the single file a compressed file at `archive_path` holds: the
/// archive's file name without its archive suffix.
pub fn output_name(archive_path: &str) -> (r: String)
    ensures
        r@ == spec_strip_archive_extension(archive_path@),
{
    strip_archive_extension(archive_path)
}

/// The single listing entry of a compressed file: named after the archive, its
/// uncompressed size unknown (0), its compressed size the file's length.
pub fn single_entry(archive_path: &str, compressed_len: u64, method: &str) -> (r: ArchiveEntry)
    ensures
        r.name@ == spec_strip_archive_extension(archive_path@),
        r.size == 0,
        r.compressed_size == compressed_len,
        !r.is_dir,
        r.method@ == method@,
        r.modified is None,
{
    ArchiveEntry {
        name: output_name(archive_path),
        size: 0,
        compressed_size: compressed_len,
        is_dir: false,
        method: String::from_str(method),
        modified: None,
    }
}

/// The listing of a gzip file of `compressed_len` bytes at `archive_path`.
pub fn list_entries(archive_path: &str, compressed_len: u64) -> (r: Vec<ArchiveEntry>)
    ensures
        r@.len() == 1,
        r@[0].name@ == spec_strip_archive_extension(archive_path@),
        r@[0].size == 0,
        r@[0].compressed_size == compressed_len,
        !r@[0].is_dir,
        r@[0].method@ == "gzip"@,
        r@[0].modified is None,
{
    let mut v = Vec::new();
    v.push(single_entry(archive_path, compressed_len, "gzip"));
    v
}

/// Whether `names` holds `name`.
pub fn contains_name(names: &[&str], name: &str) -> (r: bool)
    ensures
        r == exists|i: int| 0 <= i < names@.len() && (#[trigger] names@[i])@ == name@,
{
    let mut i: usize = 0;
    while i < names.len()
        invariant
            i <= names@.len(),
            forall|j: int| 0 <= j < i ==> (#[trigger] names@[j])@ != name@,
        decreases names.len() - i,
    {
        if crate::text::str_eq(names[i], name) {
            return true;
        }
        i = i + 1;
    }
    false
}

/// Whether an extraction of the entries `entry_names` from the compressed file
/// at `archive_path` writes anything: only when the single file is among them.
pub fn selects_output(archive_path: &str, entry_names: &[&str]) -> (r: bool)
    ensures
        r == exists|i: int|
            0 <= i < entry_names@.len() && (#[trigger] entry_names@[i])@
                == spec_strip_archive_extension(archive_path@),
{
    let out = output_name(archive_path);
    contains_name(entry_names, out.as_str())
}

/// Checks that `entry_name` names the single file of the compressed file at
/// `archive_path`; otherwise the entry is not found.
pub fn check_entry_name(archive_path: &str, entry_name: &str) -> (r: Result<(), DecmpError>)
    ensures
        entry_name@ == spec_strip_archive_extension(archive_path@) ==> r is Ok,
        entry_name@ != spec_strip_archive_extension(archive_path@) ==> (r matches Err(
            DecmpError::InvalidArchive(m),
        ) && m@ == "entry not found: "@ + entry_name@),
{
    let out = output_name(archive_path);
    if crate::text::str_eq(entry_name, out.as_str()) {
        Ok(())
    } else {
        Err(DecmpError::InvalidArchive(concat2("entry not found: ", entry_name)))
    }
}

/// Checks the sources of a gzip file: exactly one, and not a directory.
pub fn check_sources(count: usize, first_is_dir: bool) -> (r: Result<(), DecmpError>)
    ensures
        count != 1 ==> (r matches Err(DecmpError::InvalidArchive(m)) && m@
            == "gzip can only compress a single file"@),
        count == 1 && first_is_dir ==> (r matches Err(DecmpError::InvalidArchive(m)) && m@
            == "gzip cannot compress directories; use tar.gz instead"@),
        count == 1 && !first_is_dir ==> r is Ok,
{
    if count != 1 {
        return Err(DecmpError::InvalidArchive(String::from_str("gzip can only compress a single file")));
    }
    if first_is_dir {
        return Err(
            DecmpError::InvalidArchive(
                String::from_str("gzip cannot compress directories; use tar.gz instead"),
            ),
        );
    }
    Ok(())
}

} // verus!
