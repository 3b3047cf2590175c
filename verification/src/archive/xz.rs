//! The xz and lzma single-file formats: what a listing shows, which sources
//! they can compress, and which decoder a file name calls for.
use vstd::prelude::*;

use crate::archive::gzip::single_entry;
use crate::archive::ArchiveEntry;
use crate::error::DecmpError;
use crate::path::{extension_of_name, file_name, name_extension, file_name_of, spec_strip_archive_extension};
use crate::text::{spec_to_lowercase, str_eq, to_lowercase};
use crate::utils::strip_archive_extension;

verus! {

/// Handler of xz and lzma files (`.xz`, `.lzma`).
pub struct XzHandler;

/// The name of the single file the compressed file at `archive_path` holds.
pub fn output_name(archive_path: &str) -> (r: String)
    ensures
        r@ == spec_strip_archive_extension(archive_path@),
{
    strip_archive_extension(archive_path)
}

/// Whether the file name of `path` has the extension `lzma`, ignoring case.
pub open spec fn spec_is_lzma_extension(path: Seq<char>) -> bool {
    match file_name_of(path) {
        Some(n) => match name_extension(n) {
            Some(e) => spec_to_lowercase(e) == "lzma"@,
            None => false,
        },
        None => false,
    }
}

/// Whether the file at `path` is a raw lzma stream rather than an xz container.
pub fn is_lzma_extension(path: &str) -> (r: bool)
    ensures
        r == spec_is_lzma_extension(path@),
{
    match file_name(path) {
        Some(n) => match extension_of_name(n.as_str()) {
            Some(e) => {
                let lower = to_lowercase(e.as_str());
                str_eq(lower.as_str(), "lzma")
            },
            None => false,
        },
        None => false,
    }
}

/// The listing of an xz or lzma file of `compressed_len` bytes at `archive_path`.
pub fn list_entries(archive_path: &str, compressed_len: u64) -> (r: Vec<ArchiveEntry>)
    ensures
        r@.len() == 1,
        r@[0].name@ == spec_strip_archive_extension(archive_path@),
        r@[0].size == 0,
        r@[0].compressed_size == compressed_len,
        !r@[0].is_dir,
        r@[0].method@ == (if spec_is_lzma_extension(archive_path@) {
            "lzma"@
        } else {
            "xz"@
        }),
        r@[0].modified is None,
{
    let method = if is_lzma_extension(archive_path) {
        "lzma"
    } else {
        "xz"
    };
    let mut v = Vec::new();
    v.push(single_entry(archive_path, compressed_len, method));
    v
}

/// Checks the sources of an xz or lzma file: exactly one, and not a directory.
pub fn check_sources(count: usize, first_is_dir: bool) -> (r: Result<(), DecmpError>)
    ensures
        count != 1 ==> (r matches Err(DecmpError::InvalidArchive(m)) && m@
            == "xz/lzma can only compress a single file"@),
        count == 1 && first_is_dir ==> (r matches Err(DecmpError::InvalidArchive(m)) && m@
            == "xz/lzma cannot compress directories; use tar.xz instead"@),
        count == 1 && !first_is_dir ==> r is Ok,
{
    if count != 1 {
        return Err(
            DecmpError::InvalidArchive(String::from_str("xz/lzma can only compress a single file")),
        );
    }
    if first_is_dir {
        return Err(
            DecmpError::InvalidArchive(
                String::from_str("xz/lzma cannot compress directories; use tar.xz instead"),
            ),
        );
    }
    Ok(())
}

} // verus!
