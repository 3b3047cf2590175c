//! The ZIP format: the compression method a level asks for, and the names of
//! its entries in a chosen encoding.
use vstd::prelude::*;

use crate::encoding::{decode_filename, spec_decode, spec_label_known};
use crate::error::DecmpError;

verus! {

/// Handler of ZIP archives (`.zip`).
pub struct ZipHandler;

/// The ZIP compression methods that archives are written with.
#[derive(Debug, Clone, Copy, PartialEq, Eq, Structural)]
pub enum ZipMethod {
    Stored,
    Deflated,
}

/// The method a compression level asks for: level 0 stores, any other level
/// (or none) deflates.
pub fn compression_method(level: Option<u32>) -> (r: ZipMethod)
    ensures
        r == (if level == Some(0u32) {
            ZipMethod::Stored
        } else {
            ZipMethod::Deflated
        }),
{
    match level {
        Some(0) => ZipMethod::Stored,
        _ => ZipMethod::Deflated,
    }
}

/// The name of an entry: its raw name decoded in `encoding` when one is given,
/// else the name the archive records.
pub fn entry_name(raw: &[u8], recorded: &str, encoding: Option<&str>) -> (r: Result<
    String,
    DecmpError,
>)
    ensures
        encoding is None ==> (r matches Ok(n) && n@ == recorded@),
        encoding matches Some(e) ==> (spec_label_known(e@) && !spec_decode(e@, raw@).1 <==> r is Ok),
        encoding matches Some(e) ==> (r matches Ok(n) ==> n@ == spec_decode(e@, raw@).0),
        encoding matches Some(e) ==> (r matches Err(err) ==> err is EncodingError),
{
    match encoding {
        Some(e) => decode_filename(raw, e),
        None => Ok(String::from_str(recorded)),
    }
}

} // verus!
