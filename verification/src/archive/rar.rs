//! The RAR format, which is read but never written: compression method names,
//! MS-DOS timestamps, and the entries a listing shows.
use vstd::prelude::*;

use crate::archive::ArchiveEntry;
use crate::error::DecmpError;
use crate::text::{concat2, hex_string, hexadecimal, zero_padded, zero_padded_string};
use vstd::arithmetic::div_mod::lemma_fundamental_div_mod_converse;

verus! {

/// Handler of RAR archives (`.rar`).
pub struct RarHandler;

/// The name of a RAR compression method code.
pub open spec fn spec_method_name(method: u32) -> Seq<char> {
    if method == 0x30 {
        "stored"@
    } else if method == 0x31 {
        "fastest"@
    } else if method == 0x32 {
        "fast"@
    } else if method == 0x33 {
        "normal"@
    } else if method == 0x34 {
        "good"@
    } else if method == 0x35 {
        "best"@
    } else {
        "0x"@ + hexadecimal(method as nat)
    }
}

/// The name of a RAR compression method code; an unknown code is shown in
/// hexadecimal.
pub fn method_name(method: u32) -> (r: String)
    ensures
        r@ == spec_method_name(method),
{
    if method == 0x30 {
        String::from_str("stored")
    } else if method == 0x31 {
        String::from_str("fastest")
    } else if method == 0x32 {
        String::from_str("fast")
    } else if method == 0x33 {
        String::from_str("normal")
    } else if method == 0x34 {
        String::from_str("good")
    } else if method == 0x35 {
        String::from_str("best")
    } else {
        let h = hex_string(method as u64);
        concat2("0x", h.as_str())
    }
}

/// The fields of an MS-DOS timestamp: year, month, day, hour, minute, second.
pub open spec fn dos_fields(file_time: u32) -> (nat, nat, nat, nat, nat, nat) {
    let date = (file_time / 0x1_0000) as nat;
    let time = (file_time % 0x1_0000) as nat;
    (
        date / 512 + 1980,
        (date / 32) % 16,
        date % 32,
        time / 2048,
        (time / 32) % 64,
        (time % 32) * 2,
    )
}

/// An MS-DOS timestamp as `YYYY-MM-DD HH:MM:SS`; none for 0 and for an
/// impossible month or day.
pub open spec fn spec_dos_datetime(file_time: u32) -> Option<Seq<char>> {
    let (year, month, day, hour, minute, second) = dos_fields(file_time);
    if file_time == 0 || month == 0 || month > 12 || day == 0 || day > 31 {
        None
    } else {
        Some(
            zero_padded(year, 4) + "-"@ + zero_padded(month, 2) + "-"@ + zero_padded(day, 2) + " "@
                + zero_padded(hour, 2) + ":"@ + zero_padded(minute, 2) + ":"@ + zero_padded(
                second,
                2,
            ),
        )
    }
}

/// Renders an MS-DOS timestamp.
pub fn dos_datetime(file_time: u32) -> (r: Option<String>)
    ensures
        r matches Some(s) ==> spec_dos_datetime(file_time) == Some(s@),
        r is None ==> spec_dos_datetime(file_time) is None,
{
    if file_time == 0 {
        return None;
    }
    let date: u32 = file_time / 0x1_0000;
    let time: u32 = file_time % 0x1_0000;
    let year: u32 = date / 512 + 1980;
    let month: u32 = (date / 32) % 16;
    let day: u32 = date % 32;
    let hour: u32 = time / 2048;
    let minute: u32 = (time / 32) % 64;
    let second: u32 = (time % 32) * 2;
    if month == 0 || month > 12 || day == 0 || day > 31 {
        return None;
    }
    let mut s = zero_padded_string(year as u128, 4);
    s.append("-");
    s.append(zero_padded_string(month as u128, 2).as_str());
    s.append("-");
    s.append(zero_padded_string(day as u128, 2).as_str());
    s.append(" ");
    s.append(zero_padded_string(hour as u128, 2).as_str());
    s.append(":");
    s.append(zero_padded_string(minute as u128, 2).as_str());
    s.append(":");
    s.append(zero_padded_string(second as u128, 2).as_str());
    Some(s)
}

/// The listing entry of one RAR file header.
pub fn list_entry(name: String, unpacked_size: u64, is_dir: bool, method: u32, file_time: u32) -> (r:
    ArchiveEntry)
    ensures
        r.name == name,
        r.size == unpacked_size,
        r.compressed_size == 0,
        r.is_dir == is_dir,
        r.method@ == spec_method_name(method),
        r.modified matches Some(m) ==> spec_dos_datetime(file_time) == Some(m@),
        r.modified is None ==> spec_dos_datetime(file_time) is None,
{
    ArchiveEntry {
        name,
        size: unpacked_size,
        compressed_size: 0,
        is_dir,
        method: method_name(method),
        modified: dos_datetime(file_time),
    }
}

/// The error reported for a failure of the RAR library with message `message`.
pub fn rar_error(message: &str) -> (r: DecmpError)
    ensures
        r matches DecmpError::InvalidArchive(m) && m@ == "rar error: "@ + message@,
{
    DecmpError::InvalidArchive(concat2("rar error: ", message))
}

/// The refusal of creating a RAR archive.
pub fn create_unsupported() -> (r: DecmpError)
    ensures
        r matches DecmpError::InvalidArchive(m) && m@ == "creating RAR archives is not supported"@,
{
    DecmpError::InvalidArchive(String::from_str("creating RAR archives is not supported"))
}

/// The data of an entry cut to at most `max_bytes` bytes, when a limit is given.
pub fn limit_data(data: Vec<u8>, max_bytes: Option<usize>) -> (r: Vec<u8>)
    ensures
        max_bytes matches Some(n) ==> r@ == (if data@.len() <= n {
            data@
        } else {
            data@.take(n as int)
        }),
        max_bytes is None ==> r@ == data@,
{
    let mut data = data;
    if let Some(limit) = max_bytes {
        data.truncate(limit);
    }
    data
}


/// An MS-DOS timestamp shows the date and time packed in it: the year since
/// 1980 in the top seven bits, then the month in four bits and the day in
/// five; the hour in five bits, the minute in six and the seconds halved in
/// five.
pub proof fn law_dos_datetime_shows_its_fields(
    file_time: u32,
    y: nat,
    mo: nat,
    d: nat,
    h: nat,
    mi: nat,
    s: nat,
)
    requires
        y < 128,
        1 <= mo <= 12,
        1 <= d <= 31,
        h < 32,
        mi < 64,
        s < 32,
        file_time == (y * 512 + mo * 32 + d) * 65536 + h * 2048 + mi * 32 + s,
    ensures
        spec_dos_datetime(file_time) == Some(
            zero_padded(1980 + y, 4) + "-"@ + zero_padded(mo, 2) + "-"@ + zero_padded(d, 2) + " "@
                + zero_padded(h, 2) + ":"@ + zero_padded(mi, 2) + ":"@ + zero_padded(s * 2, 2),
        ),
{
    let date = y * 512 + mo * 32 + d;
    let time = h * 2048 + mi * 32 + s;
    lemma_fundamental_div_mod_converse(file_time as int, 65536, date as int, time as int);
    lemma_fundamental_div_mod_converse(date as int, 512, y as int, (mo * 32 + d) as int);
    lemma_fundamental_div_mod_converse(date as int, 32, (y * 16 + mo) as int, d as int);
    lemma_fundamental_div_mod_converse((y * 16 + mo) as int, 16, y as int, mo as int);
    lemma_fundamental_div_mod_converse(time as int, 2048, h as int, (mi * 32 + s) as int);
    lemma_fundamental_div_mod_converse(time as int, 32, (h * 64 + mi) as int, s as int);
    lemma_fundamental_div_mod_converse((h * 64 + mi) as int, 64, h as int, mi as int);
    assert(dos_fields(file_time) == (1980 + y, mo, d, h, mi, s * 2));
}

} // verus!
