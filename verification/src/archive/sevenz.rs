//! The 7z format: modification times, which 7z records in Windows ticks
//! (100 ns since 1601), and the entries a listing shows.
use vstd::prelude::*;

use crate::archive::ArchiveEntry;

verus! {

/// Handler of 7z archives (`.7z`).
pub struct SevenZHandler;

/// Windows ticks between 1601-01-01 and the Unix epoch.
pub const NT_EPOCH_OFFSET: u64 = 116_444_736_000_000_000;

/// The largest tick count whose offset from the Unix epoch, in nanoseconds,
/// fits in 64 bits.
pub open spec fn max_ticks() -> int {
    NT_EPOCH_OFFSET + 0xFFFF_FFFF_FFFF_FFFFint / 100
}

/// What `chrono` renders for the UTC instant `secs` seconds and `nanos`
/// nanoseconds after the Unix epoch with the pattern `%Y-%m-%d %H:%M`; none
/// when chrono cannot represent the instant.
pub uninterp spec fn spec_utc_minutes(secs: i64, nanos: u32) -> Option<Seq<char>>;

/// Calls `chrono::DateTime::from_timestamp` and renders the instant with
/// `format("%Y-%m-%d %H:%M")`. The contract names the result; chrono's calendar
/// arithmetic and its range are left unsaid.
#[verifier::external_body]
pub(crate) fn utc_minutes(secs: i64, nanos: u32) -> (r: Option<String>)
    ensures
        r.is_some() == spec_utc_minutes(secs, nanos).is_some(),
        r.is_some() ==> spec_utc_minutes(secs, nanos) == Some(r.unwrap()@),
{
    match chrono::DateTime::from_timestamp(secs, nanos) {
        Some(instant) => Some(instant.format("%Y-%m-%d %H:%M").to_string()),
        None => None,
    }
}

/// The instant of a 7z timestamp as seconds and nanoseconds after the Unix
/// epoch; none when it is absent or not after the epoch.
pub open spec fn spec_unix_instant(has_date: bool, ticks: u64) -> Option<(i64, u32)> {
    if !has_date || ticks <= NT_EPOCH_OFFSET {
        None
    } else {
        let nanos = ((ticks - NT_EPOCH_OFFSET) * 100) as nat;
        Some(((nanos / 1_000_000_000) as i64, (nanos % 1_000_000_000) as u32))
    }
}

/// The modification time of a 7z entry, to the minute.
pub open spec fn spec_format_7z_time(has_date: bool, ticks: u64) -> Option<Seq<char>> {
    match spec_unix_instant(has_date, ticks) {
        Some((secs, nanos)) => spec_utc_minutes(secs, nanos),
        None => None,
    }
}

/// Renders the modification time of a 7z entry.
pub fn format_7z_time(has_date: bool, ticks: u64) -> (r: Option<String>)
    requires
        ticks <= max_ticks(),
    ensures
        r.is_some() == spec_format_7z_time(has_date, ticks).is_some(),
        r.is_some() ==> spec_format_7z_time(has_date, ticks) == Some(r.unwrap()@),
{
    if !has_date {
        return None;
    }
    if ticks <= NT_EPOCH_OFFSET {
        return None;
    }
    let unix_nanos: u64 = (ticks - NT_EPOCH_OFFSET) * 100;
    let secs: u64 = unix_nanos / 1_000_000_000;
    let nanos: u64 = unix_nanos % 1_000_000_000;
    utc_minutes(secs as i64, nanos as u32)
}

/// The listing entry of one 7z member.
pub fn list_entry(name: String, size: u64, is_dir: bool, has_date: bool, ticks: u64) -> (r:
    ArchiveEntry)
    requires
        ticks <= max_ticks(),
    ensures
        r.name == name,
        r.size == size,
        r.compressed_size == 0,
        r.is_dir == is_dir,
        r.method@ == "7z"@,
        r.modified.is_some() == spec_format_7z_time(has_date, ticks).is_some(),
        r.modified.is_some() ==> spec_format_7z_time(has_date, ticks) == Some(
            r.modified.unwrap()@,
        ),
{
    ArchiveEntry {
        name,
        size,
        compressed_size: 0,
        is_dir,
        method: String::from_str("7z"),
        modified: format_7z_time(has_date, ticks),
    }
}

} // verus!
