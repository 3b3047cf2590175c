//! Human-readable sizes, and the file-name helpers of the archive handlers.
use vstd::prelude::*;

use crate::text::{
    decimal, decimal_string, digit_char, digit_str, zero_padded, zero_padded_string,
};

pub use crate::path::{file_stem, strip_archive_extension};

verus! {

/// Spacing of the 64-bit floating-point numbers around `b`, for `b < 2^64`.
pub open spec fn f64_spacing(b: nat) -> nat {
    if b < 0x20_0000_0000_0000 {
        1
    } else if b < 0x40_0000_0000_0000 {
        2
    } else if b < 0x80_0000_0000_0000 {
        4
    } else if b < 0x100_0000_0000_0000 {
        8
    } else if b < 0x200_0000_0000_0000 {
        16
    } else if b < 0x400_0000_0000_0000 {
        32
    } else if b < 0x800_0000_0000_0000 {
        64
    } else if b < 0x1000_0000_0000_0000 {
        128
    } else if b < 0x2000_0000_0000_0000 {
        256
    } else if b < 0x4000_0000_0000_0000 {
        512
    } else if b < 0x8000_0000_0000_0000 {
        1024
    } else {
        2048
    }
}

/// `n / d` rounded to the nearest integer, ties to the even one.
pub open spec fn round_half_even(n: nat, d: nat) -> nat {
    let q = n / d;
    let r = n % d;
    if 2 * r > d {
        q + 1
    } else if 2 * r < d {
        q
    } else if q % 2 == 0 {
        q
    } else {
        q + 1
    }
}

/// The value of `b as f64` for an integer `b < 2^64`: `b` rounded to the
/// nearest floating-point number, ties to even.
pub open spec fn f64_value(b: nat) -> nat {
    round_half_even(b, f64_spacing(b)) * f64_spacing(b)
}

/// `n / d` rounded to the nearest integer, ties to even.
pub fn div_round_half_even(n: u128, d: u128) -> (r: u128)
    requires
        d > 0,
        n < 0x4000_0000_0000_0000_0000_0000_0000_0000,
    ensures
        r == round_half_even(n as nat, d as nat),
        r <= n + 1,
{
    let q = n / d;
    assert(q <= n) by (nonlinear_arith)
        requires
            d > 0,
            q == n / d,
    ;
    let rem = n % d;
    if rem > d - rem {
        q + 1
    } else if rem < d - rem {
        q
    } else if q % 2 == 0 {
        q
    } else {
        q + 1
    }
}

/// The value `b as f64` stands for.
pub fn f64_value_of(b: u64) -> (r: u128)
    ensures
        r == f64_value(b as nat),
        r <= 0x1_0000_0000_0000_0000 + 2048,
{
    let spacing: u128 = if b < 0x20_0000_0000_0000 {
        1
    } else if b < 0x40_0000_0000_0000 {
        2
    } else if b < 0x80_0000_0000_0000 {
        4
    } else if b < 0x100_0000_0000_0000 {
        8
    } else if b < 0x200_0000_0000_0000 {
        16
    } else if b < 0x400_0000_0000_0000 {
        32
    } else if b < 0x800_0000_0000_0000 {
        64
    } else if b < 0x1000_0000_0000_0000 {
        128
    } else if b < 0x2000_0000_0000_0000 {
        256
    } else if b < 0x4000_0000_0000_0000 {
        512
    } else if b < 0x8000_0000_0000_0000 {
        1024
    } else {
        2048
    };
    let q = div_round_half_even(b as u128, spacing);
    assert(q <= b as u128 / spacing + 1) by {
        assert(b as u128 / spacing <= b as u128);
    }
    assert(q * spacing <= (b as u128 / spacing + 1) * spacing) by (nonlinear_arith)
        requires
            q <= b as u128 / spacing + 1,
    ;
    assert((b as u128 / spacing + 1) * spacing <= b as u128 + spacing) by (nonlinear_arith)
        requires
            spacing > 0,
    ;
    q * spacing
}

/// `q / 10^digits` written with `digits` decimals (`digits` is 1 or 2).
pub open spec fn fixed_point(q: nat, digits: nat) -> Seq<char> {
    if digits == 1 {
        decimal(q / 10) + seq!['.', digit_char(q % 10)]
    } else {
        decimal(q / 100) + seq!['.'] + zero_padded(q % 100, 2)
    }
}

/// `bytes / unit`, as the floating-point quotient `bytes as f64 / unit as f64`
/// is written with `digits` decimals (`unit` a power of two, `digits` 1 or 2).
pub open spec fn scaled(bytes: nat, unit: nat, digits: nat) -> Seq<char> {
    let factor: nat = if digits == 1 {
        10
    } else {
        100
    };
    fixed_point(round_half_even(f64_value(bytes) * factor, unit), digits)
}

/// A size in bytes written with two decimals in the largest unit it reaches
/// (`GB`, `MB`, `KB`), or as a whole number of bytes below one kibibyte.
pub open spec fn spec_format_size(bytes: nat) -> Seq<char> {
    if bytes >= 0x4000_0000 {
        scaled(bytes, 0x4000_0000, 2) + " GB"@
    } else if bytes >= 0x10_0000 {
        scaled(bytes, 0x10_0000, 2) + " MB"@
    } else if bytes >= 0x400 {
        scaled(bytes, 0x400, 2) + " KB"@
    } else {
        decimal(bytes) + " B"@
    }
}

/// Writes `bytes / unit` with `digits` decimals.
pub fn scaled_string(bytes: u64, unit: u128, digits: u128) -> (r: String)
    requires
        unit > 0,
        digits == 1 || digits == 2,
    ensures
        r@ == scaled(bytes as nat, unit as nat, digits as nat),
{
    let v = f64_value_of(bytes);
    let factor: u128 = if digits == 1 {
        10
    } else {
        100
    };
    assert(v * factor <= (0x1_0000_0000_0000_0000 + 2048) * 100) by (nonlinear_arith)
        requires
            v <= 0x1_0000_0000_0000_0000 + 2048,
            factor <= 100,
    ;
    let q = div_round_half_even(v * factor, unit);
    let mut r = decimal_string(q / factor);
    r.append(".");
    proof {
        reveal_strlit(".");
    }
    if digits == 1 {
        r.append(digit_str((q % 10) as u64));
    } else {
        let frac = zero_padded_string(q % 100, 2);
        r.append(frac.as_str());
    }
    r
}

/// A size in bytes in human-readable form.
pub fn format_size(bytes: u64) -> (r: String)
    ensures
        r@ == spec_format_size(bytes as nat),
{
    if bytes >= 0x4000_0000 {
        let mut r = scaled_string(bytes, 0x4000_0000, 2);
        r.append(" GB");
        r
    } else if bytes >= 0x10_0000 {
        let mut r = scaled_string(bytes, 0x10_0000, 2);
        r.append(" MB");
        r
    } else if bytes >= 0x400 {
        let mut r = scaled_string(bytes, 0x400, 2);
        r.append(" KB");
        r
    } else {
        let mut r = decimal_string(bytes as u128);
        r.append(" B");
        r
    }
}

} // verus!
