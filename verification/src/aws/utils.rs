//! Sizes in bytes, written for people.

use vstd::prelude::*;
use vstd::string::*;
use crate::text::{decimal, digit, push_char, signed_decimal, signed_decimal_string, decimal_string};

verus! {

/// Bytes in a kilobyte.
pub const KB: u64 = 1024;

/// Bytes in a megabyte.
pub const MB: u64 = 1048576;

/// Bytes in a gigabyte.
pub const GB: u64 = 1073741824;

/// The step between neighbouring numbers that keep 53 significant binary
/// digits, around `n`: 1 below 2^53, doubling with each further digit.
pub open spec fn grain(n: nat) -> nat {
    if n < 0x20_0000_0000_0000 {
        1
    } else if n < 0x40_0000_0000_0000 {
        2
    } else if n < 0x80_0000_0000_0000 {
        4
    } else if n < 0x100_0000_0000_0000 {
        8
    } else if n < 0x200_0000_0000_0000 {
        16
    } else if n < 0x400_0000_0000_0000 {
        32
    } else if n < 0x800_0000_0000_0000 {
        64
    } else if n < 0x1000_0000_0000_0000 {
        128
    } else if n < 0x2000_0000_0000_0000 {
        256
    } else if n < 0x4000_0000_0000_0000 {
        512
    } else {
        1024
    }
}

/// `num / den` rounded to the nearest whole number, a tie going to the even
/// neighbour.
pub open spec fn round_half_even(num: nat, den: nat) -> nat {
    let q = num / den;
    let r = num % den;
    if 2 * r > den || (2 * r == den && q % 2 == 1) {
        q + 1
    } else {
        q
    }
}

/// `n` rounded to 53 significant binary digits, a tie going to the even
/// neighbour: the precision to which a size is held before it is scaled.
pub open spec fn held(n: nat) -> nat {
    round_half_even(n, grain(n)) * grain(n)
}

/// Hundredths of `unit` in `size` bytes, rounded to the nearest, a tie going
/// to the even neighbour.
pub open spec fn hundredths(size: nat, unit: nat) -> nat {
    round_half_even(held(size) * 100, unit)
}

/// `h` hundredths written with two decimals.
pub open spec fn two_decimals(h: nat) -> Seq<char> {
    decimal(h / 100) + seq!['.', digit(h / 10 % 10), digit(h % 10)]
}

/// A size in bytes as text: in the largest of GB, MB and KB (powers of 1024)
/// that it reaches, with two decimals; below 1024, and for a negative size,
/// the plain number of bytes.
pub open spec fn size_text(size: int) -> Seq<char> {
    if size >= GB {
        two_decimals(hundredths(size as nat, GB as nat)) + " GB"@
    } else if size >= MB {
        two_decimals(hundredths(size as nat, MB as nat)) + " MB"@
    } else if size >= KB {
        two_decimals(hundredths(size as nat, KB as nat)) + " KB"@
    } else {
        signed_decimal(size) + " B"@
    }
}

fn grain_of(n: u64) -> (g: u64)
    ensures
        g == grain(n as nat),
{
    if n < 0x20_0000_0000_0000 {
        1
    } else if n < 0x40_0000_0000_0000 {
        2
    } else if n < 0x80_0000_0000_0000 {
        4
    } else if n < 0x100_0000_0000_0000 {
        8
    } else if n < 0x200_0000_0000_0000 {
        16
    } else if n < 0x400_0000_0000_0000 {
        32
    } else if n < 0x800_0000_0000_0000 {
        64
    } else if n < 0x1000_0000_0000_0000 {
        128
    } else if n < 0x2000_0000_0000_0000 {
        256
    } else if n < 0x4000_0000_0000_0000 {
        512
    } else {
        1024
    }
}

fn divide_half_even(num: u128, den: u128) -> (q: u128)
    requires
        den > 0,
        num < 0x1_0000_0000_0000_0000_0000,
    ensures
        q == round_half_even(num as nat, den as nat),
        q <= num / den + 1,
{
    let q = num / den;
    let r = num % den;
    if r > den - r || (r == den - r && q % 2 == 1) {
        q + 1
    } else {
        q
    }
}

fn scaled(size: u64, unit: u64) -> (s: String)
    requires
        size < 0x8000_0000_0000_0000,
        unit == KB || unit == MB || unit == GB,
    ensures
        s@ == two_decimals(hundredths(size as nat, unit as nat)),
{
    let g = grain_of(size);
    let steps = divide_half_even(size as u128, g as u128);
    assert(steps * g <= 0x8000_0000_0000_0001 * 1024) by (nonlinear_arith)
        requires
            steps <= 0x8000_0000_0000_0001,
            g <= 1024,
    ;
    let h = divide_half_even(steps * (g as u128) * 100, unit as u128);
    assert(h / 100 <= 0xffff_ffff_ffff_ffff) by {
        assert(h <= steps * g * 100 / (unit as int) + 1);
    }
    let whole: u64 = (h / 100) as u64;
    let tenths: u64 = ((h / 10) % 10) as u64;
    let ones: u64 = (h % 10) as u64;
    let mut s = decimal_string(whole);
    push_char(&mut s, '.');
    let t = decimal_string(tenths);
    let o = decimal_string(ones);
    s.append(t.as_str());
    s.append(o.as_str());
    assert(s@ =~= two_decimals(h as nat));
    s
}

/// A size in bytes as text.
pub fn format_size(size: i64) -> (s: String)
    ensures
        s@ == size_text(size as int),
{
    let mut s = if size >= 1073741824 {
        scaled(size as u64, GB)
    } else if size >= 1048576 {
        scaled(size as u64, MB)
    } else if size >= 1024 {
        scaled(size as u64, KB)
    } else {
        signed_decimal_string(size)
    };
    if size >= 1073741824 {
        s.append(" GB");
    } else if size >= 1048576 {
        s.append(" MB");
    } else if size >= 1024 {
        s.append(" KB");
    } else {
        s.append(" B");
    }
    s
}

} // verus!
