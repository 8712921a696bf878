//! Human-readable formatting of byte counts.
//!
//! A count is printed against the largest binary unit it reaches, with at
//! most one decimal digit: `0` becomes `"0B"`, `1024` becomes `"1KB"`,
//! `1536` becomes `"1.5KB"`.  The fraction digit is truncated, not rounded,
//! and is omitted when it is zero.

use vstd::prelude::*;
use vstd::string::StringExecFns;

verus! {

/// Bytes in one kilobyte.
pub const KB: u64 = 1024;

/// Bytes in one megabyte.
pub const MB: u64 = 1048576;

/// Bytes in one gigabyte.
pub const GB: u64 = 1073741824;

/// Bytes in one terabyte.
pub const TB: u64 = 1099511627776;

/// Bytes in one petabyte.
pub const PB: u64 = 1125899906842624;

/// The character that prints a single decimal digit.
pub open spec fn spec_digit_char(d: int) -> char {
    if d == 0 {
        '0'
    } else if d == 1 {
        '1'
    } else if d == 2 {
        '2'
    } else if d == 3 {
        '3'
    } else if d == 4 {
        '4'
    } else if d == 5 {
        '5'
    } else if d == 6 {
        '6'
    } else if d == 7 {
        '7'
    } else if d == 8 {
        '8'
    } else {
        '9'
    }
}

/// The decimal rendering of a non-negative integer, most significant digit
/// first and without leading zeros (except for `0` itself).
pub open spec fn spec_decimal(n: int) -> Seq<char>
    recommends
        n >= 0,
    decreases n,
{
    if n < 10 {
        seq![spec_digit_char(n)]
    } else {
        spec_decimal(n / 10) + seq![spec_digit_char(n % 10)]
    }
}

/// The rendering of a byte count against one unit: the whole multiples of
/// `scale`, then a single truncated fraction digit where it is non-zero,
/// then the unit's name.
pub open spec fn spec_scaled(bytes: u64, scale: u64, unit: Seq<char>) -> Seq<char>
    recommends
        scale >= 1,
{
    let value = bytes as int / scale as int;
    let frac = (bytes as int % scale as int) * 10 / scale as int;
    if frac == 0 {
        spec_decimal(value) + unit
    } else {
        spec_decimal(value) + "."@ + spec_decimal(frac) + unit
    }
}

/// What `format_memory_size` prints: the largest unit the count reaches,
/// from bytes up to petabytes.
pub open spec fn spec_format_memory_size(bytes: u64) -> Seq<char> {
    if bytes == 0 {
        "0B"@
    } else if bytes >= PB {
        spec_scaled(bytes, PB, "PB"@)
    } else if bytes >= TB {
        spec_scaled(bytes, TB, "TB"@)
    } else if bytes >= GB {
        spec_scaled(bytes, GB, "GB"@)
    } else if bytes >= MB {
        spec_scaled(bytes, MB, "MB"@)
    } else if bytes >= KB {
        spec_scaled(bytes, KB, "KB"@)
    } else {
        spec_decimal(bytes as int) + "B"@
    }
}

/// The one-character string that prints a decimal digit.
fn digit_str(d: u64) -> (r: &'static str)
    requires
        d < 10,
    ensures
        r@ == seq![spec_digit_char(d as int)],
{
    let r = match d {
        0 => "0",
        1 => "1",
        2 => "2",
        3 => "3",
        4 => "4",
        5 => "5",
        6 => "6",
        7 => "7",
        8 => "8",
        _ => "9",
    };
    proof {
        reveal_strlit("0");
        reveal_strlit("1");
        reveal_strlit("2");
        reveal_strlit("3");
        reveal_strlit("4");
        reveal_strlit("5");
        reveal_strlit("6");
        reveal_strlit("7");
        reveal_strlit("8");
        reveal_strlit("9");
        assert(r@ =~= seq![spec_digit_char(d as int)]);
    }
    r
}

/// Renders an integer in decimal, most significant digit first.
pub fn u64_to_string(n: u64) -> (s: String)
    ensures
        s@ == spec_decimal(n as int),
    decreases n,
{
    if n < 10 {
        String::from_str(digit_str(n))
    } else {
        let mut s = u64_to_string(n / 10);
        s.append(digit_str(n % 10));
        s
    }
}

/// Renders a byte count against one unit, with the single truncated
/// fraction digit where it is non-zero.
fn format_scaled(bytes: u64, scale: u64, unit: &str) -> (s: String)
    requires
        1 <= scale <= PB,
    ensures
        s@ == spec_scaled(bytes, scale, unit@),
{
    let value = bytes / scale;
    let remainder = bytes % scale;
    assert(remainder < scale);
    let frac = (remainder * 10) / scale;
    assert(frac < 10) by (nonlinear_arith)
        requires
            remainder < scale,
            1 <= scale,
            frac == (remainder as int * 10) / (scale as int),
    ;
    let mut s = u64_to_string(value);
    if frac != 0 {
        s.append(".");
        s.append(digit_str(frac));
        assert(seq![spec_digit_char(frac as int)] == spec_decimal(frac as int));
    }
    s.append(unit);
    s
}

/// Formats a byte count as a human-readable size with units from B to PB,
/// keeping at most one decimal digit.
pub fn format_memory_size(bytes: u64) -> (s: String)
    ensures
        s@ == spec_format_memory_size(bytes),
{
    if bytes == 0 {
        return String::from_str("0B");
    }
    if bytes >= PB {
        format_scaled(bytes, PB, "PB")
    } else if bytes >= TB {
        format_scaled(bytes, TB, "TB")
    } else if bytes >= GB {
        format_scaled(bytes, GB, "GB")
    } else if bytes >= MB {
        format_scaled(bytes, MB, "MB")
    } else if bytes >= KB {
        format_scaled(bytes, KB, "KB")
    } else {
        let mut s = u64_to_string(bytes);
        s.append("B");
        s
    }
}

} // verus!
