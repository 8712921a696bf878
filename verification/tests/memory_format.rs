//! Byte-count formatting: boundary cases and exact expected values.

use auto_allocator::format_memory_size;
use auto_allocator::memsize::u64_to_string;

#[test]
fn test_format_memory_size_boundaries() {
    assert_eq!(format_memory_size(0), "0B");
    assert_eq!(format_memory_size(1024), "1KB");
    assert_eq!(format_memory_size(1536), "1.5KB");
    assert_eq!(format_memory_size(1073741824), "1GB");
}

#[test]
fn test_format_memory_size_units() {
    assert_eq!(format_memory_size(1), "1B");
    assert_eq!(format_memory_size(500), "500B");
    assert_eq!(format_memory_size(1023), "1023B");
    assert_eq!(format_memory_size(1048576), "1MB");
    assert_eq!(format_memory_size(1099511627776), "1TB");
    assert_eq!(format_memory_size(1125899906842624), "1PB");
}

#[test]
fn test_format_memory_size_fractions() {
    // 2.5 KB exactly
    assert_eq!(format_memory_size(2560), "2.5KB");
    // the fraction digit is truncated, not rounded
    assert_eq!(format_memory_size(2047), "1.9KB");
    // a remainder too small for one tenth of the unit is dropped
    assert_eq!(format_memory_size(1124), "1KB");
    // 1.5 GB exactly
    assert_eq!(format_memory_size(1610612736), "1.5GB");
}

#[test]
fn test_format_memory_size_largest() {
    // u64::MAX is one byte short of 16384 PB
    assert_eq!(format_memory_size(18446744073709551615), "16383.9PB");
}

#[test]
fn test_u64_to_string_decimal() {
    assert_eq!(u64_to_string(0), "0");
    assert_eq!(u64_to_string(7), "7");
    assert_eq!(u64_to_string(10), "10");
    assert_eq!(u64_to_string(105), "105");
    assert_eq!(u64_to_string(18446744073709551615), "18446744073709551615");
}
