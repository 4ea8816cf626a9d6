use std::time::Duration;

use druns::format::format_bytes;
use druns::format::format_runtime;
use druns::format::u64_to_string;
use druns::color::SerializableColor;

#[test]
fn test_format_runtime() {
    assert_eq!(format_runtime(Duration::from_secs(0)), "00:00:00");
    assert_eq!(format_runtime(Duration::from_secs(59)), "00:00:59");
    assert_eq!(format_runtime(Duration::from_secs(60)), "00:01:00");
    assert_eq!(format_runtime(Duration::from_secs(3661)), "01:01:01");
    assert_eq!(format_runtime(Duration::from_secs(7265)), "02:01:05");
}

#[test]
fn test_format_bytes() {
    assert_eq!(format_bytes(0), "0.0B");
    assert_eq!(format_bytes(512), "512.0B");
    assert_eq!(format_bytes(1024), "1.0KB");
    assert_eq!(format_bytes(1536), "1.5KB");
    assert_eq!(format_bytes(1024 * 1024), "1.0MB");
    assert_eq!(format_bytes(1024 * 1024 * 1024), "1.0GB");
    assert_eq!(format_bytes(1024 * 1024 * 1024 * 1024), "1.0TB");
    assert_eq!(format_bytes(u64::MAX), "16777216.0TB"); // Limited to TB units
}

#[test]
fn test_format_bytes_edge_cases() {
    // large numbers stay in the terabyte unit
    let large_bytes = 1024u64.pow(5); // 1 PB
    let result = format_bytes(large_bytes);
    assert!(result.ends_with("TB"));

    // the maximum value is also limited to TB
    let result = format_bytes(u64::MAX);
    assert!(result.ends_with("TB"));
}

#[test]
fn test_u64_to_string() {
    assert_eq!(u64_to_string(0), "0");
    assert_eq!(u64_to_string(7), "7");
    assert_eq!(u64_to_string(1234567890), "1234567890");
    assert_eq!(u64_to_string(u64::MAX), "18446744073709551615");
}

#[test]
fn test_hex_to_rgb() {
    assert_eq!(SerializableColor::from_hex("#000000"), Some(SerializableColor { r: 0, g: 0, b: 0 }));
    assert_eq!(SerializableColor::from_hex("#ffffff"), Some(SerializableColor { r: 255, g: 255, b: 255 }));
    assert_eq!(SerializableColor::from_hex("#3b82f6"), Some(SerializableColor { r: 59, g: 130, b: 246 }));
    assert_eq!(SerializableColor::from_hex("invalid"), None);
}

#[test]
fn test_format_bytes_tie_rounds_even() {
    // 1280 bytes is exactly 1.25 KB: the tie rounds to the even tenth
    assert_eq!(format_bytes(1280), "1.2KB");
    // 1331.2 bytes would be the next tie; 1382 is 1.349.., rounding up
    assert_eq!(format_bytes(1382), "1.3KB");
}
