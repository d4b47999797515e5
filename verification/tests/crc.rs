//! CRC-16 reference vectors.

use atecc508a::crc::{crc16, crc16_range};

/// The CRC of no bytes is the initial register value.
#[test]
fn crc16_empty_is_zero() {
    assert_eq!(crc16(&Vec::new()), 0);
}

/// Datasheet vector: the chip's wake status response is {0x04, 0x11, 0x33,
/// 0x43} — count 0x04, status 0x11, CRC 0x4333 sent low byte first.
#[test]
fn crc16_wake_status_vector() {
    assert_eq!(crc16(&vec![0x04, 0x11]), 0x4333);
}

/// A zero byte shifts sixteen zero bits through a zero register.
#[test]
fn crc16_single_zero_byte() {
    assert_eq!(crc16(&vec![0x00]), 0x0000);
    assert_eq!(crc16(&vec![0x00, 0x00, 0x00]), 0x0000);
}

/// The range variant sees exactly the bytes inside the range.
#[test]
fn crc16_range_matches_whole() {
    let v = vec![0xAAu8, 0x04, 0x11, 0xBB];
    assert_eq!(crc16_range(&v, 1, 3), 0x4333);
    assert_eq!(crc16_range(&v, 2, 2), 0x0000);
}
