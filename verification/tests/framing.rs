//! Frame assembly, length validation, and lock-byte parsing.

use atecc508a::crc::crc16;
use atecc508a::frame::zone_for_length;
use atecc508a::protocol::{send_command, Request};
use atecc508a::types::{parse_lock_byte, ErrorCode, LockParse};

fn write_parts(r: Request) -> (Vec<u8>, usize, bool) {
    match r {
        Request::Write { buffer, len, wake } => (buffer, len, wake),
        Request::Read { .. } => panic!("expected a write request"),
    }
}

/// For an arbitrary opcode, params and payload, the assembled frame's length
/// byte equals the total length minus one, and its CRC field is the CRC-16
/// over the length-byte-through-payload span.
#[test]
fn frame_length_byte_and_crc_field() {
    let mut buffer = vec![0u8; 128];
    let payload = [0xDEu8, 0xAD, 0xBE, 0xEF, 0x42];
    buffer[6..11].copy_from_slice(&payload);
    let (frame, len, wake) = write_parts(send_command(buffer, 0x47, 0x06, 0x1234, 5, false));
    assert_eq!(len, 13);
    assert!(!wake);
    assert_eq!(frame[0], 0x03);
    assert_eq!(frame[1], (len - 1) as u8);
    assert_eq!(frame[2], 0x47);
    assert_eq!(frame[3], 0x06);
    assert_eq!(frame[4], 0x34);
    assert_eq!(frame[5], 0x12);
    assert_eq!(&frame[6..11], &payload);
    let crc = crc16(&frame[1..len - 2].to_vec());
    assert_eq!(frame[len - 2], (crc & 0xff) as u8);
    assert_eq!(frame[len - 1], (crc >> 8) as u8);
}

/// A payload-less frame is exactly the fixed overhead long.
#[test]
fn frame_without_payload() {
    let buffer = vec![0u8; 128];
    let (frame, len, wake) = write_parts(send_command(buffer, 0x02, 0x80, 0x0000, 0, true));
    assert_eq!(len, 8);
    assert!(wake);
    assert_eq!(&frame[0..6], &[0x03, 0x07, 0x02, 0x80, 0x00, 0x00]);
    let crc = crc16(&frame[1..6].to_vec());
    assert_eq!(frame[6], (crc & 0xff) as u8);
    assert_eq!(frame[7], (crc >> 8) as u8);
}

/// 32-byte transfers set bit 7 of the zone byte, 4-byte transfers clear it,
/// and every other length is a size error with no transfer issued.
#[test]
fn zone_for_length_sets_size_bit() {
    assert_eq!(zone_for_length(0x00, 32), Ok(0x80));
    assert_eq!(zone_for_length(0x02, 32), Ok(0x82));
    assert_eq!(zone_for_length(0x00, 4), Ok(0x00));
    assert_eq!(zone_for_length(0x82, 4), Ok(0x02));
    assert_eq!(zone_for_length(0x00, 16), Err(ErrorCode::Size));
    assert_eq!(zone_for_length(0x00, 0), Err(ErrorCode::Size));
    assert_eq!(zone_for_length(0x00, 33), Err(ErrorCode::Size));
}

/// 0x55 parses as unlocked, 0x00 as locked, anything else as invalid.
#[test]
fn lock_byte_parsing() {
    assert_eq!(parse_lock_byte(0x55), LockParse::Unlocked);
    assert_eq!(parse_lock_byte(0x00), LockParse::Locked);
    assert_eq!(parse_lock_byte(0x01), LockParse::Invalid);
    assert_eq!(parse_lock_byte(0x54), LockParse::Invalid);
    assert_eq!(parse_lock_byte(0xFF), LockParse::Invalid);
}
