//! Lock chains, key-pair generation, and the setup chain.

use atecc508a::crc::crc16;
use atecc508a::driver::Atecc508a;
use atecc508a::protocol::{Completion, Request};
use atecc508a::types::{ErrorCode, TransportStatus};

fn expected_frame(opcode: u8, param1: u8, param2: u16, payload: &[u8]) -> Vec<u8> {
    let mut body = vec![(payload.len() + 7) as u8, opcode, param1, (param2 & 0xff) as u8, (param2 >> 8) as u8];
    body.extend_from_slice(payload);
    let crc = crc16(&body);
    let mut frame = vec![0x03u8];
    frame.extend_from_slice(&body);
    frame.push((crc & 0xff) as u8);
    frame.push((crc >> 8) as u8);
    frame
}

fn next_request(c: Completion) -> Request {
    match c {
        Completion::Next(r) => r,
        _ => panic!("expected another transfer"),
    }
}

fn write_parts(r: Request) -> (Vec<u8>, usize, bool) {
    match r {
        Request::Write { buffer, len, wake } => (buffer, len, wake),
        Request::Read { .. } => panic!("expected a write request"),
    }
}

fn read_parts(r: Request) -> (Vec<u8>, usize) {
    match r {
        Request::Read { buffer, len } => (buffer, len),
        Request::Write { .. } => panic!("expected a read request"),
    }
}

/// Locking the configuration zone sends the Lock command with mode 0x80 and
/// zero parameters, then reads a one-byte status; 0x00 reports success.
#[test]
fn lock_zone_config_chain() {
    let mut d = Atecc508a::new();
    let (buffer, len, wake) = write_parts(d.lock_zone_config().unwrap());
    assert!(!wake);
    assert_eq!(len, 8);
    assert_eq!(&buffer[..8], &expected_frame(0x17, 0x80, 0x0000, &[])[..]);
    let (mut buffer, len) = read_parts(next_request(
        d.command_complete(buffer, TransportStatus::Success),
    ));
    assert_eq!(len, 4);
    buffer[0] = 0x04;
    buffer[1] = 0x00;
    match d.command_complete(buffer, TransportStatus::Success) {
        Completion::LockDone { ok } => assert!(ok),
        _ => panic!("expected the lock status"),
    }
    assert!(d.is_idle());
}

/// A nonzero status byte reports a failed lock; diagnostic only.
#[test]
fn lock_data_and_otp_failure_status() {
    let mut d = Atecc508a::new();
    let (buffer, len, wake) = write_parts(d.lock_data_and_otp().unwrap());
    assert!(wake);
    assert_eq!(len, 8);
    assert_eq!(&buffer[..8], &expected_frame(0x17, 0x81, 0x0000, &[])[..]);
    let (mut buffer, _) = read_parts(next_request(
        d.command_complete(buffer, TransportStatus::Success),
    ));
    buffer[1] = 0x0F;
    match d.command_complete(buffer, TransportStatus::Success) {
        Completion::LockDone { ok } => assert!(!ok),
        _ => panic!("expected the lock status"),
    }
    assert!(d.is_idle());
}

/// Locking slot 0 uses mode byte 0x82.
#[test]
fn lock_slot0_mode_byte() {
    let mut d = Atecc508a::new();
    let (buffer, len, wake) = write_parts(d.lock_slot0().unwrap());
    assert!(wake);
    assert_eq!(len, 8);
    assert_eq!(&buffer[..8], &expected_frame(0x17, 0x82, 0x0000, &[])[..]);
    let (mut buffer, _) = read_parts(next_request(
        d.command_complete(buffer, TransportStatus::Success),
    ));
    buffer[1] = 0x00;
    match d.command_complete(buffer, TransportStatus::Success) {
        Completion::LockDone { ok } => assert!(ok),
        _ => panic!("expected the lock status"),
    }
}

/// The Lock command for the configuration zone tolerates thirty negative
/// acknowledgments, re-issuing the identical command each time; the
/// thirty-first abandons silently.
#[test]
fn lock_command_retry_ceiling() {
    let mut d = Atecc508a::new();
    let (mut buffer, _, _) = write_parts(d.lock_zone_config().unwrap());
    for _ in 0..30 {
        let (b, len, wake) = write_parts(next_request(
            d.command_complete(buffer, TransportStatus::DataNak),
        ));
        assert_eq!(len, 8);
        assert!(!wake);
        assert_eq!(&b[..8], &expected_frame(0x17, 0x80, 0x0000, &[])[..]);
        buffer = b;
    }
    match d.command_complete(buffer, TransportStatus::DataNak) {
        Completion::Idle => {},
        _ => panic!("expected silent abandonment"),
    }
    assert!(d.is_idle());
}

/// Key-pair generation sends GenKey with the new-private-key mode and the
/// slot as param2, reads the 64-byte public key, and stores it for polling.
#[test]
fn create_key_pair_stores_public_key() {
    let mut d = Atecc508a::new();
    assert_eq!(d.get_public_key(0).unwrap_err(), ErrorCode::Busy);

    let (buffer, len, wake) = write_parts(d.create_key_pair(0x0001).unwrap());
    assert!(wake);
    assert_eq!(len, 8);
    assert_eq!(&buffer[..8], &expected_frame(0x40, 0x04, 0x0001, &[])[..]);
    let (mut buffer, len) = read_parts(next_request(
        d.command_complete(buffer, TransportStatus::Success),
    ));
    assert_eq!(len, 67);
    buffer[0] = 0x43;
    for i in 0..64 {
        buffer[1 + i] = (0x40 + i) as u8;
    }
    match d.command_complete(buffer, TransportStatus::Success) {
        Completion::Idle => {},
        _ => panic!("expected the key chain to finish"),
    }
    assert!(d.is_idle());
    let key = d.get_public_key(0x0001).unwrap();
    assert_eq!(key.len(), 64);
    for i in 0..64 {
        assert_eq!(key[i], (0x40 + i) as u8);
    }
}

/// While the stored key is the all-zero sentinel, polling reports busy.
#[test]
fn public_key_unavailable_until_generated() {
    let d = Atecc508a::new();
    assert_eq!(d.get_public_key(0).unwrap_err(), ErrorCode::Busy);
}

/// One setup call chains two 4-byte writes: the slot-configuration words
/// 0x8320 for slots 0 and 1 at word offset 5, then the key-configuration
/// words 0x3300 at word offset 24.
#[test]
fn setup_chain_two_writes() {
    let mut d = Atecc508a::new();
    let (buffer, len, wake) = write_parts(d.setup_tock_config().unwrap());
    assert!(wake);
    assert_eq!(len, 12);
    assert_eq!(
        &buffer[..12],
        &expected_frame(0x12, 0x00, 0x0005, &[0x83, 0x20, 0x83, 0x20])[..]
    );
    let (buffer, len, wake) = write_parts(next_request(
        d.command_complete(buffer, TransportStatus::Success),
    ));
    assert!(!wake);
    assert_eq!(len, 12);
    assert_eq!(
        &buffer[..12],
        &expected_frame(0x12, 0x00, 0x0018, &[0x33, 0x00, 0x33, 0x00])[..]
    );
    match d.command_complete(buffer, TransportStatus::Success) {
        Completion::Idle => {},
        _ => panic!("expected the setup chain to finish"),
    }
    assert!(d.is_idle());
}

/// A negative acknowledgment of the second setup write re-issues the
/// identical write; at the ceiling the chain is abandoned silently.
#[test]
fn setup_second_write_retries() {
    let mut d = Atecc508a::new();
    let (buffer, _, _) = write_parts(d.setup_tock_config().unwrap());
    let (mut buffer, _, _) = write_parts(next_request(
        d.command_complete(buffer, TransportStatus::Success),
    ));
    for _ in 0..10 {
        let (b, len, _) = write_parts(next_request(
            d.command_complete(buffer, TransportStatus::AddressNak),
        ));
        assert_eq!(len, 12);
        assert_eq!(
            &b[..12],
            &expected_frame(0x12, 0x00, 0x0018, &[0x33, 0x00, 0x33, 0x00])[..]
        );
        buffer = b;
    }
    match d.command_complete(buffer, TransportStatus::AddressNak) {
        Completion::Idle => {},
        _ => panic!("expected silent abandonment"),
    }
    assert!(d.is_idle());
}
