//! The entropy chain and the pull-based word source.

use atecc508a::crc::crc16;
use atecc508a::driver::Atecc508a;
use atecc508a::protocol::{Completion, Request};
use atecc508a::types::{ErrorCode, TransportStatus};

fn expected_frame(opcode: u8, param1: u8, param2: u16, payload: &[u8]) -> Vec<u8> {
    let mut body = vec![(payload.len() + 7) as u8, opcode, param1, (param2 & 0xff) as u8, (param2 >> 8) as u8];
    body.extend_from_slice(payload);
    let crc = crc16(&body);
    let mut frame = vec![0x03u8];
    frame.extend_from_slice(&body);
    frame.push((crc & 0xff) as u8);
    frame.push((crc >> 8) as u8);
    frame
}

fn next_request(c: Completion) -> Request {
    match c {
        Completion::Next(r) => r,
        _ => panic!("expected another transfer"),
    }
}

fn write_parts(r: Request) -> (Vec<u8>, usize, bool) {
    match r {
        Request::Write { buffer, len, wake } => (buffer, len, wake),
        Request::Read { .. } => panic!("expected a write request"),
    }
}

fn read_parts(r: Request) -> (Vec<u8>, usize) {
    match r {
        Request::Read { buffer, len } => (buffer, len),
        Request::Write { .. } => panic!("expected a read request"),
    }
}

/// Fetch one pool whose 32 random bytes are 1..=32 and leave the driver
/// idle with the pool stored.
fn fetch_known_pool(d: &mut Atecc508a) {
    let (buffer, len, wake) = write_parts(d.get().unwrap());
    assert!(wake);
    assert_eq!(len, 8);
    assert_eq!(&buffer[..8], &expected_frame(0x1B, 0x00, 0x0000, &[])[..]);
    let (mut buffer, len) = read_parts(next_request(
        d.command_complete(buffer, TransportStatus::Success),
    ));
    assert_eq!(len, 35);
    buffer[0] = 0x23;
    for i in 0..32 {
        buffer[1 + i] = (i + 1) as u8;
    }
    match d.command_complete(buffer, TransportStatus::Success) {
        Completion::EntropyReady => {},
        _ => panic!("expected the pool to be delivered"),
    }
    assert!(d.is_idle());
}

/// Eight successive pulls yield the eight big-endian decodings of the
/// pool's consecutive 4-byte groups, in their original order; the ninth
/// pull wraps back to the first group.
#[test]
fn eight_pulls_in_order() {
    let mut d = Atecc508a::new();
    fetch_known_pool(&mut d);
    for k in 0u32..8 {
        let b = 4 * k + 1;
        let expected = (b << 24) | ((b + 1) << 16) | ((b + 2) << 8) | (b + 3);
        assert_eq!(d.next_word(), expected);
    }
    assert_eq!(d.next_word(), 0x01020304);
}

/// Exhausting the pool while the consumer still wants data triggers exactly
/// one fresh Random exchange before further values are produced.
#[test]
fn ninth_pull_after_need_more_refetches_once() {
    let mut d = Atecc508a::new();
    fetch_known_pool(&mut d);
    for _ in 0..8 {
        d.next_word();
    }
    // The consumer signalled that it needs more: one re-fetch.
    let (buffer, len, _) = write_parts(d.get().unwrap());
    assert_eq!(len, 8);
    assert_eq!(&buffer[..8], &expected_frame(0x1B, 0x00, 0x0000, &[])[..]);
    let (mut buffer, _) = read_parts(next_request(
        d.command_complete(buffer, TransportStatus::Success),
    ));
    for i in 0..32 {
        buffer[1 + i] = 0xA0;
    }
    match d.command_complete(buffer, TransportStatus::Success) {
        Completion::EntropyReady => {},
        _ => panic!("expected the pool to be delivered"),
    }
    assert!(d.is_idle());
    assert_eq!(d.next_word(), 0xA0A0A0A0);
}

/// Ten negative acknowledgments of the Random command itself re-issue the
/// identical command; the eleventh delivers an explicit failure to the
/// entropy consumer and returns the machine to idle.
#[test]
fn entropy_command_retry_ceiling() {
    let mut d = Atecc508a::new();
    let (mut buffer, _, _) = write_parts(d.get().unwrap());
    for _ in 0..10 {
        let (b, len, wake) = write_parts(next_request(
            d.command_complete(buffer, TransportStatus::AddressNak),
        ));
        assert_eq!(len, 8);
        assert!(!wake);
        assert_eq!(&b[..8], &expected_frame(0x1B, 0x00, 0x0000, &[])[..]);
        buffer = b;
    }
    match d.command_complete(buffer, TransportStatus::AddressNak) {
        Completion::EntropyFailed(e) => assert_eq!(e, ErrorCode::NoAck),
        _ => panic!("expected an explicit entropy failure"),
    }
    assert!(d.is_idle());
}

/// The Random response read tolerates a thousand negative acknowledgments;
/// the thousand-and-first abandons with an explicit failure.
#[test]
fn entropy_response_retry_ceiling() {
    let mut d = Atecc508a::new();
    let (buffer, _, _) = write_parts(d.get().unwrap());
    let (mut buffer, _) = read_parts(next_request(
        d.command_complete(buffer, TransportStatus::Success),
    ));
    for _ in 0..1000 {
        let (b, len) = read_parts(next_request(
            d.command_complete(buffer, TransportStatus::DataNak),
        ));
        assert_eq!(len, 35);
        buffer = b;
    }
    match d.command_complete(buffer, TransportStatus::DataNak) {
        Completion::EntropyFailed(e) => assert_eq!(e, ErrorCode::NoAck),
        _ => panic!("expected an explicit entropy failure"),
    }
    assert!(d.is_idle());
}

/// Cancelling always succeeds and does nothing: the bus has no abort.
#[test]
fn cancel_is_a_noop() {
    let mut d = Atecc508a::new();
    assert!(d.cancel().is_ok());
    fetch_known_pool(&mut d);
    assert!(d.cancel().is_ok());
    assert_eq!(d.next_word(), 0x01020304);
}
