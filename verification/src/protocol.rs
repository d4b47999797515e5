//! The split-phase operation protocol.
//!
//! Exactly one multi-step exchange is in flight at a time. Each exchange is a
//! chain of phases; a phase waits on one bus transfer, and the transfer's
//! completion either re-issues the identical request (on a negative
//! acknowledgment below the phase's retry ceiling), abandons the exchange (at
//! the ceiling), or advances the chain. This module gives the phases, the
//! ghost transition function the driver's contracts are stated over, and the
//! requests each phase waits on.

use vstd::prelude::*;

use crate::frame::frame_spec;
use crate::types::{is_nak, TransportStatus};

verus! {

/// Opcode of the chip's Read command.
pub const OPCODE_READ: u8 = 0x02;

/// Opcode of the chip's Write command.
pub const OPCODE_WRITE: u8 = 0x12;

/// Opcode of the chip's Lock command.
pub const OPCODE_LOCK: u8 = 0x17;

/// Opcode of the chip's Random command.
pub const OPCODE_RANDOM: u8 = 0x1B;

/// Opcode of the chip's GenKey command.
pub const OPCODE_GENKEY: u8 = 0x40;

/// Lock-command mode byte for the configuration zone.
pub const LOCK_MODE_ZONE_CONFIG: u8 = 0x80;

/// Lock-command mode byte for the data and OTP zones.
pub const LOCK_MODE_ZONE_DATA_AND_OTP: u8 = 0x81;

/// Lock-command mode byte for slot 0.
pub const LOCK_MODE_SLOT0: u8 = 0x82;

/// GenKey mode byte: create a new private key.
pub const GENKEY_MODE_NEW_PRIVATE: u8 = 0x04;

/// Zone byte of the configuration zone.
pub const ZONE_CONFIG: u8 = 0x00;

/// Word address of the first configuration-zone block read.
pub const CONFIG_BLOCK0_ADDR: u16 = 0x0000;

/// Word address of the configuration-zone block holding the lock bytes.
pub const CONFIG_BLOCK2_ADDR: u16 = 0x0010;

/// Word offset of the slot-configuration words for slots 0 and 1.
pub const SLOT_CONFIG_ADDR: u16 = 5;

/// Word offset of the key-configuration words for slots 0 and 1.
pub const KEY_CONFIG_ADDR: u16 = 24;

/// Length of a configuration-zone block read.
pub const CONFIG_READ_LEN: usize = 32;

/// Response length for a block read: count byte, 32 data bytes, CRC.
pub const CONFIG_RESPONSE_LEN: usize = 35;

/// Response length for a Random command: count byte, 32 random bytes, CRC.
pub const RANDOM_RESPONSE_LEN: usize = 35;

/// Response length for a Lock command: count byte, status byte, CRC.
pub const LOCK_RESPONSE_LEN: usize = 4;

/// Response length for a GenKey command: count byte, 64 key bytes, CRC.
pub const GENKEY_RESPONSE_LEN: usize = 67;

/// Retry ceiling for short bookkeeping reads and writes.
pub const SHORT_RETRIES: u32 = 10;

/// Retry ceiling for issuing the configuration-zone Lock command.
pub const LOCK_COMMAND_RETRIES: u32 = 30;

/// Retry ceiling for the slower lock phases: the data/OTP and slot-0 Lock
/// commands, and every lock status read.
pub const LOCK_RETRIES: u32 = 100;

/// Retry ceiling for reading a Random response: the chip's RNG takes time to
/// settle.
pub const RANDOM_RESPONSE_RETRIES: u32 = 1000;

/// Retry ceiling for reading a GenKey response: ECC key generation is the
/// chip's slowest operation.
pub const GENKEY_RESPONSE_RETRIES: u32 = 5000;

/// The active multi-step exchange: which phase it is in, how often the
/// phase's transfer was re-issued, and (for key generation) the target slot.
#[derive(Clone, Copy, Debug)]
pub enum Operation {
    /// No exchange is in flight.
    Ready,
    /// Config-zone chain: the Read command for block 0 is on the bus.
    ReadConfigZeroCommand,
    /// Config-zone chain: waiting for the block 0 response.
    ReadConfigZeroResult { run: u32 },
    /// Config-zone chain: the Read command for block 2 is on the bus.
    ReadConfigTwoCommand,
    /// Config-zone chain: waiting for the block 2 response.
    ReadConfigTwoResult { run: u32 },
    /// Entropy chain: the Random command is on the bus.
    GenerateEntropyCommand { run: u32 },
    /// Entropy chain: waiting for the 32 random bytes.
    GenerateEntropyResult { run: u32 },
    /// Setup chain: the slot-configuration write is on the bus.
    SetupConfigOne,
    /// Setup chain: the key-configuration write is on the bus.
    SetupConfigTwo { run: u32 },
    /// Lock chain: the Lock command for the configuration zone is on the bus.
    LockZoneConfig { run: u32 },
    /// Lock chain: waiting for the one-byte lock status.
    LockResponse { run: u32 },
    /// Key chain: the GenKey command for `slot` is on the bus.
    CreateKeyPair { run: u32, slot: u16 },
    /// Key chain: waiting for the 64-byte public key.
    ReadKeyPair { run: u32 },
    /// Lock chain: the Lock command for data and OTP is on the bus.
    LockDataOtp { run: u32 },
    /// Lock chain: the Lock command for slot 0 is on the bus.
    LockSlot0 { run: u32 },
}

/// One bus transfer the caller must perform for the driver. The working
/// buffer travels inside the request and comes back through
/// `command_complete`.
pub enum Request {
    /// Write the first `len` bytes of `buffer` to the chip. When `wake` is
    /// set, the caller must first run the power-on sequence (data line held
    /// low) so the chip is awake for the session's command.
    Write { buffer: Vec<u8>, len: usize, wake: bool },
    /// Read `len` bytes from the chip into the front of `buffer`.
    Read { buffer: Vec<u8>, len: usize },
}

/// What the driver asks of its caller after a transfer completes.
pub enum Completion {
    /// Perform this transfer next and hand its outcome back.
    Next(Request),
    /// The exchange is over (or was silently abandoned); the machine is idle.
    Idle,
    /// The config-zone chain finished: what the two lock bytes said.
    ConfigZoneRead { otp: crate::types::LockParse, config: crate::types::LockParse },
    /// A lock exchange finished; `ok` is what the chip's status byte said.
    /// Diagnostic only: failure is not surfaced as an error.
    LockDone { ok: bool },
    /// A fresh entropy pool is available; deliver it to the entropy client.
    EntropyReady,
    /// The entropy exchange was abandoned at its retry ceiling; deliver this
    /// failure to the entropy client.
    EntropyFailed(crate::types::ErrorCode),
}

/// Ghost description of a bus transfer, for stating which request a phase
/// waits on.
pub enum ReqSpec {
    /// A write of exactly these bytes.
    Write { bytes: Seq<u8> },
    /// A read of exactly this many bytes.
    Read { len: int },
}

/// Whether a phase re-issues its transfer on a negative acknowledgment.
/// The command phases of the configuration and setup chains advance
/// regardless of the reported status and never retry.
pub open spec fn checks_nak(op: Operation) -> bool {
    match op {
        Operation::Ready => false,
        Operation::ReadConfigZeroCommand => false,
        Operation::ReadConfigTwoCommand => false,
        Operation::SetupConfigOne => false,
        _ => true,
    }
}

/// The phase's retry ceiling: how high the counter may go before one more
/// negative acknowledgment abandons the exchange.
pub open spec fn retry_ceiling(op: Operation) -> u32 {
    match op {
        Operation::ReadConfigZeroResult { .. } => SHORT_RETRIES,
        Operation::ReadConfigTwoResult { .. } => SHORT_RETRIES,
        Operation::GenerateEntropyCommand { .. } => SHORT_RETRIES,
        Operation::GenerateEntropyResult { .. } => RANDOM_RESPONSE_RETRIES,
        Operation::SetupConfigTwo { .. } => SHORT_RETRIES,
        Operation::LockZoneConfig { .. } => LOCK_COMMAND_RETRIES,
        Operation::LockResponse { .. } => LOCK_RETRIES,
        Operation::CreateKeyPair { .. } => SHORT_RETRIES,
        Operation::ReadKeyPair { .. } => GENKEY_RESPONSE_RETRIES,
        Operation::LockDataOtp { .. } => LOCK_RETRIES,
        Operation::LockSlot0 { .. } => LOCK_RETRIES,
        _ => 0,
    }
}

/// The phase's retry counter.
pub open spec fn run_of(op: Operation) -> u32 {
    match op {
        Operation::ReadConfigZeroResult { run } => run,
        Operation::ReadConfigTwoResult { run } => run,
        Operation::GenerateEntropyCommand { run } => run,
        Operation::GenerateEntropyResult { run } => run,
        Operation::SetupConfigTwo { run } => run,
        Operation::LockZoneConfig { run } => run,
        Operation::LockResponse { run } => run,
        Operation::CreateKeyPair { run, .. } => run,
        Operation::ReadKeyPair { run } => run,
        Operation::LockDataOtp { run } => run,
        Operation::LockSlot0 { run } => run,
        _ => 0,
    }
}

/// The same phase with its retry counter set to `run`.
pub open spec fn with_run(op: Operation, run: u32) -> Operation {
    match op {
        Operation::ReadConfigZeroResult { .. } => Operation::ReadConfigZeroResult { run },
        Operation::ReadConfigTwoResult { .. } => Operation::ReadConfigTwoResult { run },
        Operation::GenerateEntropyCommand { .. } => Operation::GenerateEntropyCommand { run },
        Operation::GenerateEntropyResult { .. } => Operation::GenerateEntropyResult { run },
        Operation::SetupConfigTwo { .. } => Operation::SetupConfigTwo { run },
        Operation::LockZoneConfig { .. } => Operation::LockZoneConfig { run },
        Operation::LockResponse { .. } => Operation::LockResponse { run },
        Operation::CreateKeyPair { slot, .. } => Operation::CreateKeyPair { run, slot },
        Operation::ReadKeyPair { .. } => Operation::ReadKeyPair { run },
        Operation::LockDataOtp { .. } => Operation::LockDataOtp { run },
        Operation::LockSlot0 { .. } => Operation::LockSlot0 { run },
        other => other,
    }
}

/// Where a negative acknowledgment takes a phase that retries: the same
/// phase with the counter advanced while it is below the ceiling, idle once
/// the ceiling is reached.
pub open spec fn on_nak(op: Operation) -> Operation {
    if run_of(op) < retry_ceiling(op) {
        with_run(op, (run_of(op) + 1) as u32)
    } else {
        Operation::Ready
    }
}

/// Where a completed transfer takes a phase: the next phase of its chain,
/// or idle at the chain's end.
pub open spec fn on_success(op: Operation) -> Operation {
    match op {
        Operation::Ready => Operation::Ready,
        Operation::ReadConfigZeroCommand => Operation::ReadConfigZeroResult { run: 0 },
        Operation::ReadConfigZeroResult { .. } => Operation::ReadConfigTwoCommand,
        Operation::ReadConfigTwoCommand => Operation::ReadConfigTwoResult { run: 0 },
        Operation::ReadConfigTwoResult { .. } => Operation::Ready,
        Operation::GenerateEntropyCommand { .. } => Operation::GenerateEntropyResult { run: 0 },
        Operation::GenerateEntropyResult { .. } => Operation::Ready,
        Operation::SetupConfigOne => Operation::SetupConfigTwo { run: 0 },
        Operation::SetupConfigTwo { .. } => Operation::Ready,
        Operation::LockZoneConfig { .. } => Operation::LockResponse { run: 0 },
        Operation::LockResponse { .. } => Operation::Ready,
        Operation::CreateKeyPair { .. } => Operation::ReadKeyPair { run: 0 },
        Operation::ReadKeyPair { .. } => Operation::Ready,
        Operation::LockDataOtp { .. } => Operation::LockResponse { run: 0 },
        Operation::LockSlot0 { .. } => Operation::LockResponse { run: 0 },
    }
}

/// The protocol's transition function: one transport completion takes the
/// machine from `op` to this phase.
pub open spec fn step_op(op: Operation, status: TransportStatus) -> Operation {
    if checks_nak(op) && is_nak(status) {
        on_nak(op)
    } else {
        on_success(op)
    }
}

/// The entropy chain delivers an explicit failure to its consumer when it is
/// abandoned; the fire-and-forget chains fail silently.
pub open spec fn is_entropy_phase(op: Operation) -> bool {
    op is GenerateEntropyCommand || op is GenerateEntropyResult
}

/// The transfer a phase waits on (and re-issues, identically, after every
/// negative acknowledgment below its ceiling).
pub open spec fn request_of(op: Operation) -> Option<ReqSpec> {
    match op {
        Operation::Ready => None,
        Operation::ReadConfigZeroCommand => Some(
            ReqSpec::Write {
                bytes: frame_spec(OPCODE_READ, ZONE_CONFIG | 0x80, CONFIG_BLOCK0_ADDR, Seq::empty()),
            },
        ),
        Operation::ReadConfigZeroResult { .. } => Some(
            ReqSpec::Read { len: CONFIG_RESPONSE_LEN as int },
        ),
        Operation::ReadConfigTwoCommand => Some(
            ReqSpec::Write {
                bytes: frame_spec(OPCODE_READ, ZONE_CONFIG | 0x80, CONFIG_BLOCK2_ADDR, Seq::empty()),
            },
        ),
        Operation::ReadConfigTwoResult { .. } => Some(
            ReqSpec::Read { len: CONFIG_RESPONSE_LEN as int },
        ),
        Operation::GenerateEntropyCommand { .. } => Some(
            ReqSpec::Write { bytes: frame_spec(OPCODE_RANDOM, 0x00, 0x0000, Seq::empty()) },
        ),
        Operation::GenerateEntropyResult { .. } => Some(
            ReqSpec::Read { len: RANDOM_RESPONSE_LEN as int },
        ),
        Operation::SetupConfigOne => Some(
            ReqSpec::Write {
                bytes: frame_spec(
                    OPCODE_WRITE,
                    ZONE_CONFIG & 0x7f,
                    SLOT_CONFIG_ADDR,
                    seq![0x83u8, 0x20u8, 0x83u8, 0x20u8],
                ),
            },
        ),
        Operation::SetupConfigTwo { .. } => Some(
            ReqSpec::Write {
                bytes: frame_spec(
                    OPCODE_WRITE,
                    ZONE_CONFIG & 0x7f,
                    KEY_CONFIG_ADDR,
                    seq![0x33u8, 0x00u8, 0x33u8, 0x00u8],
                ),
            },
        ),
        Operation::LockZoneConfig { .. } => Some(
            ReqSpec::Write {
                bytes: frame_spec(OPCODE_LOCK, LOCK_MODE_ZONE_CONFIG, 0x0000, Seq::empty()),
            },
        ),
        Operation::LockResponse { .. } => Some(ReqSpec::Read { len: LOCK_RESPONSE_LEN as int }),
        Operation::CreateKeyPair { slot, .. } => Some(
            ReqSpec::Write {
                bytes: frame_spec(OPCODE_GENKEY, GENKEY_MODE_NEW_PRIVATE, slot, Seq::empty()),
            },
        ),
        Operation::ReadKeyPair { .. } => Some(ReqSpec::Read { len: GENKEY_RESPONSE_LEN as int }),
        Operation::LockDataOtp { .. } => Some(
            ReqSpec::Write {
                bytes: frame_spec(OPCODE_LOCK, LOCK_MODE_ZONE_DATA_AND_OTP, 0x0000, Seq::empty()),
            },
        ),
        Operation::LockSlot0 { .. } => Some(
            ReqSpec::Write {
                bytes: frame_spec(OPCODE_LOCK, LOCK_MODE_SLOT0, 0x0000, Seq::empty()),
            },
        ),
    }
}

/// The executable request `r` carries out the ghost description `d`, with
/// the whole working buffer travelling inside it.
pub open spec fn req_matches(r: Request, d: ReqSpec) -> bool {
    match d {
        ReqSpec::Write { bytes } => r matches Request::Write { buffer, len, .. }
            && buffer@.len() == crate::frame::BUFFER_LEN && len == bytes.len() && buffer@.subrange(
            0,
            len as int,
        ) == bytes,
        ReqSpec::Read { len: want } => r matches Request::Read { buffer, len } && buffer@.len()
            == crate::frame::BUFFER_LEN && len == want,
    }
}

/// The completion hands out exactly the transfer that the phase `op_after`
/// waits on.
pub open spec fn continues(c: Completion, op_after: Operation) -> bool {
    c matches Completion::Next(r) && request_of(op_after) matches Some(d) && req_matches(r, d)
}

/// Re-issued transfers never repeat the power-on sequence; only a public
/// entry point wakes the chip.
pub open spec fn no_wake(c: Completion) -> bool {
    c matches Completion::Next(Request::Write { wake, .. }) ==> !wake
}

/// The result of an operation-starting entry point: it hands out exactly
/// the transfer that the chain's first phase `op_started` waits on.
pub open spec fn starts(r: Result<Request, crate::types::ErrorCode>, op_started: Operation) -> bool {
    r matches Ok(req) && request_of(op_started) matches Some(d) && req_matches(req, d)
}

/// Whether the request asks the caller to run the power-on sequence first.
pub open spec fn wakes(r: Result<Request, crate::types::ErrorCode>, w: bool) -> bool {
    r matches Ok(Request::Write { wake, .. }) ==> wake == w
}

/// Assemble one command frame over the payload already staged in the
/// working buffer, and hand buffer and frame out as a single write request.
/// Issues exactly one transfer of `payload_len` plus the fixed per-frame
/// overhead.
pub fn send_command(
    buffer: Vec<u8>,
    opcode: u8,
    param1: u8,
    param2: u16,
    payload_len: usize,
    wake: bool,
) -> (r: Request)
    requires
        buffer@.len() == crate::frame::BUFFER_LEN,
        payload_len <= crate::frame::BUFFER_LEN - crate::frame::FRAME_OVERHEAD,
    ensures
        (r matches Request::Write { buffer: b, len, wake: w }
            && b@.len() == crate::frame::BUFFER_LEN
            && len == payload_len + crate::frame::FRAME_OVERHEAD
            && w == wake
            && b@.subrange(0, len as int) == frame_spec(
                opcode,
                param1,
                param2,
                buffer@.subrange(6, 6 + payload_len as int),
            )),
        payload_len == 0 ==> req_matches(
            r,
            ReqSpec::Write { bytes: frame_spec(opcode, param1, param2, Seq::empty()) },
        ),
{
    let mut buf = buffer;
    let total = crate::frame::build_frame(&mut buf, opcode, param1, param2, payload_len);
    proof {
        if payload_len == 0 {
            assert(buffer@.subrange(6, 6) =~= Seq::<u8>::empty());
        }
    }
    Request::Write { buffer: buf, len: total, wake }
}

/// The zone byte a transfer of `length` bytes carries: bit 7 set for the
/// 32-byte size, clear for the 4-byte size.
pub open spec fn spec_zone_byte(zone: u8, length: usize) -> u8 {
    if length == 32 {
        zone | 0x80
    } else {
        zone & 0x7f
    }
}

/// Issue a Read command for `length` bytes at `address` of `zone`. The
/// length must be exactly 4 or 32; any other length fails synchronously
/// with a size error, hands the working buffer back, and issues no
/// transfer.
pub fn read_command(
    buffer: Vec<u8>,
    zone: u8,
    address: u16,
    length: usize,
    wake: bool,
) -> (r: Result<Request, (crate::types::ErrorCode, Vec<u8>)>)
    requires
        buffer@.len() == crate::frame::BUFFER_LEN,
    ensures
        (length == 4 || length == 32) ==> (r matches Ok(req) && req_matches(
            req,
            ReqSpec::Write {
                bytes: frame_spec(OPCODE_READ, spec_zone_byte(zone, length), address, Seq::empty()),
            },
        )),
        (length == 4 || length == 32) ==> (r matches Ok(Request::Write { wake: w, .. }) && w
            == wake),
        !(length == 4 || length == 32) ==> (r matches Err(e) && e.0 == crate::types::ErrorCode::Size
            && e.1@ == buffer@),
{
    let zone_byte = match crate::frame::zone_for_length(zone, length) {
        Ok(z) => z,
        Err(e) => {
            return Err((e, buffer));
        },
    };
    Ok(send_command(buffer, OPCODE_READ, zone_byte, address, 0, wake))
}

/// Issue a Write command for the `length` payload bytes already staged in
/// the working buffer, at `address` of `zone`. The length must be exactly
/// 4 or 32; any other length fails synchronously with a size error, hands
/// the working buffer back, and issues no transfer.
pub fn write_command(
    buffer: Vec<u8>,
    zone: u8,
    address: u16,
    length: usize,
    wake: bool,
) -> (r: Result<Request, (crate::types::ErrorCode, Vec<u8>)>)
    requires
        buffer@.len() == crate::frame::BUFFER_LEN,
    ensures
        (length == 4 || length == 32) ==> (r matches Ok(req) && req_matches(
            req,
            ReqSpec::Write {
                bytes: frame_spec(
                    OPCODE_WRITE,
                    spec_zone_byte(zone, length),
                    address,
                    buffer@.subrange(6, 6 + length as int),
                ),
            },
        )),
        (length == 4 || length == 32) ==> (r matches Ok(Request::Write { wake: w, .. }) && w
            == wake),
        !(length == 4 || length == 32) ==> (r matches Err(e) && e.0 == crate::types::ErrorCode::Size
            && e.1@ == buffer@),
{
    let zone_byte = match crate::frame::zone_for_length(zone, length) {
        Ok(z) => z,
        Err(e) => {
            return Err((e, buffer));
        },
    };
    Ok(send_command(buffer, OPCODE_WRITE, zone_byte, address, length, wake))
}

/// The phase after `n` consecutive negative acknowledgments.
pub open spec fn after_naks(op: Operation, n: nat) -> Operation
    decreases n,
{
    if n == 0 {
        op
    } else {
        step_op(after_naks(op, (n - 1) as nat), TransportStatus::DataNak)
    }
}

/// Law: starting a phase that retries with a fresh counter, `n` consecutive
/// negative acknowledgments leave the machine in the same phase with the
/// counter at exactly `n` — so exactly `n` identical re-issues of the same
/// request — for every `n` up to the ceiling; the acknowledgment after the
/// ceiling abandons the exchange and returns the machine to idle, not one
/// retry earlier and not one later.
pub proof fn lemma_nak_retry_policy(op: Operation, n: nat)
    requires
        checks_nak(op),
        run_of(op) == 0,
    ensures
        n <= retry_ceiling(op) ==> after_naks(op, n) == with_run(op, n as u32),
        n <= retry_ceiling(op) ==> request_of(after_naks(op, n)) == request_of(op),
        n == retry_ceiling(op) + 1 ==> after_naks(op, n) == Operation::Ready,
    decreases n,
{
    if n > 0 {
        lemma_nak_retry_policy(op, (n - 1) as nat);
    }
}

/// Law: one successful completion per phase walks the configuration-zone
/// chain through its documented request sequence — Read command for block 0,
/// 35-byte response, Read command for block 2 at word address 0x0010,
/// 35-byte response — and returns the machine to idle.
pub proof fn lemma_config_zone_chain()
    ensures
        ZONE_CONFIG | 0x80 == 0x80u8,
        request_of(Operation::ReadConfigZeroCommand) == Some(
            ReqSpec::Write {
                bytes: frame_spec(OPCODE_READ, ZONE_CONFIG | 0x80, CONFIG_BLOCK0_ADDR, Seq::empty()),
            },
        ),
        step_op(Operation::ReadConfigZeroCommand, TransportStatus::Success)
            == (Operation::ReadConfigZeroResult { run: 0 }),
        request_of(Operation::ReadConfigZeroResult { run: 0 }) == Some(
            ReqSpec::Read { len: CONFIG_RESPONSE_LEN as int },
        ),
        step_op(Operation::ReadConfigZeroResult { run: 0 }, TransportStatus::Success)
            == Operation::ReadConfigTwoCommand,
        request_of(Operation::ReadConfigTwoCommand) == Some(
            ReqSpec::Write {
                bytes: frame_spec(OPCODE_READ, ZONE_CONFIG | 0x80, CONFIG_BLOCK2_ADDR, Seq::empty()),
            },
        ),
        step_op(Operation::ReadConfigTwoCommand, TransportStatus::Success)
            == (Operation::ReadConfigTwoResult { run: 0 }),
        request_of(Operation::ReadConfigTwoResult { run: 0 }) == Some(
            ReqSpec::Read { len: CONFIG_RESPONSE_LEN as int },
        ),
        step_op(Operation::ReadConfigTwoResult { run: 0 }, TransportStatus::Success)
            == Operation::Ready,
{
    assert(ZONE_CONFIG | 0x80 == 0x80u8) by (bit_vector);
}

} // verus!
