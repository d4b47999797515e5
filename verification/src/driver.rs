//! The driver itself: one owning structure holding the working buffer, the
//! active operation, the entropy pool, and the lock/key lifecycle records.
//!
//! The working buffer has single-owner hand-off semantics: it is either held
//! here or on loan to the transport inside exactly one outstanding
//! [`Request`], and it is reclaimed on every exit path. Exactly one operation
//! is in flight at a time; starting another while one is active is a
//! precondition violation, checked statically.

use vstd::prelude::*;

use crate::frame::BUFFER_LEN;
use crate::protocol::{
    checks_nak, continues, is_entropy_phase, no_wake, read_command, retry_ceiling, run_of,
    send_command, starts, step_op, wakes, write_command, Completion, Operation, Request,
    CONFIG_BLOCK0_ADDR, CONFIG_BLOCK2_ADDR, CONFIG_READ_LEN, CONFIG_RESPONSE_LEN,
    GENKEY_MODE_NEW_PRIVATE, GENKEY_RESPONSE_LEN, GENKEY_RESPONSE_RETRIES, KEY_CONFIG_ADDR,
    LOCK_COMMAND_RETRIES, LOCK_MODE_SLOT0, LOCK_MODE_ZONE_CONFIG, LOCK_MODE_ZONE_DATA_AND_OTP,
    LOCK_RESPONSE_LEN, LOCK_RETRIES, OPCODE_GENKEY, OPCODE_LOCK, OPCODE_RANDOM,
    RANDOM_RESPONSE_LEN, RANDOM_RESPONSE_RETRIES, SHORT_RETRIES, SLOT_CONFIG_ADDR, ZONE_CONFIG,
};
use crate::types::{is_nak, parse_lock_byte, parse_lock_spec, ErrorCode, TransportStatus};

verus! {

/// Size of the entropy pool: one Random exchange yields 32 bytes.
pub const ENTROPY_POOL_LEN: usize = 32;

/// Size of a stored public key.
pub const PUBLIC_KEY_LEN: usize = 64;

/// Size of the stored serial number record.
pub const SERIAL_LEN: usize = 9;

/// Size of the stored revision record.
pub const REVISION_LEN: usize = 3;

/// Every byte of the sequence is zero. The all-zero public key is the
/// sentinel meaning "not yet available".
pub open spec fn all_zero_spec(s: Seq<u8>) -> bool {
    forall|i: int| 0 <= i < s.len() ==> s[i] == 0
}

/// The serial number as the driver records it from the first config-zone
/// response: response bytes 0-2 and 8-11, with padding zeroes between and
/// after.
pub open spec fn serial_of(resp: Seq<u8>) -> Seq<u8> {
    seq![resp[0], resp[1], resp[2], 0u8, resp[8], resp[9], resp[10], resp[11], 0u8]
}

/// A 32-bit word decoded big-endian from four bytes.
pub open spec fn spec_be32(b0: u8, b1: u8, b2: u8, b3: u8) -> u32 {
    ((b0 as u32) << 24) | ((b1 as u32) << 16) | ((b2 as u32) << 8) | (b3 as u32)
}

/// The word a pull of the entropy source yields at byte offset `off`.
pub open spec fn word_at(pool: Seq<u8>, off: int) -> u32 {
    spec_be32(pool[off], pool[off + 1], pool[off + 2], pool[off + 3])
}

/// The pool offset after one pull: forward by one word, wrapping to the
/// start once the last of the eight words has been read.
pub open spec fn next_offset(off: int) -> int {
    if off >= 28 {
        0
    } else {
        off + 4
    }
}

/// The pool offset after `n` pulls starting from a fresh pool.
pub open spec fn offset_after_pulls(n: nat) -> int
    decreases n,
{
    if n == 0 {
        0
    } else {
        next_offset(offset_after_pulls((n - 1) as nat))
    }
}

/// Law: starting at the front of the pool, the first eight pulls read the
/// eight consecutive 4-byte groups in their original order (pull `n` decodes
/// the word at byte offset `4 * n`), and the ninth pull wraps back to the
/// first group.
pub proof fn lemma_entropy_pull_order(n: nat)
    requires
        n <= 8,
    ensures
        n < 8 ==> offset_after_pulls(n) == 4 * n,
        n == 8 ==> offset_after_pulls(n) == 0,
    decreases n,
{
    if n > 0 {
        lemma_entropy_pull_order((n - 1) as nat);
    }
}

/// Ghost image of the driver: the active phase, whether the working buffer
/// is home, and the data model records.
pub struct DriverView {
    /// The active operation phase.
    pub op: Operation,
    /// Whether the working buffer is held by the driver (true) or on loan to
    /// the transport inside an outstanding request (false).
    pub holds_buffer: bool,
    /// The 32 bytes of chip-generated randomness.
    pub pool: Seq<u8>,
    /// Byte offset of the next entropy word, a multiple of 4 in 0..=28.
    pub pool_offset: int,
    /// Whether the configuration zone was seen locked.
    pub config_locked: bool,
    /// Whether the data/OTP zone was seen locked.
    pub data_locked: bool,
    /// The most recently generated public key; all-zero means none yet.
    pub public_key: Seq<u8>,
    /// The chip's serial number as parsed from the config zone.
    pub serial: Seq<u8>,
    /// The chip's revision bytes as parsed from the config zone.
    pub revision: Seq<u8>,
    /// The two slot-lock bytes as read from the config zone.
    pub slot_locks: Seq<u8>,
}

/// The entropy pool, its offset, and the lifecycle records are untouched.
pub open spec fn same_records(a: DriverView, b: DriverView) -> bool {
    &&& b.pool == a.pool
    &&& b.pool_offset == a.pool_offset
    &&& b.config_locked == a.config_locked
    &&& b.data_locked == a.data_locked
    &&& b.public_key == a.public_key
    &&& b.serial == a.serial
    &&& b.revision == a.revision
    &&& b.slot_locks == a.slot_locks
}

/// The lock flags and slot-lock bytes are untouched.
pub open spec fn same_locks(a: DriverView, b: DriverView) -> bool {
    &&& b.config_locked == a.config_locked
    &&& b.data_locked == a.data_locked
    &&& b.slot_locks == a.slot_locks
}

/// Serial number and revision are untouched.
pub open spec fn same_identity(a: DriverView, b: DriverView) -> bool {
    &&& b.serial == a.serial
    &&& b.revision == a.revision
}

/// The driver for one ATECC508A chip.
pub struct Atecc508a {
    buffer: Option<Vec<u8>>,
    op: Operation,
    entropy_pool: Vec<u8>,
    entropy_offset: usize,
    config_lock: bool,
    data_lock: bool,
    public_key: Vec<u8>,
    serial: Vec<u8>,
    revision: Vec<u8>,
    slot_locks: Vec<u8>,
}

impl View for Atecc508a {
    type V = DriverView;

    closed spec fn view(&self) -> DriverView {
        DriverView {
            op: self.op,
            holds_buffer: self.buffer is Some,
            pool: self.entropy_pool@,
            pool_offset: self.entropy_offset as int,
            config_locked: self.config_lock,
            data_locked: self.data_lock,
            public_key: self.public_key@,
            serial: self.serial@,
            revision: self.revision@,
            slot_locks: self.slot_locks@,
        }
    }
}

impl Atecc508a {
    /// Well-formedness: the buffer, when home, has its full static size, the
    /// records have their fixed sizes, and the pool offset is word-aligned
    /// and in range.
    pub closed spec fn wf(self) -> bool {
        &&& (self.buffer matches Some(b) ==> b@.len() == BUFFER_LEN)
        &&& self.entropy_pool@.len() == ENTROPY_POOL_LEN
        &&& self.entropy_offset <= 28
        &&& self.entropy_offset % 4 == 0
        &&& self.public_key@.len() == PUBLIC_KEY_LEN
        &&& self.serial@.len() == SERIAL_LEN
        &&& self.revision@.len() == REVISION_LEN
        &&& self.slot_locks@.len() == 2
    }

    /// A fresh driver: idle, buffer home, no randomness, no key, nothing
    /// locked.
    pub fn new() -> (d: Atecc508a)
        ensures
            d.wf(),
            d@.op is Ready,
            d@.holds_buffer,
            d@.pool_offset == 0,
            d@.pool.len() == ENTROPY_POOL_LEN && all_zero_spec(d@.pool),
            d@.public_key.len() == PUBLIC_KEY_LEN && all_zero_spec(d@.public_key),
            d@.serial.len() == SERIAL_LEN && all_zero_spec(d@.serial),
            d@.revision.len() == REVISION_LEN && all_zero_spec(d@.revision),
            d@.slot_locks.len() == 2 && all_zero_spec(d@.slot_locks),
            !d@.config_locked,
            !d@.data_locked,
    {
        Atecc508a {
            buffer: Some(zero_vec(BUFFER_LEN)),
            op: Operation::Ready,
            entropy_pool: zero_vec(ENTROPY_POOL_LEN),
            entropy_offset: 0,
            config_lock: false,
            data_lock: false,
            public_key: zero_vec(PUBLIC_KEY_LEN),
            serial: zero_vec(SERIAL_LEN),
            revision: zero_vec(REVISION_LEN),
            slot_locks: zero_vec(2),
        }
    }

    /// Whether no operation is in flight. Every operation-starting entry
    /// point requires this.
    pub fn is_idle(&self) -> (r: bool)
        ensures
            r == (self@.op is Ready),
    {
        match self.op {
            Operation::Ready => true,
            _ => false,
        }
    }

    /// The device counts as locked only when both the configuration zone and
    /// the data/OTP zone were seen locked.
    pub fn device_locked(&self) -> (r: bool)
        ensures
            r == (self@.config_locked && self@.data_locked),
    {
        self.config_lock && self.data_lock
    }

    /// The serial number parsed from the configuration zone.
    pub fn serial_number(&self) -> (r: &Vec<u8>)
        ensures
            r@ == self@.serial,
    {
        &self.serial
    }

    /// The revision bytes parsed from the configuration zone.
    pub fn revision_bytes(&self) -> (r: &Vec<u8>)
        ensures
            r@ == self@.revision,
    {
        &self.revision
    }

    /// The two slot-lock bytes read from the configuration zone.
    pub fn slot_lock_bytes(&self) -> (r: &Vec<u8>)
        ensures
            r@ == self@.slot_locks,
    {
        &self.slot_locks
    }

    /// The stored public key, or a busy error while the all-zero sentinel
    /// says that no key-pair generation has completed yet. Poll-only: there
    /// is no completion notification.
    pub fn get_public_key(&self, _slot: u16) -> (r: Result<&Vec<u8>, ErrorCode>)
        ensures
            r is Ok <==> !all_zero_spec(self@.public_key),
            r matches Ok(k) ==> k@ == self@.public_key,
            r is Err ==> (r matches Err(e) && e == ErrorCode::Busy),
    {
        if all_zero(&self.public_key) {
            Err(ErrorCode::Busy)
        } else {
            Ok(&self.public_key)
        }
    }

    /// Cancel an in-flight entropy fetch. Always succeeds and does nothing:
    /// the bus has no abort primitive for a command already issued.
    pub fn cancel(&self) -> (r: Result<(), ErrorCode>)
        ensures
            r is Ok,
    {
        Ok(())
    }

    /// Take the working buffer for one outstanding transfer.
    fn take_buffer(&mut self) -> (b: Vec<u8>)
        requires
            old(self).wf(),
            old(self)@.holds_buffer,
        ensures
            final(self).wf(),
            b@.len() == BUFFER_LEN,
            final(self)@ == (DriverView { holds_buffer: false, ..old(self)@ }),
    {
        match self.buffer.take() {
            Some(b) => b,
            None => vstd::pervasive::unreached(),
        }
    }

    /// Start the configuration-zone read chain: read the 32-byte block at
    /// address 0, then the block holding the lock bytes; serial number,
    /// revision, lock flags and slot-lock bytes are recorded along the way.
    pub fn read_config_zone(&mut self) -> (r: Result<Request, ErrorCode>)
        requires
            old(self).wf(),
            old(self)@.op is Ready,
            old(self)@.holds_buffer,
        ensures
            final(self).wf(),
            final(self)@ == (DriverView {
                op: Operation::ReadConfigZeroCommand,
                holds_buffer: false,
                ..old(self)@
            }),
            starts(r, Operation::ReadConfigZeroCommand),
            wakes(r, true),
    {
        self.op = Operation::ReadConfigZeroCommand;
        let buffer = self.take_buffer();
        match read_command(
            buffer,
            ZONE_CONFIG,
            CONFIG_BLOCK0_ADDR,
            CONFIG_READ_LEN,
            true,
        ) {
            Ok(req) => Ok(req),
            Err((e, b)) => {
                self.buffer = Some(b);
                Err(e)
            },
        }
    }

    /// Start the setup chain: one public call chains two 4-byte
    /// configuration writes, the slot-configuration words for slots 0 and 1
    /// and then the key-configuration words for slots 0 and 1. Works only on
    /// an unlocked device; abandonment at the retry ceiling is silent.
    pub fn setup_tock_config(&mut self) -> (r: Result<Request, ErrorCode>)
        requires
            old(self).wf(),
            old(self)@.op is Ready,
            old(self)@.holds_buffer,
        ensures
            final(self).wf(),
            final(self)@ == (DriverView {
                op: Operation::SetupConfigOne,
                holds_buffer: false,
                ..old(self)@
            }),
            starts(r, Operation::SetupConfigOne),
            wakes(r, true),
    {
        self.op = Operation::SetupConfigOne;
        let mut buffer = self.take_buffer();
        buffer[6] = 0x83;
        buffer[7] = 0x20;
        buffer[8] = 0x83;
        buffer[9] = 0x20;
        proof {
            assert(buffer@.subrange(6, 10) =~= seq![0x83u8, 0x20u8, 0x83u8, 0x20u8]);
        }
        match write_command(buffer, ZONE_CONFIG, SLOT_CONFIG_ADDR, 4, true) {
            Ok(req) => Ok(req),
            Err((e, b)) => {
                self.buffer = Some(b);
                Err(e)
            },
        }
    }

    /// Lock the configuration zone. Irreversible on real hardware; the
    /// chip's status byte comes back through [`Completion::LockDone`] and a
    /// failure is diagnostic only.
    pub fn lock_zone_config(&mut self) -> (r: Result<Request, ErrorCode>)
        requires
            old(self).wf(),
            old(self)@.op is Ready,
            old(self)@.holds_buffer,
        ensures
            final(self).wf(),
            final(self)@ == (DriverView {
                op: Operation::LockZoneConfig { run: 0 },
                holds_buffer: false,
                ..old(self)@
            }),
            starts(r, Operation::LockZoneConfig { run: 0 }),
            wakes(r, false),
    {
        self.op = Operation::LockZoneConfig { run: 0 };
        let buffer = self.take_buffer();
        Ok(
            send_command(
                buffer,
                OPCODE_LOCK,
                LOCK_MODE_ZONE_CONFIG,
                0x0000,
                0,
                false,
            ),
        )
    }

    /// Lock the data and OTP zones. Irreversible on real hardware; the
    /// chip's status byte comes back through [`Completion::LockDone`].
    pub fn lock_data_and_otp(&mut self) -> (r: Result<Request, ErrorCode>)
        requires
            old(self).wf(),
            old(self)@.op is Ready,
            old(self)@.holds_buffer,
        ensures
            final(self).wf(),
            final(self)@ == (DriverView {
                op: Operation::LockDataOtp { run: 0 },
                holds_buffer: false,
                ..old(self)@
            }),
            starts(r, Operation::LockDataOtp { run: 0 }),
            wakes(r, true),
    {
        self.op = Operation::LockDataOtp { run: 0 };
        let buffer = self.take_buffer();
        Ok(
            send_command(
                buffer,
                OPCODE_LOCK,
                LOCK_MODE_ZONE_DATA_AND_OTP,
                0x0000,
                0,
                true,
            ),
        )
    }

    /// Lock slot 0. Irreversible on real hardware; the chip's status byte
    /// comes back through [`Completion::LockDone`].
    pub fn lock_slot0(&mut self) -> (r: Result<Request, ErrorCode>)
        requires
            old(self).wf(),
            old(self)@.op is Ready,
            old(self)@.holds_buffer,
        ensures
            final(self).wf(),
            final(self)@ == (DriverView {
                op: Operation::LockSlot0 { run: 0 },
                holds_buffer: false,
                ..old(self)@
            }),
            starts(r, Operation::LockSlot0 { run: 0 }),
            wakes(r, true),
    {
        self.op = Operation::LockSlot0 { run: 0 };
        let buffer = self.take_buffer();
        Ok(send_command(buffer, OPCODE_LOCK, LOCK_MODE_SLOT0, 0x0000, 0, true))
    }

    /// Start key-pair generation in `slot`: the chip creates a new private
    /// key and answers with the 64-byte public key, which is stored for
    /// [`Self::get_public_key`] to poll.
    pub fn create_key_pair(&mut self, slot: u16) -> (r: Result<Request, ErrorCode>)
        requires
            old(self).wf(),
            old(self)@.op is Ready,
            old(self)@.holds_buffer,
        ensures
            final(self).wf(),
            final(self)@ == (DriverView {
                op: Operation::CreateKeyPair { run: 0, slot },
                holds_buffer: false,
                ..old(self)@
            }),
            starts(r, Operation::CreateKeyPair { run: 0, slot }),
            wakes(r, true),
    {
        self.op = Operation::CreateKeyPair { run: 0, slot };
        let buffer = self.take_buffer();
        Ok(
            send_command(
                buffer,
                OPCODE_GENKEY,
                GENKEY_MODE_NEW_PRIVATE,
                slot,
                0,
                true,
            ),
        )
    }

    /// Start an entropy fetch: issue a Random command. The refreshed pool is
    /// announced through [`Completion::EntropyReady`]; abandonment at the
    /// retry ceiling is an explicit [`Completion::EntropyFailed`].
    pub fn get(&mut self) -> (r: Result<Request, ErrorCode>)
        requires
            old(self).wf(),
            old(self)@.op is Ready,
            old(self)@.holds_buffer,
        ensures
            final(self).wf(),
            final(self)@ == (DriverView {
                op: Operation::GenerateEntropyCommand { run: 0 },
                holds_buffer: false,
                ..old(self)@
            }),
            starts(r, Operation::GenerateEntropyCommand { run: 0 }),
            wakes(r, true),
    {
        self.op = Operation::GenerateEntropyCommand { run: 0 };
        let buffer = self.take_buffer();
        Ok(send_command(buffer, OPCODE_RANDOM, 0x00, 0x0000, 0, true))
    }

    /// Pull the next 32-bit entropy word: decode four pool bytes big-endian
    /// at the current offset and advance the offset by one word, wrapping
    /// after the eighth.
    pub fn next_word(&mut self) -> (w: u32)
        requires
            old(self).wf(),
        ensures
            final(self).wf(),
            w == word_at(old(self)@.pool, old(self)@.pool_offset),
            final(self)@ == (DriverView {
                pool_offset: next_offset(old(self)@.pool_offset),
                ..old(self)@
            }),
    {
        let off = self.entropy_offset;
        let b0 = self.entropy_pool[off];
        let b1 = self.entropy_pool[off + 1];
        let b2 = self.entropy_pool[off + 2];
        let b3 = self.entropy_pool[off + 3];
        let word = ((b0 as u32) << 24) | ((b1 as u32) << 16) | ((b2 as u32) << 8) | (b3 as u32);
        if off >= 28 {
            self.entropy_offset = 0;
        } else {
            self.entropy_offset = off + 4;
        }
        word
    }
}

/// Index of the data/OTP lock byte inside the second block response
/// (offset 86 of the full configuration zone).
pub const OTP_LOCK_INDEX: usize = 23;

/// Index of the configuration-zone lock byte inside the second block
/// response (offset 87 of the full configuration zone).
pub const CONFIG_LOCK_INDEX: usize = 24;

/// Index of the first slot-lock byte inside the second block response
/// (offsets 88-89 of the full configuration zone).
pub const SLOT_LOCK_INDEX: usize = 25;

/// Index of the chip's status byte inside a lock response.
pub const RESPONSE_SIGNAL_INDEX: usize = 1;

impl Atecc508a {
    /// Route one transport completion to the phase that waits on it.
    ///
    /// This is the single completion entry point: the caller hands back the
    /// working buffer it borrowed inside the last [`Request`] together with
    /// the transfer's status, and the machine retries, abandons or advances
    /// exactly as [`step_op`] says. A transfer that ends the exchange
    /// reclaims the buffer and returns the machine to idle on every path.
    #[verifier::rlimit(100)]
    pub fn command_complete(&mut self, buffer: Vec<u8>, status: TransportStatus) -> (c: Completion)
        requires
            old(self).wf(),
            !(old(self)@.op is Ready),
            !old(self)@.holds_buffer,
            buffer@.len() == BUFFER_LEN,
            (old(self)@.op is ReadConfigZeroResult || old(self)@.op is ReadConfigTwoResult)
                ==> !(status is Fault),
        ensures
            final(self).wf(),
            final(self)@.op == step_op(old(self)@.op, status),
            final(self)@.holds_buffer == (step_op(old(self)@.op, status) is Ready),
            !(step_op(old(self)@.op, status) is Ready) ==> continues(
                c,
                step_op(old(self)@.op, status),
            ),
            no_wake(c),
            (checks_nak(old(self)@.op) && is_nak(status)) ==> same_records(
                old(self)@,
                final(self)@,
            ),
            (checks_nak(old(self)@.op) && is_nak(status) && run_of(old(self)@.op) >= retry_ceiling(
                old(self)@.op,
            )) ==> c == (if is_entropy_phase(old(self)@.op) {
                Completion::EntropyFailed(ErrorCode::NoAck)
            } else {
                Completion::Idle
            }),
            !(checks_nak(old(self)@.op) && is_nak(status)) ==> ({
                let pre = old(self)@;
                let post = final(self)@;
                &&& (pre.op is ReadConfigZeroCommand || pre.op is ReadConfigTwoCommand
                    || pre.op is GenerateEntropyCommand || pre.op is SetupConfigOne
                    || pre.op is SetupConfigTwo || pre.op is LockZoneConfig
                    || pre.op is LockDataOtp || pre.op is LockSlot0
                    || pre.op is CreateKeyPair || pre.op is LockResponse) ==> same_records(
                    pre,
                    post,
                )
                &&& pre.op is ReadConfigZeroResult ==> {
                    &&& post.serial == serial_of(buffer@)
                    &&& post.revision == buffer@.subrange(4, 7)
                    &&& post.pool == pre.pool
                    &&& post.pool_offset == pre.pool_offset
                    &&& post.public_key == pre.public_key
                    &&& same_locks(pre, post)
                }
                &&& pre.op is ReadConfigTwoResult ==> {
                    &&& post.data_locked == (pre.data_locked || buffer@[OTP_LOCK_INDEX as int]
                        == 0)
                    &&& post.config_locked == (pre.config_locked || buffer@[
                        CONFIG_LOCK_INDEX as int
                    ] == 0)
                    &&& post.slot_locks == buffer@.subrange(
                        SLOT_LOCK_INDEX as int,
                        SLOT_LOCK_INDEX + 2 as int,
                    )
                    &&& post.pool == pre.pool
                    &&& post.pool_offset == pre.pool_offset
                    &&& post.public_key == pre.public_key
                    &&& same_identity(pre, post)
                    &&& c == (Completion::ConfigZoneRead {
                        otp: parse_lock_spec(buffer@[OTP_LOCK_INDEX as int]),
                        config: parse_lock_spec(buffer@[CONFIG_LOCK_INDEX as int]),
                    })
                }
                &&& pre.op is GenerateEntropyResult ==> {
                    &&& post.pool == buffer@.subrange(1, 33)
                    &&& post.pool_offset == pre.pool_offset
                    &&& post.public_key == pre.public_key
                    &&& same_locks(pre, post)
                    &&& same_identity(pre, post)
                    &&& c == Completion::EntropyReady
                }
                &&& pre.op is ReadKeyPair ==> {
                    &&& post.public_key == buffer@.subrange(1, 65)
                    &&& post.pool == pre.pool
                    &&& post.pool_offset == pre.pool_offset
                    &&& same_locks(pre, post)
                    &&& same_identity(pre, post)
                    &&& c == Completion::Idle
                }
                &&& pre.op is LockResponse ==> c == (Completion::LockDone {
                    ok: buffer@[RESPONSE_SIGNAL_INDEX as int] == 0,
                })
                &&& pre.op is SetupConfigTwo ==> c == Completion::Idle
            }),
    {
        let nak = match status {
            TransportStatus::AddressNak | TransportStatus::DataNak => true,
            _ => false,
        };
        proof {
            assert(nak == is_nak(status));
        }
        match self.op {
            Operation::Ready => vstd::pervasive::unreached(),
            Operation::ReadConfigZeroCommand => {
                self.op = Operation::ReadConfigZeroResult { run: 0 };
                Completion::Next(Request::Read { buffer, len: CONFIG_RESPONSE_LEN })
            },
            Operation::ReadConfigZeroResult { run } => {
                if nak {
                    if run >= SHORT_RETRIES {
                        self.op = Operation::Ready;
                        self.buffer = Some(buffer);
                        Completion::Idle
                    } else {
                        self.op = Operation::ReadConfigZeroResult { run: run + 1 };
                        Completion::Next(Request::Read { buffer, len: CONFIG_RESPONSE_LEN })
                    }
                } else {
                    self.serial = parse_serial(&buffer);
                    self.revision = parse_revision(&buffer);
                    self.op = Operation::ReadConfigTwoCommand;
                    let req = match read_command(
                        buffer,
                        ZONE_CONFIG,
                        CONFIG_BLOCK2_ADDR,
                        CONFIG_READ_LEN,
                        false,
                    ) {
                        Ok(req) => req,
                        Err(_) => vstd::pervasive::unreached(),
                    };
                    Completion::Next(req)
                }
            },
            Operation::ReadConfigTwoCommand => {
                self.op = Operation::ReadConfigTwoResult { run: 0 };
                Completion::Next(Request::Read { buffer, len: CONFIG_RESPONSE_LEN })
            },
            Operation::ReadConfigTwoResult { run } => {
                if nak {
                    if run >= SHORT_RETRIES {
                        self.op = Operation::Ready;
                        self.buffer = Some(buffer);
                        Completion::Idle
                    } else {
                        self.op = Operation::ReadConfigTwoResult { run: run + 1 };
                        Completion::Next(Request::Read { buffer, len: CONFIG_RESPONSE_LEN })
                    }
                } else {
                    let otp_byte = buffer[OTP_LOCK_INDEX];
                    let config_byte = buffer[CONFIG_LOCK_INDEX];
                    let otp = parse_lock_byte(otp_byte);
                    let config = parse_lock_byte(config_byte);
                    if otp_byte == 0x00 {
                        self.data_lock = true;
                    }
                    if config_byte == 0x00 {
                        self.config_lock = true;
                    }
                    self.slot_locks = copy_range(&buffer, SLOT_LOCK_INDEX, 2);
                    self.op = Operation::Ready;
                    self.buffer = Some(buffer);
                    Completion::ConfigZoneRead { otp, config }
                }
            },
            Operation::GenerateEntropyCommand { run } => {
                if nak {
                    if run >= SHORT_RETRIES {
                        self.op = Operation::Ready;
                        self.buffer = Some(buffer);
                        Completion::EntropyFailed(ErrorCode::NoAck)
                    } else {
                        self.op = Operation::GenerateEntropyCommand { run: run + 1 };
                        Completion::Next(
                            send_command(
                                buffer,
                                OPCODE_RANDOM,
                                0x00,
                                0x0000,
                                0,
                                false,
                            ),
                        )
                    }
                } else {
                    self.op = Operation::GenerateEntropyResult { run: 0 };
                    Completion::Next(Request::Read { buffer, len: RANDOM_RESPONSE_LEN })
                }
            },
            Operation::GenerateEntropyResult { run } => {
                if nak {
                    if run >= RANDOM_RESPONSE_RETRIES {
                        self.op = Operation::Ready;
                        self.buffer = Some(buffer);
                        Completion::EntropyFailed(ErrorCode::NoAck)
                    } else {
                        self.op = Operation::GenerateEntropyResult { run: run + 1 };
                        Completion::Next(Request::Read { buffer, len: RANDOM_RESPONSE_LEN })
                    }
                } else {
                    self.entropy_pool = copy_range(&buffer, 1, ENTROPY_POOL_LEN);
                    self.op = Operation::Ready;
                    self.buffer = Some(buffer);
                    Completion::EntropyReady
                }
            },
            Operation::SetupConfigOne => {
                let mut staged = buffer;
                staged[6] = 0x33;
                staged[7] = 0x00;
                staged[8] = 0x33;
                staged[9] = 0x00;
                proof {
                    assert(staged@.subrange(6, 10) =~= seq![0x33u8, 0x00u8, 0x33u8, 0x00u8]);
                }
                self.op = Operation::SetupConfigTwo { run: 0 };
                let req = match write_command(
                    staged,
                    ZONE_CONFIG,
                    KEY_CONFIG_ADDR,
                    4,
                    false,
                ) {
                    Ok(req) => req,
                    Err(_) => vstd::pervasive::unreached(),
                };
                Completion::Next(req)
            },
            Operation::SetupConfigTwo { run } => {
                if nak {
                    if run >= SHORT_RETRIES {
                        self.op = Operation::Ready;
                        self.buffer = Some(buffer);
                        Completion::Idle
                    } else {
                        self.op = Operation::SetupConfigTwo { run: run + 1 };
                        let mut staged = buffer;
                        staged[6] = 0x33;
                        staged[7] = 0x00;
                        staged[8] = 0x33;
                        staged[9] = 0x00;
                        proof {
                            assert(staged@.subrange(6, 10) =~= seq![
                                0x33u8,
                                0x00u8,
                                0x33u8,
                                0x00u8,
                            ]);
                        }
                        let req = match write_command(
                            staged,
                            ZONE_CONFIG,
                            KEY_CONFIG_ADDR,
                            4,
                            false,
                        ) {
                            Ok(req) => req,
                            Err(_) => vstd::pervasive::unreached(),
                        };
                        Completion::Next(req)
                    }
                } else {
                    self.op = Operation::Ready;
                    self.buffer = Some(buffer);
                    Completion::Idle
                }
            },
            Operation::LockZoneConfig { run } => {
                if nak {
                    if run >= LOCK_COMMAND_RETRIES {
                        self.op = Operation::Ready;
                        self.buffer = Some(buffer);
                        Completion::Idle
                    } else {
                        self.op = Operation::LockZoneConfig { run: run + 1 };
                        Completion::Next(
                            send_command(
                                buffer,
                                OPCODE_LOCK,
                                LOCK_MODE_ZONE_CONFIG,
                                0x0000,
                                0,
                                false,
                            ),
                        )
                    }
                } else {
                    self.op = Operation::LockResponse { run: 0 };
                    Completion::Next(Request::Read { buffer, len: LOCK_RESPONSE_LEN })
                }
            },
            Operation::LockResponse { run } => {
                if nak {
                    if run >= LOCK_RETRIES {
                        self.op = Operation::Ready;
                        self.buffer = Some(buffer);
                        Completion::Idle
                    } else {
                        self.op = Operation::LockResponse { run: run + 1 };
                        Completion::Next(Request::Read { buffer, len: LOCK_RESPONSE_LEN })
                    }
                } else {
                    let ok = buffer[RESPONSE_SIGNAL_INDEX] == 0x00;
                    self.op = Operation::Ready;
                    self.buffer = Some(buffer);
                    Completion::LockDone { ok }
                }
            },
            Operation::CreateKeyPair { run, slot } => {
                if nak {
                    if run >= SHORT_RETRIES {
                        self.op = Operation::Ready;
                        self.buffer = Some(buffer);
                        Completion::Idle
                    } else {
                        self.op = Operation::CreateKeyPair { run: run + 1, slot };
                        Completion::Next(
                            send_command(
                                buffer,
                                OPCODE_GENKEY,
                                GENKEY_MODE_NEW_PRIVATE,
                                slot,
                                0,
                                false,
                            ),
                        )
                    }
                } else {
                    self.op = Operation::ReadKeyPair { run: 0 };
                    Completion::Next(Request::Read { buffer, len: GENKEY_RESPONSE_LEN })
                }
            },
            Operation::ReadKeyPair { run } => {
                if nak {
                    if run >= GENKEY_RESPONSE_RETRIES {
                        self.op = Operation::Ready;
                        self.buffer = Some(buffer);
                        Completion::Idle
                    } else {
                        self.op = Operation::ReadKeyPair { run: run + 1 };
                        Completion::Next(Request::Read { buffer, len: GENKEY_RESPONSE_LEN })
                    }
                } else {
                    self.public_key = copy_range(&buffer, 1, PUBLIC_KEY_LEN);
                    self.op = Operation::Ready;
                    self.buffer = Some(buffer);
                    Completion::Idle
                }
            },
            Operation::LockDataOtp { run } => {
                if nak {
                    if run >= LOCK_RETRIES {
                        self.op = Operation::Ready;
                        self.buffer = Some(buffer);
                        Completion::Idle
                    } else {
                        self.op = Operation::LockDataOtp { run: run + 1 };
                        Completion::Next(
                            send_command(
                                buffer,
                                OPCODE_LOCK,
                                LOCK_MODE_ZONE_DATA_AND_OTP,
                                0x0000,
                                0,
                                false,
                            ),
                        )
                    }
                } else {
                    self.op = Operation::LockResponse { run: 0 };
                    Completion::Next(Request::Read { buffer, len: LOCK_RESPONSE_LEN })
                }
            },
            Operation::LockSlot0 { run } => {
                if nak {
                    if run >= LOCK_RETRIES {
                        self.op = Operation::Ready;
                        self.buffer = Some(buffer);
                        Completion::Idle
                    } else {
                        self.op = Operation::LockSlot0 { run: run + 1 };
                        Completion::Next(
                            send_command(
                                buffer,
                                OPCODE_LOCK,
                                LOCK_MODE_SLOT0,
                                0x0000,
                                0,
                                false,
                            ),
                        )
                    }
                } else {
                    self.op = Operation::LockResponse { run: 0 };
                    Completion::Next(Request::Read { buffer, len: LOCK_RESPONSE_LEN })
                }
            },
        }
    }
}

/// The serial-number record as parsed from the first block response:
/// response bytes 0-2 and 8-11, zero-padded.
fn parse_serial(resp: &Vec<u8>) -> (s: Vec<u8>)
    requires
        resp@.len() == BUFFER_LEN,
    ensures
        s@ == serial_of(resp@),
{
    let mut s: Vec<u8> = Vec::new();
    s.push(resp[0]);
    s.push(resp[1]);
    s.push(resp[2]);
    s.push(0);
    s.push(resp[8]);
    s.push(resp[9]);
    s.push(resp[10]);
    s.push(resp[11]);
    s.push(0);
    proof {
        assert(s@ =~= serial_of(resp@));
    }
    s
}

/// The revision record as parsed from the first block response: bytes 4-6.
fn parse_revision(resp: &Vec<u8>) -> (v: Vec<u8>)
    requires
        resp@.len() == BUFFER_LEN,
    ensures
        v@ == resp@.subrange(4, 7),
{
    let mut v: Vec<u8> = Vec::new();
    v.push(resp[4]);
    v.push(resp[5]);
    v.push(resp[6]);
    proof {
        assert(v@ =~= resp@.subrange(4, 7));
    }
    v
}

/// A copy of `count` bytes of `resp` starting at `start`.
fn copy_range(resp: &Vec<u8>, start: usize, count: usize) -> (v: Vec<u8>)
    requires
        start + count <= resp@.len(),
    ensures
        v@ == resp@.subrange(start as int, start + count as int),
        v@.len() == count,
{
    let mut v: Vec<u8> = Vec::new();
    let total = resp.len();
    let mut i: usize = 0;
    while i < count
        invariant
            i <= count,
            start + count <= total,
            total == resp@.len(),
            v@.len() == i,
            forall|j: int| 0 <= j < i ==> v@[j] == resp@[start + j],
        decreases count - i,
    {
        v.push(resp[start + i]);
        i = i + 1;
    }
    proof {
        assert(v@ =~= resp@.subrange(start as int, start + count as int));
    }
    v
}

/// A vector of `n` zero bytes.
fn zero_vec(n: usize) -> (v: Vec<u8>)
    ensures
        v@.len() == n,
        all_zero_spec(v@),
{
    let mut v: Vec<u8> = Vec::new();
    let mut i: usize = 0;
    while i < n
        invariant
            i <= n,
            v@.len() == i,
            forall|j: int| 0 <= j < i ==> v@[j] == 0,
        decreases n - i,
    {
        v.push(0);
        i = i + 1;
    }
    v
}

/// Whether every byte of the vector is zero.
fn all_zero(v: &Vec<u8>) -> (r: bool)
    ensures
        r == all_zero_spec(v@),
{
    let mut i: usize = 0;
    while i < v.len()
        invariant
            i <= v@.len(),
            forall|j: int| 0 <= j < i ==> v@[j] == 0,
        decreases v@.len() - i,
    {
        if v[i] != 0 {
            return false;
        }
        i = i + 1;
    }
    true
}

} // verus!
