//! Plain value types shared by the framer and the operation state machine:
//! driver error codes, bus transfer outcomes, and lock-byte parsing.

use vstd::prelude::*;

verus! {

/// Errors the driver reports to its callers.
#[derive(Clone, Copy, Debug, PartialEq, Eq, Structural)]
pub enum ErrorCode {
    /// A read or write was asked for with a length the chip does not support.
    Size,
    /// The public key is not available yet.
    Busy,
    /// The chip kept answering with negative acknowledgments until the
    /// phase's retry ceiling was reached.
    NoAck,
}

/// The outcome of one bus transfer, reported by the transport.
#[derive(Clone, Copy, Debug, PartialEq, Eq, Structural)]
pub enum TransportStatus {
    /// The transfer completed.
    Success,
    /// The chip did not acknowledge its address: it is busy or asleep.
    AddressNak,
    /// The chip rejected the data phase of the transfer.
    DataNak,
    /// Any other transport fault.
    Fault,
}

/// A negative acknowledgment: the chip is not ready yet and the transfer
/// should be retried.
pub open spec fn is_nak(status: TransportStatus) -> bool {
    status is AddressNak || status is DataNak
}

/// What a lock byte of the configuration zone says.
#[derive(Clone, Copy, Debug, PartialEq, Eq, Structural)]
pub enum LockParse {
    /// 0x55: the zone is not locked.
    Unlocked,
    /// 0x00: the zone is locked.
    Locked,
    /// Any other value: the configuration is invalid. Reported, non-fatal.
    Invalid,
}

/// 0x55 means unlocked, 0x00 means locked, anything else is invalid.
pub open spec fn parse_lock_spec(byte: u8) -> LockParse {
    if byte == 0x55 {
        LockParse::Unlocked
    } else if byte == 0x00 {
        LockParse::Locked
    } else {
        LockParse::Invalid
    }
}

/// Classify a lock byte read from the configuration zone.
pub fn parse_lock_byte(byte: u8) -> (r: LockParse)
    ensures
        r == parse_lock_spec(byte),
{
    if byte == 0x55 {
        LockParse::Unlocked
    } else if byte == 0x00 {
        LockParse::Locked
    } else {
        LockParse::Invalid
    }
}

} // verus!
