//! The command framer.
//!
//! A command frame on the wire is: word-address marker, length byte, opcode,
//! param1, param2 (two bytes little-endian), optional payload, CRC-16 (two
//! bytes little-endian). The length byte counts every byte but the leading
//! word-address marker; the CRC covers exactly the bytes from the length byte
//! through the end of the payload.

use vstd::prelude::*;

use crate::crc::{crc16_range, spec_crc16};
use crate::types::ErrorCode;

verus! {

/// Word-address byte that announces a command frame.
pub const WORD_ADDRESS_COMMAND: u8 = 0x03;

/// Fixed per-frame overhead: marker, length, opcode, param1, param2 (2), CRC (2).
pub const FRAME_OVERHEAD: usize = 8;

/// Size of the working buffer frames are assembled in.
pub const BUFFER_LEN: usize = 128;

/// Offset of the payload inside an assembled frame.
pub const PAYLOAD_OFFSET: usize = 6;

/// Low byte of a little-endian 16-bit value.
pub open spec fn le_lo(x: u16) -> u8 {
    (x & 0xff) as u8
}

/// High byte of a little-endian 16-bit value.
pub open spec fn le_hi(x: u16) -> u8 {
    ((x >> 8) & 0xff) as u8
}

/// The span the CRC is computed over: length byte, opcode, params, payload.
pub open spec fn frame_body_spec(opcode: u8, param1: u8, param2: u16, payload: Seq<u8>) -> Seq<u8> {
    seq![(payload.len() + 7) as u8, opcode, param1, le_lo(param2), le_hi(param2)] + payload
}

/// A whole command frame as it goes onto the wire.
pub open spec fn frame_spec(opcode: u8, param1: u8, param2: u16, payload: Seq<u8>) -> Seq<u8> {
    let body = frame_body_spec(opcode, param1, param2, payload);
    let crc = spec_crc16(body);
    seq![WORD_ADDRESS_COMMAND] + body + seq![le_lo(crc), le_hi(crc)]
}

/// Law: in every assembled frame the length byte equals the total frame
/// length minus one (it excludes only the word-address marker), and the
/// trailing CRC field is the CRC-16 of exactly the bytes from the length
/// byte through the end of the payload.
pub proof fn lemma_frame_well_formed(opcode: u8, param1: u8, param2: u16, payload: Seq<u8>)
    requires
        payload.len() <= BUFFER_LEN - FRAME_OVERHEAD,
    ensures
        frame_spec(opcode, param1, param2, payload).len() == payload.len() + 8,
        frame_spec(opcode, param1, param2, payload)[1] == (payload.len() + 7) as u8,
        frame_spec(opcode, param1, param2, payload)[0] == WORD_ADDRESS_COMMAND,
        ({
            let f = frame_spec(opcode, param1, param2, payload);
            let crc = spec_crc16(f.subrange(1, f.len() - 2));
            f[f.len() - 2] == le_lo(crc) && f[f.len() - 1] == le_hi(crc)
        }),
{
    let body = frame_body_spec(opcode, param1, param2, payload);
    let f = frame_spec(opcode, param1, param2, payload);
    assert(f.subrange(1, f.len() - 2) =~= body);
}

/// Mark bit 7 of the zone byte for 32-byte transfers, clear it for 4-byte
/// ones; any other length is a size error and no transfer may be issued.
pub fn zone_for_length(zone: u8, length: usize) -> (r: Result<u8, ErrorCode>)
    ensures
        length == 32 ==> r == Ok::<u8, ErrorCode>(zone | 0x80),
        length == 4 ==> r == Ok::<u8, ErrorCode>(zone & 0x7f),
        length != 4 && length != 32 ==> r == Err::<u8, ErrorCode>(ErrorCode::Size),
{
    if length == 32 {
        Ok(zone | 0x80)
    } else if length == 4 {
        Ok(zone & 0x7f)
    } else {
        Err(ErrorCode::Size)
    }
}

/// Assemble a frame in place over the payload already staged at
/// [`PAYLOAD_OFFSET`], and return the total frame length. Bytes past the
/// frame are left as they were.
pub fn build_frame(
    buffer: &mut Vec<u8>,
    opcode: u8,
    param1: u8,
    param2: u16,
    payload_len: usize,
) -> (total: usize)
    requires
        old(buffer)@.len() == BUFFER_LEN,
        payload_len <= BUFFER_LEN - FRAME_OVERHEAD,
    ensures
        final(buffer)@.len() == BUFFER_LEN,
        total == payload_len + FRAME_OVERHEAD,
        final(buffer)@.subrange(0, total as int) == frame_spec(
            opcode,
            param1,
            param2,
            old(buffer)@.subrange(6, 6 + payload_len as int),
        ),
        final(buffer)@.subrange(total as int, BUFFER_LEN as int) == old(buffer)@.subrange(
            total as int,
            BUFFER_LEN as int,
        ),
{
    let ghost payload = old(buffer)@.subrange(6, 6 + payload_len as int);
    let total = payload_len + FRAME_OVERHEAD;
    buffer[0] = WORD_ADDRESS_COMMAND;
    buffer[1] = (total - 1) as u8;
    buffer[2] = opcode;
    buffer[3] = param1;
    buffer[4] = (param2 & 0xff) as u8;
    buffer[5] = ((param2 >> 8) & 0xff) as u8;
    proof {
        assert(buffer@.subrange(1, 6 + payload_len as int) =~= frame_body_spec(
            opcode,
            param1,
            param2,
            payload,
        ));
    }
    let crc = crc16_range(buffer, 1, payload_len + 6);
    buffer[total - 2] = (crc & 0xff) as u8;
    buffer[total - 1] = ((crc >> 8) & 0xff) as u8;
    proof {
        assert(buffer@.subrange(1, 6 + payload_len as int) =~= frame_body_spec(
            opcode,
            param1,
            param2,
            payload,
        ));
        assert(buffer@.subrange(0, total as int) =~= frame_spec(opcode, param1, param2, payload));
        assert(buffer@.subrange(total as int, BUFFER_LEN as int) =~= old(buffer)@.subrange(
            total as int,
            BUFFER_LEN as int,
        ));
    }
    total
}

} // verus!
