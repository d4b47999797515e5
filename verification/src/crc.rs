//! Bit-serial CRC-16 with polynomial 0x8005, as the chip's datasheet gives it.
//!
//! The register starts at 0. Each byte is folded in least-significant bit
//! first: the register's top bit is compared with the data bit, the register
//! shifts left by one, and on a mismatch it is XORed with the polynomial.
//! The chip validates this checksum on every command and silently rejects a
//! frame whose checksum does not match.

use vstd::prelude::*;

verus! {

/// The CRC polynomial the chip uses.
pub const CRC_POLYNOMIAL: u16 = 0x8005;

/// Bit `k` (least-significant bit first) of `byte`, as 0 or 1.
pub open spec fn spec_data_bit(byte: u8, k: u8) -> u16 {
    if (byte >> k) & 1 == 1 {
        1u16
    } else {
        0u16
    }
}

/// One step of the bit-serial CRC: fold one data bit into the register.
pub open spec fn spec_crc16_bit(crc: u16, data_bit: u16) -> u16 {
    let crc_bit = crc >> 15;
    if data_bit != crc_bit {
        (crc << 1) ^ CRC_POLYNOMIAL
    } else {
        crc << 1
    }
}

/// The register after folding in the `nbits` lowest bits of `byte`,
/// least-significant bit first.
pub open spec fn spec_crc16_bits(crc: u16, byte: u8, nbits: nat) -> u16
    decreases nbits,
{
    if nbits == 0 {
        crc
    } else {
        spec_crc16_bit(
            spec_crc16_bits(crc, byte, (nbits - 1) as nat),
            spec_data_bit(byte, (nbits - 1) as u8),
        )
    }
}

/// The CRC-16 of a byte sequence: every byte folded in, in order, starting
/// from a zero register.
pub open spec fn spec_crc16(data: Seq<u8>) -> u16
    decreases data.len(),
{
    if data.len() == 0 {
        0
    } else {
        spec_crc16_bits(spec_crc16(data.drop_last()), data.last(), 8)
    }
}

/// The CRC of nothing is the initial register value, zero.
pub proof fn lemma_crc16_empty()
    ensures
        spec_crc16(Seq::<u8>::empty()) == 0,
{
}

/// Fold one byte into the CRC register, least-significant bit first.
fn crc16_byte(crc: u16, byte: u8) -> (r: u16)
    ensures
        r == spec_crc16_bits(crc, byte, 8),
{
    let mut register = crc;
    let mut k: u8 = 0;
    while k < 8
        invariant
            k <= 8,
            register == spec_crc16_bits(crc, byte, k as nat),
        decreases 8 - k,
    {
        let data_bit: u16 = if (byte >> k) & 1 == 1 {
            1
        } else {
            0
        };
        let crc_bit = register >> 15;
        register = if data_bit != crc_bit {
            (register << 1) ^ CRC_POLYNOMIAL
        } else {
            register << 1
        };
        k = k + 1;
    }
    register
}

/// CRC-16 of `data[start..end]`.
pub fn crc16_range(data: &Vec<u8>, start: usize, end: usize) -> (r: u16)
    requires
        start <= end <= data@.len(),
    ensures
        r == spec_crc16(data@.subrange(start as int, end as int)),
{
    let mut register: u16 = 0;
    let mut i: usize = start;
    while i < end
        invariant
            start <= i <= end <= data@.len(),
            register == spec_crc16(data@.subrange(start as int, i as int)),
        decreases end - i,
    {
        register = crc16_byte(register, data[i]);
        proof {
            let prefix = data@.subrange(start as int, i as int);
            let next = data@.subrange(start as int, i + 1 as int);
            assert(next.drop_last() =~= prefix);
            assert(next.last() == data@[i as int]);
        }
        i = i + 1;
    }
    register
}

/// CRC-16 of a whole byte vector.
pub fn crc16(data: &Vec<u8>) -> (r: u16)
    ensures
        r == spec_crc16(data@),
{
    let r = crc16_range(data, 0, data.len());
    proof {
        assert(data@.subrange(0, data@.len() as int) =~= data@);
    }
    r
}

} // verus!
