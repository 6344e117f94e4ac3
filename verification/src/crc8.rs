//! Seeded CRC8 used as the mid-buffer integrity check of a command header.
//!
//! The checksum runs over all bytes emitted so far and is written at the
//! marker offset of a command template, before the rest of the payload is
//! appended.  One byte step is eight shift steps of the reflected
//! polynomial 0x8C applied to the state XORed with the byte, which matches
//! the table-driven form `crc = table[crc ^ byte]` with the table generated
//! from the same polynomial.

use vstd::prelude::*;

verus! {

/// Initial value for every CRC8 computation of the protocol.
pub const CRC8_INIT: u8 = 0x77;

/// One shift step of the reflected CRC8 polynomial.
pub open spec fn crc8_shift(c: u8) -> u8 {
    if c & 1 == 1 {
        (c >> 1) ^ 0x8C
    } else {
        c >> 1
    }
}

/// Feeding one byte into the running checksum: eight shift steps on the
/// state XORed with the byte.
pub open spec fn crc8_update(crc: u8, byte: u8) -> u8 {
    crc8_shift(crc8_shift(crc8_shift(crc8_shift(crc8_shift(crc8_shift(crc8_shift(crc8_shift(
        crc ^ byte,
    ))))))))
}

/// The checksum of a byte sequence, folded left to right from the seed.
pub open spec fn crc8_of(data: Seq<u8>) -> u8
    decreases data.len(),
{
    if data.len() == 0 {
        CRC8_INIT
    } else {
        crc8_update(crc8_of(data.drop_last()), data.last())
    }
}

/// One shift step, executable form.
fn crc8_shift_once(c: u8) -> (r: u8)
    ensures
        r == crc8_shift(c),
{
    if c & 1 == 1 {
        (c >> 1) ^ 0x8C
    } else {
        c >> 1
    }
}

/// Feed one byte into the running checksum.
fn crc8_update_once(crc: u8, byte: u8) -> (r: u8)
    ensures
        r == crc8_update(crc, byte),
{
    let mut c: u8 = crc ^ byte;
    c = crc8_shift_once(c);
    c = crc8_shift_once(c);
    c = crc8_shift_once(c);
    c = crc8_shift_once(c);
    c = crc8_shift_once(c);
    c = crc8_shift_once(c);
    c = crc8_shift_once(c);
    c = crc8_shift_once(c);
    c
}

/// Calculate the CRC8 checksum of `data`, starting from the fixed seed.
pub fn calculate_crc8(data: &Vec<u8>) -> (crc: u8)
    ensures
        crc == crc8_of(data@),
{
    let mut crc = CRC8_INIT;
    let mut i: usize = 0;
    while i < data.len()
        invariant
            0 <= i <= data@.len(),
            crc == crc8_of(data@.take(i as int)),
        decreases data@.len() - i,
    {
        crc = crc8_update_once(crc, data[i]);
        proof {
            assert(data@.take(i + 1).drop_last() =~= data@.take(i as int));
            assert(data@.take(i + 1).last() == data@[i as int]);
        }
        i = i + 1;
    }
    proof {
        assert(data@.take(data@.len() as int) =~= data@);
    }
    crc
}

/// Append the checksum of `data` to `data`.
pub fn append_crc8_checksum(data: &mut Vec<u8>)
    ensures
        final(data)@ == old(data)@ + seq![crc8_of(old(data)@)],
{
    let crc = calculate_crc8(data);
    data.push(crc);
    proof {
        assert(data@ =~= old(data)@ + seq![crc8_of(old(data)@)]);
    }
}

/// Check that the last byte of `data` is the checksum of everything before
/// it.  False for an empty buffer.
pub fn verify_crc8_checksum(data: &Vec<u8>) -> (valid: bool)
    ensures
        valid == (data@.len() >= 1 && data@.last() == crc8_of(data@.drop_last())),
{
    if data.len() < 1 {
        return false;
    }
    let payload_len = data.len() - 1;
    let mut crc = CRC8_INIT;
    let mut i: usize = 0;
    while i < payload_len
        invariant
            0 <= i <= payload_len < data@.len(),
            crc == crc8_of(data@.take(i as int)),
        decreases payload_len - i,
    {
        crc = crc8_update_once(crc, data[i]);
        proof {
            assert(data@.take(i + 1).drop_last() =~= data@.take(i as int));
            assert(data@.take(i + 1).last() == data@[i as int]);
        }
        i = i + 1;
    }
    proof {
        assert(data@.take(payload_len as int) =~= data@.drop_last());
    }
    data[payload_len] == crc
}

} // verus!
