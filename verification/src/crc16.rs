//! Seeded CRC16 used as the trailing integrity check of every finished
//! command buffer.
//!
//! The checksum processes one byte at a time; one byte step is eight shift
//! steps of the reflected polynomial 0x8408 applied to the state XORed with
//! the byte, which is exactly the classic table-driven form
//! `crc = (crc >> 8) ^ table[(crc ^ byte) & 0xFF]` with the 256-entry table
//! generated from the same polynomial.  The trailer is appended least
//! significant byte first.

use vstd::prelude::*;

verus! {

/// Initial value for every CRC16 computation of the protocol.
pub const CRC16_INIT: u16 = 13970;

/// One shift step of the reflected CRC16 polynomial.
pub open spec fn crc16_shift(c: u16) -> u16 {
    if c & 1 == 1 {
        (c >> 1) ^ 0x8408
    } else {
        c >> 1
    }
}

/// Feeding one byte into the running checksum: eight shift steps on the
/// state XORed with the byte.
pub open spec fn crc16_update(crc: u16, byte: u8) -> u16 {
    crc16_shift(crc16_shift(crc16_shift(crc16_shift(crc16_shift(crc16_shift(crc16_shift(
        crc16_shift(crc ^ (byte as u16)),
    )))))))
}

/// The checksum of a byte sequence, folded left to right from `init`.
pub open spec fn crc16_of(data: Seq<u8>, init: u16) -> u16
    decreases data.len(),
{
    if data.len() == 0 {
        init
    } else {
        crc16_update(crc16_of(data.drop_last(), init), data.last())
    }
}

/// Low byte of the little-endian trailer.
pub open spec fn crc16_lo(c: u16) -> u8 {
    (c & 0xFF) as u8
}

/// High byte of the little-endian trailer.
pub open spec fn crc16_hi(c: u16) -> u8 {
    (c >> 8) as u8
}

/// `data` followed by the little-endian trailer of its own checksum.
pub open spec fn crc16_appended(data: Seq<u8>, init: u16) -> Seq<u8> {
    data + seq![crc16_lo(crc16_of(data, init)), crc16_hi(crc16_of(data, init))]
}

/// A buffer whose last two bytes are the little-endian checksum of
/// everything before them.  False for any buffer shorter than two bytes.
pub open spec fn crc16_valid(data: Seq<u8>, init: u16) -> bool {
    &&& data.len() >= 2
    &&& data[data.len() - 2] == crc16_lo(crc16_of(data.take(data.len() - 2), init))
    &&& data[data.len() - 1] == crc16_hi(crc16_of(data.take(data.len() - 2), init))
}

/// One shift step, executable form.
fn crc16_shift_once(c: u16) -> (r: u16)
    ensures
        r == crc16_shift(c),
{
    if c & 1 == 1 {
        (c >> 1) ^ 0x8408
    } else {
        c >> 1
    }
}

/// Feed one byte into the running checksum.
fn crc16_update_once(crc: u16, byte: u8) -> (r: u16)
    ensures
        r == crc16_update(crc, byte),
{
    let mut c: u16 = crc ^ (byte as u16);
    c = crc16_shift_once(c);
    c = crc16_shift_once(c);
    c = crc16_shift_once(c);
    c = crc16_shift_once(c);
    c = crc16_shift_once(c);
    c = crc16_shift_once(c);
    c = crc16_shift_once(c);
    c = crc16_shift_once(c);
    c
}

/// Checksum of the first `n` bytes of `data`.
fn crc16_over_prefix(data: &Vec<u8>, n: usize, init_value: u16) -> (crc: u16)
    requires
        n <= data@.len(),
    ensures
        crc == crc16_of(data@.take(n as int), init_value),
{
    let mut crc = init_value;
    let mut i: usize = 0;
    while i < n
        invariant
            0 <= i <= n <= data@.len(),
            crc == crc16_of(data@.take(i as int), init_value),
        decreases n - i,
    {
        crc = crc16_update_once(crc, data[i]);
        proof {
            assert(data@.take(i + 1).drop_last() =~= data@.take(i as int));
            assert(data@.take(i + 1).last() == data@[i as int]);
        }
        i = i + 1;
    }
    crc
}

/// Calculate the CRC16 checksum of `data`, starting from `init_value`.
pub fn calculate_crc16(data: &Vec<u8>, init_value: u16) -> (crc: u16)
    ensures
        crc == crc16_of(data@, init_value),
{
    let crc = crc16_over_prefix(data, data.len(), init_value);
    proof {
        assert(data@.take(data@.len() as int) =~= data@);
    }
    crc
}

/// Calculate the CRC16 checksum of `data` (alternative interface).
pub fn get_crc16_checksum(data: &Vec<u8>, init_value: u16) -> (crc: u16)
    ensures
        crc == crc16_of(data@, init_value),
{
    calculate_crc16(data, init_value)
}

/// Append the checksum of `data` to `data`, low byte first.
pub fn append_crc16_checksum(data: &mut Vec<u8>, init_value: u16)
    ensures
        final(data)@ == crc16_appended(old(data)@, init_value),
{
    let crc = calculate_crc16(data, init_value);
    data.push((crc & 0xFF) as u8);
    data.push((crc >> 8) as u8);
    proof {
        assert(crc >> 8 < 256) by (bit_vector);
        assert(data@ =~= crc16_appended(old(data)@, init_value));
    }
}

/// Appending the checksum trailer to any buffer yields a buffer that
/// verifies.
pub proof fn lemma_appended_valid(data: Seq<u8>, init: u16)
    ensures
        crc16_valid(crc16_appended(data, init), init),
{
    let a = crc16_appended(data, init);
    assert(a.take(a.len() - 2) =~= data);
}

proof fn lemma_update_inj_state(c1: u16, c2: u16, b: u8)
    requires
        c1 != c2,
    ensures
        crc16_update(c1, b) != crc16_update(c2, b),
{
    assert(crc16_update(c1, b) != crc16_update(c2, b)) by (bit_vector)
        requires
            c1 != c2,
    ;
}

proof fn lemma_update_inj_byte(c: u16, b1: u8, b2: u8)
    requires
        b1 != b2,
    ensures
        crc16_update(c, b1) != crc16_update(c, b2),
{
    assert(crc16_update(c, b1) != crc16_update(c, b2)) by (bit_vector)
        requires
            b1 != b2,
    ;
}

proof fn lemma_trailer_bytes_determine(c1: u16, c2: u16)
    requires
        crc16_lo(c1) == crc16_lo(c2),
        crc16_hi(c1) == crc16_hi(c2),
    ensures
        c1 == c2,
{
    assert(c1 == c2) by (bit_vector)
        requires
            (c1 & 0xFF) as u8 == (c2 & 0xFF) as u8,
            (c1 >> 8) as u8 == (c2 >> 8) as u8,
    ;
}

/// Two equal-length sequences that differ in exactly one byte have
/// different checksums.
proof fn lemma_crc16_of_single_diff(s1: Seq<u8>, s2: Seq<u8>, init: u16, k: int)
    requires
        s1.len() == s2.len(),
        0 <= k < s1.len(),
        s1[k] != s2[k],
        forall|i: int| 0 <= i < s1.len() && i != k ==> s1[i] == s2[i],
    ensures
        crc16_of(s1, init) != crc16_of(s2, init),
    decreases s1.len(),
{
    if k == s1.len() - 1 {
        assert(s1.drop_last() =~= s2.drop_last());
        lemma_update_inj_byte(crc16_of(s1.drop_last(), init), s1.last(), s2.last());
    } else {
        assert(s1.last() == s2.last());
        lemma_crc16_of_single_diff(s1.drop_last(), s2.drop_last(), init, k);
        lemma_update_inj_state(
            crc16_of(s1.drop_last(), init),
            crc16_of(s2.drop_last(), init),
            s1.last(),
        );
    }
}

/// Changing any single byte of a buffer that verifies — whether in the
/// payload or in either checksum byte — makes verification fail.
pub proof fn lemma_flip_byte_invalidates(data: Seq<u8>, init: u16, k: int, b: u8)
    requires
        crc16_valid(data, init),
        0 <= k < data.len(),
        b != data[k],
    ensures
        !crc16_valid(data.update(k, b), init),
{
    let n = data.len() as int;
    let t = data.update(k, b);
    let payload1 = data.take(n - 2);
    let payload2 = t.take(n - 2);
    if k < n - 2 {
        assert(payload2[k] == b);
        assert(forall|i: int| 0 <= i < n - 2 && i != k ==> payload1[i] == payload2[i]);
        lemma_crc16_of_single_diff(payload1, payload2, init, k);
        if crc16_valid(t, init) {
            assert(t[n - 2] == data[n - 2] && t[n - 1] == data[n - 1]);
            lemma_trailer_bytes_determine(crc16_of(payload1, init), crc16_of(payload2, init));
            assert(false);
        }
    } else {
        assert(payload1 =~= payload2);
        if crc16_valid(t, init) {
            assert(t[k] == b);
            assert(false);
        }
    }
}

/// Check that the last two bytes of `data` are the little-endian checksum
/// of everything before them.
pub fn verify_crc16_checksum(data: &Vec<u8>, init_value: u16) -> (valid: bool)
    ensures
        valid == crc16_valid(data@, init_value),
{
    if data.len() < 2 {
        return false;
    }
    let payload_len = data.len() - 2;
    let calculated_crc = crc16_over_prefix(data, payload_len, init_value);
    let lo = data[payload_len];
    let hi = data[payload_len + 1];
    lo == (calculated_crc & 0xFF) as u8 && hi == (calculated_crc >> 8) as u8
}

} // verus!
