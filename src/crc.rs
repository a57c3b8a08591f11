//! The two checksums of the wire format.
//!
//! Both are reflected CRCs computed one bit at a time: an 8-bit one over the
//! first three bytes of a frame and a 16-bit one over everything but the
//! trailing checksum. Each is seeded with a value fixed by the protocol.

use vstd::prelude::*;

verus! {

/// Seed of the header checksum.
pub const CRC8_SEED: u8 = 0x77;

/// Seed of the frame checksum.
pub const CRC16_SEED: u16 = 0x3692;

/// Reflected form of the polynomial x^8 + x^5 + x^4 + 1.
pub const CRC8_POLY: u8 = 0x8C;

/// Reflected form of the polynomial x^16 + x^12 + x^5 + 1.
pub const CRC16_POLY: u16 = 0x8408;

/// One bit step of the 8-bit register.
pub open spec fn crc8_shift(r: u8) -> u8 {
    if r & 1 == 1 {
        (r >> 1u8) ^ CRC8_POLY
    } else {
        r >> 1u8
    }
}

/// `n` bit steps of the 8-bit register.
pub open spec fn crc8_shifts(r: u8, n: nat) -> u8
    decreases n,
{
    if n == 0 {
        r
    } else {
        crc8_shift(crc8_shifts(r, (n - 1) as nat))
    }
}

/// The 8-bit register after taking in one byte.
pub open spec fn crc8_byte(r: u8, b: u8) -> u8 {
    crc8_shifts(r ^ b, 8)
}

/// The 8-bit checksum of `data`, starting from `seed`.
pub open spec fn crc8(seed: u8, data: Seq<u8>) -> u8
    decreases data.len(),
{
    if data.len() == 0 {
        seed
    } else {
        crc8_byte(crc8(seed, data.drop_last()), data.last())
    }
}

/// One bit step of the 16-bit register.
pub open spec fn crc16_shift(r: u16) -> u16 {
    if r & 1 == 1 {
        (r >> 1u16) ^ CRC16_POLY
    } else {
        r >> 1u16
    }
}

/// `n` bit steps of the 16-bit register.
pub open spec fn crc16_shifts(r: u16, n: nat) -> u16
    decreases n,
{
    if n == 0 {
        r
    } else {
        crc16_shift(crc16_shifts(r, (n - 1) as nat))
    }
}

/// The 16-bit register after taking in one byte.
pub open spec fn crc16_byte(r: u16, b: u8) -> u16 {
    crc16_shifts(r ^ (b as u16), 8)
}

/// The 16-bit checksum of `data`, starting from `seed`.
pub open spec fn crc16(seed: u16, data: Seq<u8>) -> u16
    decreases data.len(),
{
    if data.len() == 0 {
        seed
    } else {
        crc16_byte(crc16(seed, data.drop_last()), data.last())
    }
}

/// The header checksum of the protocol.
pub open spec fn header_crc(data: Seq<u8>) -> u8 {
    crc8(CRC8_SEED, data)
}

/// The frame checksum of the protocol.
pub open spec fn packet_crc(data: Seq<u8>) -> u16 {
    crc16(CRC16_SEED, data)
}

fn crc8_update(r: u8, b: u8) -> (out: u8)
    ensures
        out == crc8_byte(r, b),
{
    let mut c: u8 = r ^ b;
    let mut i: u8 = 0;
    while i < 8
        invariant
            i <= 8,
            c == crc8_shifts(r ^ b, i as nat),
        decreases 8 - i,
    {
        if c & 1 == 1 {
            c = (c >> 1u8) ^ CRC8_POLY;
        } else {
            c = c >> 1u8;
        }
        i = i + 1;
    }
    c
}

fn crc16_update(r: u16, b: u8) -> (out: u16)
    ensures
        out == crc16_byte(r, b),
{
    let mut c: u16 = r ^ (b as u16);
    let mut i: u8 = 0;
    while i < 8
        invariant
            i <= 8,
            c == crc16_shifts(r ^ (b as u16), i as nat),
        decreases 8 - i,
    {
        if c & 1 == 1 {
            c = (c >> 1u16) ^ CRC16_POLY;
        } else {
            c = c >> 1u16;
        }
        i = i + 1;
    }
    c
}

/// The 8-bit checksum of `data` with the given seed.
pub fn rm_crc8(seed: u8, data: &[u8]) -> (r: u8)
    ensures
        r == crc8(seed, data@),
{
    let mut c: u8 = seed;
    let mut i: usize = 0;
    while i < data.len()
        invariant
            i <= data@.len(),
            c == crc8(seed, data@.subrange(0, i as int)),
        decreases data.len() - i,
    {
        assert(data@.subrange(0, i + 1).drop_last() =~= data@.subrange(0, i as int));
        c = crc8_update(c, data[i]);
        i = i + 1;
    }
    assert(data@.subrange(0, data@.len() as int) =~= data@);
    c
}

/// The 16-bit checksum of `data` with the given seed.
pub fn rm_crc16(seed: u16, data: &[u8]) -> (r: u16)
    ensures
        r == crc16(seed, data@),
{
    let mut c: u16 = seed;
    let mut i: usize = 0;
    while i < data.len()
        invariant
            i <= data@.len(),
            c == crc16(seed, data@.subrange(0, i as int)),
        decreases data.len() - i,
    {
        assert(data@.subrange(0, i + 1).drop_last() =~= data@.subrange(0, i as int));
        c = crc16_update(c, data[i]);
        i = i + 1;
    }
    assert(data@.subrange(0, data@.len() as int) =~= data@);
    c
}

/// The header checksum of `data`, as stored in byte 3 of a frame.
pub fn rm_s1_crc8(data: &[u8]) -> (r: u8)
    ensures
        r == header_crc(data@),
{
    rm_crc8(CRC8_SEED, data)
}

/// The frame checksum of `data`, as stored in the last two bytes of a frame.
pub fn rm_s1_crc16(data: &[u8]) -> (r: u16)
    ensures
        r == packet_crc(data@),
{
    rm_crc16(CRC16_SEED, data)
}

/// One bit step of the 8-bit register loses nothing.
proof fn lemma_crc8_shift_injective(x: u8, y: u8)
    requires
        crc8_shift(x) == crc8_shift(y),
    ensures
        x == y,
{
    assert(((if x & 1 == 1 {
        (x >> 1u8) ^ 0x8Cu8
    } else {
        x >> 1u8
    }) == (if y & 1 == 1 {
        (y >> 1u8) ^ 0x8Cu8
    } else {
        y >> 1u8
    })) ==> x == y) by (bit_vector);
}

/// One bit step of the 16-bit register loses nothing.
proof fn lemma_crc16_shift_injective(x: u16, y: u16)
    requires
        crc16_shift(x) == crc16_shift(y),
    ensures
        x == y,
{
    assert(((if x & 1 == 1 {
        (x >> 1u16) ^ 0x8408u16
    } else {
        x >> 1u16
    }) == (if y & 1 == 1 {
        (y >> 1u16) ^ 0x8408u16
    } else {
        y >> 1u16
    })) ==> x == y) by (bit_vector);
}

proof fn lemma_crc8_shifts_injective(x: u8, y: u8, n: nat)
    requires
        crc8_shifts(x, n) == crc8_shifts(y, n),
    ensures
        x == y,
    decreases n,
{
    if n > 0 {
        lemma_crc8_shift_injective(crc8_shifts(x, (n - 1) as nat), crc8_shifts(y, (n - 1) as nat));
        lemma_crc8_shifts_injective(x, y, (n - 1) as nat);
    }
}

proof fn lemma_crc16_shifts_injective(x: u16, y: u16, n: nat)
    requires
        crc16_shifts(x, n) == crc16_shifts(y, n),
    ensures
        x == y,
    decreases n,
{
    if n > 0 {
        lemma_crc16_shift_injective(
            crc16_shifts(x, (n - 1) as nat),
            crc16_shifts(y, (n - 1) as nat),
        );
        lemma_crc16_shifts_injective(x, y, (n - 1) as nat);
    }
}

/// The 8-bit checksum tells apart any two inputs of one length that differ
/// in a single byte, so it catches every single bit flip.
pub proof fn lemma_crc8_detects_change(seed: u8, d: Seq<u8>, i: int, v: u8)
    requires
        0 <= i < d.len(),
        v != d[i],
    ensures
        crc8(seed, d.update(i, v)) != crc8(seed, d),
    decreases d.len(),
{
    let d2 = d.update(i, v);
    let n = d.len() - 1;
    if i == n {
        assert(d2.drop_last() =~= d.drop_last());
        let r = crc8(seed, d.drop_last());
        let w = d[i];
        if crc8_byte(r, v) == crc8_byte(r, w) {
            lemma_crc8_shifts_injective(r ^ v, r ^ w, 8);
            assert((r ^ v) == (r ^ w) ==> v == w) by (bit_vector);
        }
    } else {
        assert(d2.drop_last() =~= d.drop_last().update(i, v));
        lemma_crc8_detects_change(seed, d.drop_last(), i, v);
        let r1 = crc8(seed, d2.drop_last());
        let r2 = crc8(seed, d.drop_last());
        let a = d[n];
        if crc8_byte(r1, a) == crc8_byte(r2, a) {
            lemma_crc8_shifts_injective(r1 ^ a, r2 ^ a, 8);
            assert((r1 ^ a) == (r2 ^ a) ==> r1 == r2) by (bit_vector);
        }
    }
}

/// The 16-bit checksum tells apart any two inputs of one length that differ
/// in a single byte, so it catches every single bit flip.
pub proof fn lemma_crc16_detects_change(seed: u16, d: Seq<u8>, i: int, v: u8)
    requires
        0 <= i < d.len(),
        v != d[i],
    ensures
        crc16(seed, d.update(i, v)) != crc16(seed, d),
    decreases d.len(),
{
    let d2 = d.update(i, v);
    let n = d.len() - 1;
    if i == n {
        assert(d2.drop_last() =~= d.drop_last());
        let r = crc16(seed, d.drop_last());
        let w = d[i];
        if crc16_byte(r, v) == crc16_byte(r, w) {
            lemma_crc16_shifts_injective(r ^ (v as u16), r ^ (w as u16), 8);
            assert((r ^ (v as u16)) == (r ^ (w as u16)) ==> v == w) by (bit_vector);
        }
    } else {
        assert(d2.drop_last() =~= d.drop_last().update(i, v));
        lemma_crc16_detects_change(seed, d.drop_last(), i, v);
        let r1 = crc16(seed, d2.drop_last());
        let r2 = crc16(seed, d.drop_last());
        let a = d[n];
        if crc16_byte(r1, a) == crc16_byte(r2, a) {
            lemma_crc16_shifts_injective(r1 ^ (a as u16), r2 ^ (a as u16), 8);
            assert((r1 ^ (a as u16)) == (r2 ^ (a as u16)) ==> r1 == r2) by (bit_vector);
        }
    }
}

} // verus!
