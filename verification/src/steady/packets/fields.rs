//! Readers for the little-endian fields of a binary payload.
//!
//! A field's model is written with plain arithmetic on the bytes: the least
//! significant byte comes first, and a signed field is in two's complement.

use vstd::prelude::*;

verus! {

/// The signed number that `raw` stands for in two's complement, where
/// `modulus` is two to the power of the field's width in bits.
pub open spec fn twos_complement(raw: int, modulus: int) -> int {
    if 2 * raw >= modulus {
        raw - modulus
    } else {
        raw
    }
}

/// The unsigned number in the two bytes of `b` from `at` on.
pub open spec fn raw_16(b: Seq<u8>, at: int) -> int {
    b[at] as int + 0x100 * b[at + 1] as int
}

/// The unsigned number in the three bytes of `b` from `at` on.
pub open spec fn raw_24(b: Seq<u8>, at: int) -> int {
    b[at] as int + 0x100 * b[at + 1] as int + 0x1_0000 * b[at + 2] as int
}

/// The unsigned number in the four bytes of `b` from `at` on.
pub open spec fn raw_32(b: Seq<u8>, at: int) -> int {
    b[at] as int + 0x100 * b[at + 1] as int + 0x1_0000 * b[at + 2] as int + 0x100_0000 * b[at
        + 3] as int
}

/// The byte `b` read as a signed number.
pub open spec fn int_8(b: u8) -> i8 {
    twos_complement(b as int, 0x100) as i8
}

/// The unsigned 16-bit field of `b` at `at`.
pub open spec fn uint_16(b: Seq<u8>, at: int) -> u16 {
    raw_16(b, at) as u16
}

/// The signed 16-bit field of `b` at `at`.
pub open spec fn int_16(b: Seq<u8>, at: int) -> i16 {
    twos_complement(raw_16(b, at), 0x1_0000) as i16
}

/// The signed 24-bit field of `b` at `at`, widened to 32 bits.
pub open spec fn int_24(b: Seq<u8>, at: int) -> i32 {
    twos_complement(raw_24(b, at), 0x100_0000) as i32
}

/// The signed 32-bit field of `b` at `at`.
pub open spec fn int_32(b: Seq<u8>, at: int) -> i32 {
    twos_complement(raw_32(b, at), 0x1_0000_0000) as i32
}

/// The number that keeps the low 16 bits of `v`, read as signed.
pub open spec fn narrow_16(v: int) -> i16 {
    twos_complement(v % 0x1_0000, 0x1_0000) as i16
}

/// Widens a 24-bit two's complement number to 32 bits: where bit 23 is set,
/// the eight bits above it are set too. A 24-bit `raw` with bit 23 set gives
/// the negative number `raw - 0x1000000`; one with bit 23 clear gives `raw`.
pub fn sign_extend_24(raw: i32) -> (v: i32)
    ensures
        raw & 0x80_0000 != 0 ==> v == raw | !0xFF_FFFFi32,
        raw & 0x80_0000 == 0 ==> v == raw,
        0 <= raw < 0x100_0000 && raw & 0x80_0000 != 0 ==> v == raw - 0x100_0000 && v < 0,
        0 <= raw < 0x100_0000 ==> v == twos_complement(raw as int, 0x100_0000),
{
    proof {
        assert(0 <= raw < 0x100_0000 ==> (raw & 0x80_0000 != 0 <==> raw >= 0x80_0000))
            by (bit_vector);
        assert(0x80_0000 <= raw < 0x100_0000 ==> raw | !0xFF_FFFFi32 == raw - 0x100_0000)
            by (bit_vector);
    }
    if raw & 0x80_0000 != 0 {
        raw | !0xFF_FFFF
    } else {
        raw
    }
}

/// Reads a byte as a signed number.
pub fn read_i8(b: u8) -> (v: i8)
    ensures
        v == int_8(b),
{
    if b >= 0x80 {
        (b as i16 - 0x100) as i8
    } else {
        b as i8
    }
}

/// Reads the unsigned 16-bit field at `at`.
pub(crate) fn read_u16(bytes: &[u8], at: usize) -> (v: u16)
    requires
        at + 2 <= bytes.len(),
    ensures
        v == uint_16(bytes@, at as int),
{
    bytes[at] as u16 + 0x100 * (bytes[at + 1] as u16)
}

/// Reads the signed 16-bit field at `at`.
pub(crate) fn read_i16(bytes: &[u8], at: usize) -> (v: i16)
    requires
        at + 2 <= bytes.len(),
    ensures
        v == int_16(bytes@, at as int),
{
    let raw: i32 = bytes[at] as i32 + 0x100 * (bytes[at + 1] as i32);
    if raw >= 0x8000 {
        (raw - 0x1_0000) as i16
    } else {
        raw as i16
    }
}

/// Reads the signed 24-bit field at `at` and widens it to 32 bits.
pub(crate) fn read_i24(bytes: &[u8], at: usize) -> (v: i32)
    requires
        at + 3 <= bytes.len(),
    ensures
        v == int_24(bytes@, at as int),
{
    let raw: i32 = bytes[at] as i32 + 0x100 * (bytes[at + 1] as i32) + 0x1_0000 * (bytes[at
        + 2] as i32);
    sign_extend_24(raw)
}

/// Reads the signed 32-bit field at `at`.
pub(crate) fn read_i32(bytes: &[u8], at: usize) -> (v: i32)
    requires
        at + 4 <= bytes.len(),
    ensures
        v == int_32(bytes@, at as int),
{
    let raw: i64 = bytes[at] as i64 + 0x100 * (bytes[at + 1] as i64) + 0x1_0000 * (bytes[at
        + 2] as i64) + 0x100_0000 * (bytes[at + 3] as i64);
    if raw >= 0x8000_0000 {
        (raw - 0x1_0000_0000) as i32
    } else {
        raw as i32
    }
}

/// Keeps the low 16 bits of `v` and reads them as signed.
pub fn narrow_i16(v: i32) -> (r: i16)
    ensures
        r == narrow_16(v as int),
{
    let low: i32 = v & 0xFFFF;
    proof {
        assert(0 <= v & 0xFFFF < 0x1_0000) by (bit_vector);
        assert(v & 0xFFFF == v % 0x1_0000) by (bit_vector);
    }
    if low >= 0x8000 {
        (low - 0x1_0000) as i16
    } else {
        low as i16
    }
}

} // verus!
