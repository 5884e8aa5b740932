//! Fixed-width integer decoding from raw bytes, in either byte order.
//!
//! The hex editor's inspector shows the bytes under the selection anchor
//! reinterpreted as `u8`/`i8`/`u16`/`i16`/`u32`/`i32`, little- or
//! big-endian. The decoders here are plain arithmetic on the bytes, proved
//! against the spec functions below.

use vstd::prelude::*;

verus! {

/// Byte order used when the inspector decodes multi-byte integers.
#[derive(Clone, Copy, Debug, PartialEq, Eq, Structural)]
pub enum Endian {
    BigEndian,
    LittleEndian,
}

/// The unsigned value of two bytes in the given byte order.
pub open spec fn u16_val(endian: Endian, b0: u8, b1: u8) -> int {
    if endian == Endian::LittleEndian {
        b0 + 0x100 * b1
    } else {
        0x100 * b0 + b1
    }
}

/// The unsigned value of four bytes in the given byte order.
pub open spec fn u32_val(endian: Endian, b0: u8, b1: u8, b2: u8, b3: u8) -> int {
    if endian == Endian::LittleEndian {
        b0 + 0x100 * b1 + 0x10000 * b2 + 0x1000000 * b3
    } else {
        0x1000000 * b0 + 0x10000 * b1 + 0x100 * b2 + b3
    }
}

/// Reinterpret an 8-bit unsigned value as two's-complement signed.
pub open spec fn signed8(u: int) -> int {
    if u < 0x80 {
        u
    } else {
        u - 0x100
    }
}

/// Reinterpret a 16-bit unsigned value as two's-complement signed.
pub open spec fn signed16(u: int) -> int {
    if u < 0x8000 {
        u
    } else {
        u - 0x10000
    }
}

/// Reinterpret a 32-bit unsigned value as two's-complement signed.
pub open spec fn signed32(u: int) -> int {
    if u < 0x80000000 {
        u
    } else {
        u - 0x100000000
    }
}

/// Decode one byte as a signed 8-bit integer.
pub fn read_i8(b0: u8) -> (r: i8)
    ensures
        r as int == signed8(b0 as int),
{
    if b0 < 0x80 {
        b0 as i8
    } else {
        ((b0 as i16) - 0x100) as i8
    }
}

/// Decode two bytes as an unsigned 16-bit integer.
pub fn read_u16(endian: Endian, b0: u8, b1: u8) -> (r: u16)
    ensures
        r as int == u16_val(endian, b0, b1),
{
    match endian {
        Endian::LittleEndian => (b0 as u16) + 0x100 * (b1 as u16),
        Endian::BigEndian => 0x100 * (b0 as u16) + (b1 as u16),
    }
}

/// Decode two bytes as a signed 16-bit integer.
pub fn read_i16(endian: Endian, b0: u8, b1: u8) -> (r: i16)
    ensures
        r as int == signed16(u16_val(endian, b0, b1)),
{
    let u = read_u16(endian, b0, b1);
    if u < 0x8000 {
        u as i16
    } else {
        ((u as i32) - 0x10000) as i16
    }
}

/// Decode four bytes as an unsigned 32-bit integer.
pub fn read_u32(endian: Endian, b0: u8, b1: u8, b2: u8, b3: u8) -> (r: u32)
    ensures
        r as int == u32_val(endian, b0, b1, b2, b3),
{
    match endian {
        Endian::LittleEndian => (b0 as u32) + 0x100 * (b1 as u32) + 0x10000 * (b2 as u32)
            + 0x1000000 * (b3 as u32),
        Endian::BigEndian => 0x1000000 * (b0 as u32) + 0x10000 * (b1 as u32) + 0x100 * (b2 as u32)
            + (b3 as u32),
    }
}

/// Decode four bytes as a signed 32-bit integer.
pub fn read_i32(endian: Endian, b0: u8, b1: u8, b2: u8, b3: u8) -> (r: i32)
    ensures
        r as int == signed32(u32_val(endian, b0, b1, b2, b3)),
{
    let u = read_u32(endian, b0, b1, b2, b3);
    if u < 0x80000000 {
        u as i32
    } else {
        ((u as i64) - 0x100000000) as i32
    }
}

/// A 16-bit little-endian decode is undone by taking the value's low and
/// high bytes: the decoders lose nothing.
pub proof fn lemma_u16_le_round_trip(v: u16)
    ensures
        u16_val(Endian::LittleEndian, (v as int % 0x100) as u8, (v as int / 0x100) as u8) == v,
{
}

/// A 16-bit big-endian decode is undone the same way, with the bytes swapped.
pub proof fn lemma_u16_be_round_trip(v: u16)
    ensures
        u16_val(Endian::BigEndian, (v as int / 0x100) as u8, (v as int % 0x100) as u8) == v,
{
}

} // verus!
