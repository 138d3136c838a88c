use vstd::prelude::*;

verus! {

/// The value of a byte read as a two's-complement signed byte.
pub open spec fn signed8(b: u8) -> int {
    if b < 128 { b as int } else { b - 256 }
}

/// The value of two bytes in big-endian order.
pub open spec fn be16(hi: u8, lo: u8) -> int {
    hi * 256 + lo
}

/// The value of four bytes in big-endian order.
pub open spec fn be32(b0: u8, b1: u8, b2: u8, b3: u8) -> int {
    b0 * 0x100_0000 + b1 * 0x1_0000 + b2 * 0x100 + b3
}

/// A 16-bit pattern `u` read as a two's-complement signed integer.
pub open spec fn signed16(u: int) -> int {
    if u < 0x8000 { u } else { u - 0x1_0000 }
}

/// A 32-bit pattern `u` read as a two's-complement signed integer.
pub open spec fn signed32(u: int) -> int {
    if u < 0x8000_0000 { u } else { u - 0x1_0000_0000 }
}

/// The 16-bit two's-complement pattern of `v`.
pub open spec fn pattern16(v: int) -> int {
    if v < 0 { v + 0x1_0000 } else { v }
}

/// The 32-bit two's-complement pattern of `v`.
pub open spec fn pattern32(v: int) -> int {
    if v < 0 { v + 0x1_0000_0000 } else { v }
}

/// The big-endian bytes of a 16-bit pattern.
pub open spec fn be_bytes16(u: int) -> Seq<u8> {
    seq![(u / 0x100) as u8, (u % 0x100) as u8]
}

/// The big-endian bytes of a 32-bit pattern.
pub open spec fn be_bytes32(u: int) -> Seq<u8> {
    seq![
        (u / 0x100_0000) as u8,
        (u / 0x1_0000 % 0x100) as u8,
        (u / 0x100 % 0x100) as u8,
        (u % 0x100) as u8,
    ]
}

/// Reads a byte as a signed byte.
pub fn i8_from_byte(b: u8) -> (r: i8)
    ensures
        r == signed8(b),
{
    if b < 128 {
        b as i8
    } else {
        (b as i16 - 256) as i8
    }
}

/// Assembles an unsigned 16-bit integer from two big-endian bytes.
pub fn u16_from_be(hi: u8, lo: u8) -> (r: u16)
    ensures
        r == be16(hi, lo),
{
    (hi as u16) * 256 + (lo as u16)
}

/// Assembles a signed 16-bit integer from two big-endian bytes.
pub fn i16_from_be(hi: u8, lo: u8) -> (r: i16)
    ensures
        r == signed16(be16(hi, lo)),
{
    if hi < 128 {
        (hi as i16) * 256 + (lo as i16)
    } else {
        ((hi as i16) - 256) * 256 + (lo as i16)
    }
}

/// Assembles an unsigned 32-bit integer from four big-endian bytes.
pub fn u32_from_be(b0: u8, b1: u8, b2: u8, b3: u8) -> (r: u32)
    ensures
        r == be32(b0, b1, b2, b3),
{
    (b0 as u32) * 0x100_0000 + (b1 as u32) * 0x1_0000 + (b2 as u32) * 0x100 + (b3 as u32)
}

/// Reads a 32-bit pattern as a signed integer.
pub fn i32_from_u32(u: u32) -> (r: i32)
    ensures
        r == signed32(u as int),
{
    if u < 0x8000_0000 {
        u as i32
    } else {
        ((u as i64) - 0x1_0000_0000) as i32
    }
}

/// The big-endian bytes of an unsigned 16-bit integer.
pub fn u16_to_be(v: u16) -> (r: Vec<u8>)
    ensures
        r@ == be_bytes16(v as int),
{
    vec![(v / 0x100) as u8, (v % 0x100) as u8]
}

/// The big-endian two's-complement bytes of a signed 16-bit integer.
pub fn i16_to_be(v: i16) -> (r: Vec<u8>)
    ensures
        r@ == be_bytes16(pattern16(v as int)),
{
    let u: u16 = if v < 0 {
        ((v as i32) + 0x1_0000) as u16
    } else {
        v as u16
    };
    u16_to_be(u)
}

/// The big-endian two's-complement bytes of a signed 32-bit integer.
pub fn i32_to_be(v: i32) -> (r: Vec<u8>)
    ensures
        r@ == be_bytes32(pattern32(v as int)),
{
    let u: u32 = if v < 0 {
        ((v as i64) + 0x1_0000_0000) as u32
    } else {
        v as u32
    };
    vec![
        (u / 0x100_0000) as u8,
        (u / 0x1_0000 % 0x100) as u8,
        (u / 0x100 % 0x100) as u8,
        (u % 0x100) as u8,
    ]
}

} // verus!
