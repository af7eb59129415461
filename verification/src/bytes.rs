//! Little-endian scalar readers over byte slices.
//!
//! Every multi-byte integer and every floating-point sample of the container
//! is little-endian; floats are read as their raw 32-bit patterns.

use vstd::prelude::*;

verus! {

/// The unsigned 16-bit value stored little-endian at offset `i`.
pub open spec fn le_u16_at(b: Seq<u8>, i: int) -> u16 {
    (b[i] + b[i + 1] * 0x100) as u16
}

/// The unsigned 32-bit value stored little-endian at offset `i`.
pub open spec fn le_u32_at(b: Seq<u8>, i: int) -> u32 {
    (b[i] + b[i + 1] * 0x100 + b[i + 2] * 0x10000 + b[i + 3] * 0x1000000) as u32
}

/// The signed 32-bit value stored little-endian (two's complement) at offset `i`.
pub open spec fn le_i32_at(b: Seq<u8>, i: int) -> i32 {
    if le_u32_at(b, i) < 0x8000_0000 {
        le_u32_at(b, i) as i32
    } else {
        (le_u32_at(b, i) - 0x1_0000_0000) as i32
    }
}

/// The signed 16-bit value stored little-endian (two's complement) at offset `i`.
pub open spec fn le_i16_at(b: Seq<u8>, i: int) -> i16 {
    if le_u16_at(b, i) < 0x8000 {
        le_u16_at(b, i) as i16
    } else {
        (le_u16_at(b, i) - 0x1_0000) as i16
    }
}

pub fn read_u16_le(b: &[u8], i: usize) -> (r: u16)
    requires
        i + 2 <= b@.len(),
    ensures
        r == le_u16_at(b@, i as int),
{
    let n = b.len();
    let lo = b[i] as u16;
    let hi = b[i + 1] as u16;
    lo + hi * 0x100
}

pub fn read_u32_le(b: &[u8], i: usize) -> (r: u32)
    requires
        i + 4 <= b@.len(),
    ensures
        r == le_u32_at(b@, i as int),
{
    let n = b.len();
    let b0 = b[i] as u32;
    let b1 = b[i + 1] as u32;
    let b2 = b[i + 2] as u32;
    let b3 = b[i + 3] as u32;
    b0 + b1 * 0x100 + b2 * 0x10000 + b3 * 0x1000000
}

pub fn read_i32_le(b: &[u8], i: usize) -> (r: i32)
    requires
        i + 4 <= b@.len(),
    ensures
        r == le_i32_at(b@, i as int),
{
    let u = read_u32_le(b, i);
    if u < 0x8000_0000 {
        u as i32
    } else {
        // two's complement: the value is u - 2^32 == -(2^32 - u)
        let mag: u32 = (0xFFFF_FFFFu32 - u) + 1;
        -((mag - 1) as i32) - 1
    }
}

pub fn read_i16_le(b: &[u8], i: usize) -> (r: i16)
    requires
        i + 2 <= b@.len(),
    ensures
        r == le_i16_at(b@, i as int),
{
    let u = read_u16_le(b, i);
    if u < 0x8000 {
        u as i16
    } else {
        let mag: u16 = (0xFFFFu16 - u) + 1;
        -((mag - 1) as i16) - 1
    }
}

/// A 3-component vector of raw IEEE-754 single-precision bit patterns.
#[derive(Clone, Copy, Debug, PartialEq, Eq, Structural)]
pub struct Vec3Bits {
    pub x: u32,
    pub y: u32,
    pub z: u32,
}

/// A 2-component vector of raw IEEE-754 single-precision bit patterns.
#[derive(Clone, Copy, Debug, PartialEq, Eq, Structural)]
pub struct Vec2Bits {
    pub x: u32,
    pub y: u32,
}

/// The 12-byte vector record stored at offset `i`: three little-endian floats.
pub open spec fn vec3_at(b: Seq<u8>, i: int) -> Vec3Bits {
    Vec3Bits { x: le_u32_at(b, i), y: le_u32_at(b, i + 4), z: le_u32_at(b, i + 8) }
}

/// The 8-byte vector record stored at offset `i`: two little-endian floats.
pub open spec fn vec2_at(b: Seq<u8>, i: int) -> Vec2Bits {
    Vec2Bits { x: le_u32_at(b, i), y: le_u32_at(b, i + 4) }
}

pub fn parse_vector3(b: &[u8], i: usize) -> (r: Vec3Bits)
    requires
        i + 12 <= b@.len(),
    ensures
        r == vec3_at(b@, i as int),
{
    let n = b.len();
    Vec3Bits { x: read_u32_le(b, i), y: read_u32_le(b, i + 4), z: read_u32_le(b, i + 8) }
}

/// The 4 bytes of `v` in little-endian order.
pub open spec fn u32_le_bytes(v: u32) -> Seq<u8> {
    seq![
        (v % 256) as u8,
        ((v / 256) % 256) as u8,
        ((v / 65536) % 256) as u8,
        ((v / 16777216) % 256) as u8,
    ]
}

/// Appends every byte of `src` to `out`, in order.
pub fn push_bytes(out: &mut Vec<u8>, src: &[u8])
    ensures
        final(out)@ == old(out)@ + src@,
{
    let n = src.len();
    let mut i: usize = 0;
    while i < n
        invariant
            i <= n,
            n == src@.len(),
            out@ == old(out)@ + src@.take(i as int),
        decreases n - i,
    {
        out.push(src[i]);
        proof {
            assert(src@.take(i + 1) =~= src@.take(i as int).push(src@[i as int]));
        }
        i = i + 1;
    }
    proof {
        assert(src@.take(n as int) =~= src@);
    }
}

/// Appends the 4 little-endian bytes of `v` to `out`.
pub fn push_u32_le(out: &mut Vec<u8>, v: u32)
    ensures
        final(out)@ == old(out)@ + u32_le_bytes(v),
{
    out.push((v % 256) as u8);
    out.push(((v / 256) % 256) as u8);
    out.push(((v / 65536) % 256) as u8);
    out.push(((v / 16777216) % 256) as u8);
    proof {
        assert(out@ =~= old(out)@ + u32_le_bytes(v));
    }
}

pub fn parse_vector2(b: &[u8], i: usize) -> (r: Vec2Bits)
    requires
        i + 8 <= b@.len(),
    ensures
        r == vec2_at(b@, i as int),
{
    let n = b.len();
    Vec2Bits { x: read_u32_le(b, i), y: read_u32_le(b, i + 4) }
}

} // verus!
