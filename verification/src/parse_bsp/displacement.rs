//! The displacement lumps: 176-byte surface descriptors and 20-byte
//! per-vertex offsets.

use crate::bytes::le_u16_at;
use crate::bytes::le_u32_at;
use crate::bytes::parse_vector3;
use crate::bytes::read_u16_le;
use crate::bytes::read_u32_le;
use crate::bytes::vec3_at;
use crate::bytes::Vec3Bits;
use crate::error::BspError;
use crate::parse_bsp::parse_split_lump::lump_data_of;
use crate::parse_bsp::parse_split_lump::read_lump_data;
use crate::parse_bsp::Lump;
use vstd::prelude::*;

verus! {

/// A displacement-surface descriptor: the recorded start corner, the range of
/// per-vertex offsets, and the grid subdivision exponent (`power`).
#[derive(Copy, Clone, Debug)]
pub struct DisplacementInfo {
    pub start_position: Vec3Bits,
    pub vertex_start: u32,
    pub triangle_start: u32,
    pub power: u32,
    pub minimum_tesselation: u32,
    pub smoothing_angle: u32,
    pub contents: u32,
    pub face: u16,
    pub lightmap_alpha_start: u32,
    pub lightmap_sample_start: u32,
}

pub const DISPLACEMENT_INFO_RECORD_SIZE: usize = 176;

/// The displacement descriptor stored at byte offset `i`; the bytes past the
/// lightmap sample start are reserved and not decoded.
pub open spec fn spec_displacement_info_at(b: Seq<u8>, i: int) -> DisplacementInfo {
    DisplacementInfo {
        start_position: vec3_at(b, i),
        vertex_start: le_u32_at(b, i + 12),
        triangle_start: le_u32_at(b, i + 16),
        power: le_u32_at(b, i + 20),
        minimum_tesselation: le_u32_at(b, i + 24),
        smoothing_angle: le_u32_at(b, i + 28),
        contents: le_u32_at(b, i + 32),
        face: le_u16_at(b, i + 36),
        lightmap_alpha_start: le_u32_at(b, i + 38),
        lightmap_sample_start: le_u32_at(b, i + 42),
    }
}

fn decode_displacement_info(b: &[u8], i: usize) -> (r: DisplacementInfo)
    requires
        i + DISPLACEMENT_INFO_RECORD_SIZE <= b@.len(),
    ensures
        r == spec_displacement_info_at(b@, i as int),
{
    let n = b.len();
    DisplacementInfo {
        start_position: parse_vector3(b, i),
        vertex_start: read_u32_le(b, i + 12),
        triangle_start: read_u32_le(b, i + 16),
        power: read_u32_le(b, i + 20),
        minimum_tesselation: read_u32_le(b, i + 24),
        smoothing_angle: read_u32_le(b, i + 28),
        contents: read_u32_le(b, i + 32),
        face: read_u16_le(b, i + 36),
        lightmap_alpha_start: read_u32_le(b, i + 38),
        lightmap_sample_start: read_u32_le(b, i + 42),
    }
}

/// Decodes the displacement-descriptor lump; record `j` comes from bytes
/// `[176*j, 176*j+176)` of the lump's logical stream, whose length must be a
/// multiple of 176.
pub fn parse_displacements(file: &[u8], lump: Lump) -> (r: Result<
    Vec<DisplacementInfo>,
    BspError,
>)
    ensures
        match lump_data_of(file@, lump) {
            Option::Some(d) => {
                if (d.len() as int) % (DISPLACEMENT_INFO_RECORD_SIZE as int) == 0 {
                    &&& r matches Ok(v)
                    &&& v@.len() * (DISPLACEMENT_INFO_RECORD_SIZE as int) == d.len()
                    &&& forall|j: int|
                        0 <= j < v@.len() ==> v@[j] == spec_displacement_info_at(
                            d,
                            (DISPLACEMENT_INFO_RECORD_SIZE as int) * j,
                        )
                } else {
                    r == Err::<Vec<DisplacementInfo>, BspError>(BspError::LumpSize)
                }
            },
            Option::None => r is Err,
        },
{
    let data = match read_lump_data(file, lump) {
        Ok(d) => d,
        Err(e) => { return Err(e) },
    };
    let dlen = data.len();
    if dlen % DISPLACEMENT_INFO_RECORD_SIZE != 0 {
        return Err(BspError::LumpSize);
    }
    let mut out: Vec<DisplacementInfo> = Vec::new();
    let mut pos: usize = 0;
    while pos < dlen
        invariant
            pos <= dlen,
            dlen == data@.len(),
            (dlen as int) % (DISPLACEMENT_INFO_RECORD_SIZE as int) == 0,
            (pos as int) % (DISPLACEMENT_INFO_RECORD_SIZE as int) == 0,
            out@.len() * (DISPLACEMENT_INFO_RECORD_SIZE as int) == pos as int,
            forall|j: int|
                0 <= j < out@.len() ==> out@[j] == spec_displacement_info_at(
                    data@,
                    (DISPLACEMENT_INFO_RECORD_SIZE as int) * j,
                ),
        decreases dlen - pos,
    {
        proof {
            assert(pos + DISPLACEMENT_INFO_RECORD_SIZE <= dlen) by (nonlinear_arith)
                requires
                    pos < dlen && (pos as int) % 176 == 0 && (dlen as int) % 176 == 0,
            ;
        }
        out.push(decode_displacement_info(data.as_slice(), pos));
        pos = pos + DISPLACEMENT_INFO_RECORD_SIZE;
    }
    Ok(out)
}

/// A per-sample displacement: a direction vector and a scalar length, both as
/// raw float bits, applied on top of a bilinearly interpolated base position.
#[derive(Copy, Clone, Debug)]
pub struct DisplacementVertex {
    pub direction: Vec3Bits,
    pub length: u32,
    pub alpha: u32,
}

pub const DISPLACEMENT_VERTEX_RECORD_SIZE: usize = 20;

/// The displacement-vertex record stored at byte offset `i`.
pub open spec fn spec_displacement_vertex_at(b: Seq<u8>, i: int) -> DisplacementVertex {
    DisplacementVertex {
        direction: vec3_at(b, i),
        length: le_u32_at(b, i + 12),
        alpha: le_u32_at(b, i + 16),
    }
}

/// Decodes the displacement-vertex lump; record `j` comes from bytes
/// `[20*j, 20*j+20)` of the lump's logical stream, whose length must be a
/// multiple of 20.
pub fn parse_displacement_vertexes(file: &[u8], lump: Lump) -> (r: Result<
    Vec<DisplacementVertex>,
    BspError,
>)
    ensures
        match lump_data_of(file@, lump) {
            Option::Some(d) => {
                if (d.len() as int) % (DISPLACEMENT_VERTEX_RECORD_SIZE as int) == 0 {
                    &&& r matches Ok(v)
                    &&& v@.len() * (DISPLACEMENT_VERTEX_RECORD_SIZE as int) == d.len()
                    &&& forall|j: int|
                        0 <= j < v@.len() ==> v@[j] == spec_displacement_vertex_at(
                            d,
                            (DISPLACEMENT_VERTEX_RECORD_SIZE as int) * j,
                        )
                } else {
                    r == Err::<Vec<DisplacementVertex>, BspError>(BspError::LumpSize)
                }
            },
            Option::None => r is Err,
        },
{
    let data = match read_lump_data(file, lump) {
        Ok(d) => d,
        Err(e) => { return Err(e) },
    };
    let dlen = data.len();
    if dlen % DISPLACEMENT_VERTEX_RECORD_SIZE != 0 {
        return Err(BspError::LumpSize);
    }
    let mut out: Vec<DisplacementVertex> = Vec::new();
    let mut pos: usize = 0;
    while pos < dlen
        invariant
            pos <= dlen,
            dlen == data@.len(),
            (dlen as int) % (DISPLACEMENT_VERTEX_RECORD_SIZE as int) == 0,
            (pos as int) % (DISPLACEMENT_VERTEX_RECORD_SIZE as int) == 0,
            out@.len() * (DISPLACEMENT_VERTEX_RECORD_SIZE as int) == pos as int,
            forall|j: int|
                0 <= j < out@.len() ==> out@[j] == spec_displacement_vertex_at(
                    data@,
                    (DISPLACEMENT_VERTEX_RECORD_SIZE as int) * j,
                ),
        decreases dlen - pos,
    {
        proof {
            assert(pos + DISPLACEMENT_VERTEX_RECORD_SIZE <= dlen) by (nonlinear_arith)
                requires
                    pos < dlen && (pos as int) % 20 == 0 && (dlen as int) % 20 == 0,
            ;
        }
        let direction = parse_vector3(data.as_slice(), pos);
        let length = read_u32_le(data.as_slice(), pos + 12);
        let alpha = read_u32_le(data.as_slice(), pos + 16);
        out.push(DisplacementVertex { direction, length, alpha });
        pos = pos + DISPLACEMENT_VERTEX_RECORD_SIZE;
    }
    Ok(out)
}

} // verus!
