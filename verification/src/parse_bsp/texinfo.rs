//! The texture-info lump: one 72-byte record per surface, holding the two
//! texture projection rows, the surface flags, and the texture-data index.

use crate::bytes::le_u32_at;
use crate::bytes::parse_vector3;
use crate::bytes::read_u32_le;
use crate::bytes::vec3_at;
use crate::bytes::Vec3Bits;
use crate::error::BspError;
use crate::parse_bsp::parse_split_lump::lump_data_of;
use crate::parse_bsp::parse_split_lump::read_lump_data;
use crate::parse_bsp::Lump;
use vstd::prelude::*;

verus! {

pub const SURF_LIGHT: u32 = 0x0001;

pub const SURF_SKY2D: u32 = 0x0002;

pub const SURF_SKY: u32 = 0x0004;

pub const SURF_WARP: u32 = 0x0008;

pub const SURF_TRANS: u32 = 0x0010;

pub const SURF_NOPORTAL: u32 = 0x0020;

pub const SURF_TRIGGER: u32 = 0x0040;

pub const SURF_NODRAW: u32 = 0x0080;

pub const SURF_HINT: u32 = 0x0100;

pub const SURF_SKIP: u32 = 0x0200;

pub const SURF_NOLIGHT: u32 = 0x0400;

pub const SURF_BUMPLIGHT: u32 = 0x0800;

pub const SURF_NOSHADOWS: u32 = 0x1000;

pub const SURF_NODECALS: u32 = 0x2000;

pub const SURF_NOCHOP: u32 = 0x4000;

pub const SURF_HITBOX: u32 = 0x8000;

/// One row of the texture projection: an axis vector (raw float bits) and a
/// scalar offset (raw float bits). A 3D position maps to one texture
/// coordinate as `dot(axis, position) + offset`, scaled by the reciprocal of
/// the texture's pixel dimension.
#[derive(Copy, Clone, Debug)]
pub struct TexProjection {
    pub axis: Vec3Bits,
    pub offset: u32,
}

/// Per-surface texture mapping: two projection rows, the surface flags, and
/// the index of the texture-data record.
#[derive(Copy, Clone, Debug)]
pub struct TextureInfo {
    pub texture_vectors: [TexProjection; 2],
    pub flags: u32,
    pub texture_data_index: u32,
}

pub const TEXTURE_INFO_RECORD_SIZE: usize = 72;

/// The texture-info record stored at byte offset `i`. The lightmap rows in
/// the middle of the record do not feed the geometry pipeline and are not
/// decoded.
pub open spec fn spec_texture_info_at(b: Seq<u8>, i: int) -> TextureInfo {
    TextureInfo {
        texture_vectors: [
            TexProjection { axis: vec3_at(b, i), offset: le_u32_at(b, i + 12) },
            TexProjection { axis: vec3_at(b, i + 16), offset: le_u32_at(b, i + 28) },
        ],
        flags: le_u32_at(b, i + 64),
        texture_data_index: le_u32_at(b, i + 68),
    }
}

fn decode_texture_info(b: &[u8], i: usize) -> (r: TextureInfo)
    requires
        i + TEXTURE_INFO_RECORD_SIZE <= b@.len(),
    ensures
        r == spec_texture_info_at(b@, i as int),
{
    let n = b.len();
    TextureInfo {
        texture_vectors: [
            TexProjection { axis: parse_vector3(b, i), offset: read_u32_le(b, i + 12) },
            TexProjection { axis: parse_vector3(b, i + 16), offset: read_u32_le(b, i + 28) },
        ],
        flags: read_u32_le(b, i + 64),
        texture_data_index: read_u32_le(b, i + 68),
    }
}

/// Decodes the texture-info lump; record `j` comes from bytes
/// `[72*j, 72*j+72)` of the lump's logical stream, whose length must be a
/// multiple of 72.
pub fn parse_texture_info(file: &[u8], lump: Lump) -> (r: Result<Vec<TextureInfo>, BspError>)
    ensures
        match lump_data_of(file@, lump) {
            Option::Some(d) => {
                if (d.len() as int) % (TEXTURE_INFO_RECORD_SIZE as int) == 0 {
                    &&& r matches Ok(v)
                    &&& v@.len() * (TEXTURE_INFO_RECORD_SIZE as int) == d.len()
                    &&& forall|j: int|
                        0 <= j < v@.len() ==> v@[j] == spec_texture_info_at(
                            d,
                            (TEXTURE_INFO_RECORD_SIZE as int) * j,
                        )
                } else {
                    r == Err::<Vec<TextureInfo>, BspError>(BspError::LumpSize)
                }
            },
            Option::None => r is Err,
        },
{
    let data = match read_lump_data(file, lump) {
        Ok(d) => d,
        Err(e) => { return Err(e) },
    };
    let dlen = data.len();
    if dlen % TEXTURE_INFO_RECORD_SIZE != 0 {
        return Err(BspError::LumpSize);
    }
    let mut out: Vec<TextureInfo> = Vec::new();
    let mut pos: usize = 0;
    while pos < dlen
        invariant
            pos <= dlen,
            dlen == data@.len(),
            (dlen as int) % (TEXTURE_INFO_RECORD_SIZE as int) == 0,
            (pos as int) % (TEXTURE_INFO_RECORD_SIZE as int) == 0,
            out@.len() * (TEXTURE_INFO_RECORD_SIZE as int) == pos as int,
            forall|j: int|
                0 <= j < out@.len() ==> out@[j] == spec_texture_info_at(
                    data@,
                    (TEXTURE_INFO_RECORD_SIZE as int) * j,
                ),
        decreases dlen - pos,
    {
        proof {
            assert(pos + TEXTURE_INFO_RECORD_SIZE <= dlen) by (nonlinear_arith)
                requires
                    pos < dlen && (pos as int) % 72 == 0 && (dlen as int) % 72 == 0,
            ;
        }
        out.push(decode_texture_info(data.as_slice(), pos));
        pos = pos + TEXTURE_INFO_RECORD_SIZE;
    }
    Ok(out)
}

} // verus!
