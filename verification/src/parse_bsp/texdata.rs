//! The texture-data lump: one 32-byte record per texture.

use crate::bytes::le_u32_at;
use crate::bytes::parse_vector3;
use crate::bytes::read_u32_le;
use crate::bytes::vec3_at;
use crate::bytes::Vec3Bits;
use crate::error::BspError;
use crate::parse_bsp::parse_split_lump::lump_data_of;
use crate::parse_bsp::parse_split_lump::read_lump_data;
use crate::parse_bsp::Lump;
use vstd::prelude::*;

verus! {

/// Texture dimensions plus an index into the texture name table. The
/// reflectivity components are raw float bits.
#[derive(Copy, Clone, Debug)]
pub struct TextureData {
    pub reflectivity: Vec3Bits,
    pub name_index: u32,
    pub width: u32,
    pub height: u32,
    pub view_width: u32,
    pub view_height: u32,
}

pub const TEXTURE_DATA_RECORD_SIZE: usize = 32;

/// The texture-data record stored at byte offset `i`.
pub open spec fn spec_texture_data_at(b: Seq<u8>, i: int) -> TextureData {
    TextureData {
        reflectivity: vec3_at(b, i),
        name_index: le_u32_at(b, i + 12),
        width: le_u32_at(b, i + 16),
        height: le_u32_at(b, i + 20),
        view_width: le_u32_at(b, i + 24),
        view_height: le_u32_at(b, i + 28),
    }
}

fn decode_texture_data(b: &[u8], i: usize) -> (r: TextureData)
    requires
        i + TEXTURE_DATA_RECORD_SIZE <= b@.len(),
    ensures
        r == spec_texture_data_at(b@, i as int),
{
    let n = b.len();
    TextureData {
        reflectivity: parse_vector3(b, i),
        name_index: read_u32_le(b, i + 12),
        width: read_u32_le(b, i + 16),
        height: read_u32_le(b, i + 20),
        view_width: read_u32_le(b, i + 24),
        view_height: read_u32_le(b, i + 28),
    }
}

/// Decodes the texture-data lump; record `j` comes from bytes
/// `[32*j, 32*j+32)` of the lump's logical stream, whose length must be a
/// multiple of 32.
pub fn parse_texture_data(file: &[u8], lump: Lump) -> (r: Result<Vec<TextureData>, BspError>)
    ensures
        match lump_data_of(file@, lump) {
            Option::Some(d) => {
                if (d.len() as int) % (TEXTURE_DATA_RECORD_SIZE as int) == 0 {
                    &&& r matches Ok(v)
                    &&& v@.len() * (TEXTURE_DATA_RECORD_SIZE as int) == d.len()
                    &&& forall|j: int|
                        0 <= j < v@.len() ==> v@[j] == spec_texture_data_at(
                            d,
                            (TEXTURE_DATA_RECORD_SIZE as int) * j,
                        )
                } else {
                    r == Err::<Vec<TextureData>, BspError>(BspError::LumpSize)
                }
            },
            Option::None => r is Err,
        },
{
    let data = match read_lump_data(file, lump) {
        Ok(d) => d,
        Err(e) => { return Err(e) },
    };
    let dlen = data.len();
    if dlen % TEXTURE_DATA_RECORD_SIZE != 0 {
        return Err(BspError::LumpSize);
    }
    let mut out: Vec<TextureData> = Vec::new();
    let mut pos: usize = 0;
    while pos < dlen
        invariant
            pos <= dlen,
            dlen == data@.len(),
            (dlen as int) % (TEXTURE_DATA_RECORD_SIZE as int) == 0,
            (pos as int) % (TEXTURE_DATA_RECORD_SIZE as int) == 0,
            out@.len() * (TEXTURE_DATA_RECORD_SIZE as int) == pos as int,
            forall|j: int|
                0 <= j < out@.len() ==> out@[j] == spec_texture_data_at(
                    data@,
                    (TEXTURE_DATA_RECORD_SIZE as int) * j,
                ),
        decreases dlen - pos,
    {
        proof {
            assert(pos + TEXTURE_DATA_RECORD_SIZE <= dlen) by (nonlinear_arith)
                requires
                    pos < dlen && (pos as int) % 32 == 0 && (dlen as int) % 32 == 0,
            ;
        }
        out.push(decode_texture_data(data.as_slice(), pos));
        pos = pos + TEXTURE_DATA_RECORD_SIZE;
    }
    Ok(out)
}

} // verus!
