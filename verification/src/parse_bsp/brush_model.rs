//! The brush-model lump: one 48-byte record per model. The first record is
//! the root model whose face range selects the renderable world geometry.

use crate::bytes::le_u32_at;
use crate::bytes::parse_vector3;
use crate::bytes::read_u32_le;
use crate::bytes::vec3_at;
use crate::bytes::Vec3Bits;
use crate::error::BspError;
use crate::parse_bsp::parse_split_lump::lump_data_of;
use crate::parse_bsp::parse_split_lump::read_lump_data;
use crate::parse_bsp::Lump;
use vstd::prelude::*;

verus! {

/// A brush model: bounds and origin as raw float bits, plus the face range
/// `[first_face, first_face + num_faces)` belonging to the model.
#[derive(Copy, Clone, Debug)]
pub struct BrushModel {
    pub min: Vec3Bits,
    pub max: Vec3Bits,
    pub origin: Vec3Bits,
    pub head_node: u32,
    pub first_face: u32,
    pub num_faces: u32,
}

pub const BRUSH_MODEL_RECORD_SIZE: usize = 48;

/// The brush-model record stored at byte offset `i`.
pub open spec fn spec_brush_model_at(b: Seq<u8>, i: int) -> BrushModel {
    BrushModel {
        min: vec3_at(b, i),
        max: vec3_at(b, i + 12),
        origin: vec3_at(b, i + 24),
        head_node: le_u32_at(b, i + 36),
        first_face: le_u32_at(b, i + 40),
        num_faces: le_u32_at(b, i + 44),
    }
}

fn decode_brush_model(b: &[u8], i: usize) -> (r: BrushModel)
    requires
        i + BRUSH_MODEL_RECORD_SIZE <= b@.len(),
    ensures
        r == spec_brush_model_at(b@, i as int),
{
    let n = b.len();
    BrushModel {
        min: parse_vector3(b, i),
        max: parse_vector3(b, i + 12),
        origin: parse_vector3(b, i + 24),
        head_node: read_u32_le(b, i + 36),
        first_face: read_u32_le(b, i + 40),
        num_faces: read_u32_le(b, i + 44),
    }
}

/// Decodes the brush-model lump; record `j` comes from bytes
/// `[48*j, 48*j+48)` of the lump's logical stream, whose length must be a
/// multiple of 48.
pub fn parse_bush_model(file: &[u8], lump: Lump) -> (r: Result<Vec<BrushModel>, BspError>)
    ensures
        match lump_data_of(file@, lump) {
            Option::Some(d) => {
                if (d.len() as int) % (BRUSH_MODEL_RECORD_SIZE as int) == 0 {
                    &&& r matches Ok(v)
                    &&& v@.len() * (BRUSH_MODEL_RECORD_SIZE as int) == d.len()
                    &&& forall|j: int|
                        0 <= j < v@.len() ==> v@[j] == spec_brush_model_at(
                            d,
                            (BRUSH_MODEL_RECORD_SIZE as int) * j,
                        )
                } else {
                    r == Err::<Vec<BrushModel>, BspError>(BspError::LumpSize)
                }
            },
            Option::None => r is Err,
        },
{
    let data = match read_lump_data(file, lump) {
        Ok(d) => d,
        Err(e) => { return Err(e) },
    };
    let dlen = data.len();
    if dlen % BRUSH_MODEL_RECORD_SIZE != 0 {
        return Err(BspError::LumpSize);
    }
    let mut out: Vec<BrushModel> = Vec::new();
    let mut pos: usize = 0;
    while pos < dlen
        invariant
            pos <= dlen,
            dlen == data@.len(),
            (dlen as int) % (BRUSH_MODEL_RECORD_SIZE as int) == 0,
            (pos as int) % (BRUSH_MODEL_RECORD_SIZE as int) == 0,
            out@.len() * (BRUSH_MODEL_RECORD_SIZE as int) == pos as int,
            forall|j: int|
                0 <= j < out@.len() ==> out@[j] == spec_brush_model_at(
                    data@,
                    (BRUSH_MODEL_RECORD_SIZE as int) * j,
                ),
        decreases dlen - pos,
    {
        proof {
            assert(pos + BRUSH_MODEL_RECORD_SIZE <= dlen) by (nonlinear_arith)
                requires
                    pos < dlen && (pos as int) % 48 == 0 && (dlen as int) % 48 == 0,
            ;
        }
        out.push(decode_brush_model(data.as_slice(), pos));
        pos = pos + BRUSH_MODEL_RECORD_SIZE;
    }
    Ok(out)
}

} // verus!
