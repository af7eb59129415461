//! The face lump: one 56-byte record per face.

use crate::bytes::le_i16_at;
use crate::bytes::le_u16_at;
use crate::bytes::le_u32_at;
use crate::bytes::read_i16_le;
use crate::bytes::read_u16_le;
use crate::bytes::read_u32_le;
use crate::error::BspError;
use crate::parse_bsp::into_bool;
use crate::parse_bsp::parse_split_lump::lump_data_of;
use crate::parse_bsp::parse_split_lump::read_lump_data;
use crate::parse_bsp::Lump;
use vstd::prelude::*;

verus! {

/// A face: its plane, its edge loop inside the surface-edge array, its
/// texture info, and its displacement descriptor (-1 when the face is an
/// ordinary polygon). The `area` field carries raw float bits.
#[derive(Copy, Clone, Debug)]
pub struct Face {
    pub planenum: u16,
    pub side: bool,
    pub on_node: bool,
    pub first_edge: u32,
    pub num_edges: u16,
    pub tex_info: u16,
    pub displacement_info: i16,
    pub volume_id: u16,
    pub styles: [u8; 4],
    pub lightmap_offset: u32,
    pub area: u32,
    pub lightmap_texture_mins_in_luxels: [u32; 2],
    pub lightmap_texture_size_in_luxels: [u32; 2],
    pub original_face: u32,
    pub number_of_primitives: u16,
    pub first_primitive_id: u16,
    pub smoothing_groups: u32,
}

pub const FACE_RECORD_SIZE: usize = 56;

/// True when the two boolean bytes of the face record at offset `i` hold 0 or 1.
pub open spec fn spec_face_bytes_ok(b: Seq<u8>, i: int) -> bool {
    (b[i + 2] == 0 || b[i + 2] == 1) && (b[i + 3] == 0 || b[i + 3] == 1)
}

/// The face record stored at byte offset `i`.
pub open spec fn spec_face_at(b: Seq<u8>, i: int) -> Face {
    Face {
        planenum: le_u16_at(b, i),
        side: b[i + 2] == 1,
        on_node: b[i + 3] == 1,
        first_edge: le_u32_at(b, i + 4),
        num_edges: le_u16_at(b, i + 8),
        tex_info: le_u16_at(b, i + 10),
        displacement_info: le_i16_at(b, i + 12),
        volume_id: le_u16_at(b, i + 14),
        styles: [b[i + 16], b[i + 17], b[i + 18], b[i + 19]],
        lightmap_offset: le_u32_at(b, i + 20),
        area: le_u32_at(b, i + 24),
        lightmap_texture_mins_in_luxels: [le_u32_at(b, i + 28), le_u32_at(b, i + 32)],
        lightmap_texture_size_in_luxels: [le_u32_at(b, i + 36), le_u32_at(b, i + 40)],
        original_face: le_u32_at(b, i + 44),
        number_of_primitives: le_u16_at(b, i + 48),
        first_primitive_id: le_u16_at(b, i + 50),
        smoothing_groups: le_u32_at(b, i + 52),
    }
}

fn decode_face(b: &[u8], i: usize) -> (r: Result<Face, BspError>)
    requires
        i + FACE_RECORD_SIZE <= b@.len(),
    ensures
        spec_face_bytes_ok(b@, i as int) ==> (r matches Ok(f) && f == spec_face_at(b@, i as int)),
        !spec_face_bytes_ok(b@, i as int) ==> r == Err::<Face, BspError>(BspError::BadBool),
{
    let n = b.len();
    let side = match into_bool(b[i + 2]) {
        Ok(v) => v,
        Err(e) => { return Err(e) },
    };
    let on_node = match into_bool(b[i + 3]) {
        Ok(v) => v,
        Err(e) => { return Err(e) },
    };
    Ok(
        Face {
            planenum: read_u16_le(b, i),
            side,
            on_node,
            first_edge: read_u32_le(b, i + 4),
            num_edges: read_u16_le(b, i + 8),
            tex_info: read_u16_le(b, i + 10),
            displacement_info: read_i16_le(b, i + 12),
            volume_id: read_u16_le(b, i + 14),
            styles: [b[i + 16], b[i + 17], b[i + 18], b[i + 19]],
            lightmap_offset: read_u32_le(b, i + 20),
            area: read_u32_le(b, i + 24),
            lightmap_texture_mins_in_luxels: [read_u32_le(b, i + 28), read_u32_le(b, i + 32)],
            lightmap_texture_size_in_luxels: [read_u32_le(b, i + 36), read_u32_le(b, i + 40)],
            original_face: read_u32_le(b, i + 44),
            number_of_primitives: read_u16_le(b, i + 48),
            first_primitive_id: read_u16_le(b, i + 50),
            smoothing_groups: read_u32_le(b, i + 52),
        },
    )
}

/// Decodes the face lump; record `j` comes from bytes `[56*j, 56*j+56)` of
/// the lump's logical stream, whose length must be a multiple of 56. The two
/// boolean bytes of every record must hold 0 or 1.
#[verifier::rlimit(60)]
pub fn parse_faces(file: &[u8], lump: Lump) -> (r: Result<Vec<Face>, BspError>)
    ensures
        match lump_data_of(file@, lump) {
            Option::Some(d) => {
                if (d.len() as int) % (FACE_RECORD_SIZE as int) != 0 {
                    r == Err::<Vec<Face>, BspError>(BspError::LumpSize)
                } else if forall|j: int|
                    0 <= j && (FACE_RECORD_SIZE as int) * j < d.len()
                        ==> #[trigger] spec_face_bytes_ok(d, (FACE_RECORD_SIZE as int) * j) {
                    &&& r matches Ok(v)
                    &&& v@.len() * (FACE_RECORD_SIZE as int) == d.len()
                    &&& forall|j: int|
                        0 <= j < v@.len() ==> v@[j] == spec_face_at(d, (FACE_RECORD_SIZE as int) * j)
                } else {
                    r == Err::<Vec<Face>, BspError>(BspError::BadBool)
                }
            },
            Option::None => r is Err,
        },
{
    let data = match read_lump_data(file, lump) {
        Ok(d) => d,
        Err(e) => { return Err(e) },
    };
    let dlen = data.len();
    if dlen % FACE_RECORD_SIZE != 0 {
        return Err(BspError::LumpSize);
    }
    let mut out: Vec<Face> = Vec::new();
    let mut pos: usize = 0;
    while pos < dlen
        invariant
            pos <= dlen,
            dlen == data@.len(),
            lump_data_of(file@, lump) == Some(data@),
            (dlen as int) % (FACE_RECORD_SIZE as int) == 0,
            (pos as int) % (FACE_RECORD_SIZE as int) == 0,
            out@.len() * (FACE_RECORD_SIZE as int) == pos as int,
            forall|j: int|
                0 <= j < out@.len() ==> out@[j] == spec_face_at(
                    data@,
                    (FACE_RECORD_SIZE as int) * j,
                ),
            forall|j: int|
                0 <= j < out@.len() ==> #[trigger] spec_face_bytes_ok(
                    data@,
                    (FACE_RECORD_SIZE as int) * j,
                ),
        decreases dlen - pos,
    {
        proof {
            assert(pos + FACE_RECORD_SIZE <= dlen) by (nonlinear_arith)
                requires
                    pos < dlen && (pos as int) % 56 == 0 && (dlen as int) % 56 == 0,
            ;
        }
        let ghost record_index: int = out@.len() as int;
        match decode_face(data.as_slice(), pos) {
            Ok(f) => {
                out.push(f);
            },
            Err(e) => {
                proof {
                    assert((FACE_RECORD_SIZE as int) * record_index == pos as int);
                    assert(!spec_face_bytes_ok(data@, (FACE_RECORD_SIZE as int) * record_index));
                }
                return Err(e);
            },
        }
        pos = pos + FACE_RECORD_SIZE;
    }
    Ok(out)
}

} // verus!
