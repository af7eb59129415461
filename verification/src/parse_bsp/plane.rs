//! The plane lump: one 20-byte record per plane.

use crate::bytes::le_u32_at;
use crate::bytes::parse_vector3;
use crate::bytes::read_u32_le;
use crate::bytes::vec3_at;
use crate::bytes::Vec3Bits;
use crate::error::BspError;
use crate::parse_bsp::parse_split_lump::lump_data_of;
use crate::parse_bsp::parse_split_lump::read_lump_data;
use crate::parse_bsp::Lump;
use vstd::prelude::*;

verus! {

/// A splitting plane: unit normal, signed distance from the origin, and the
/// dominant axis. The normal components and the distance are raw float bits.
#[derive(Copy, Clone, Debug)]
pub struct Plane {
    pub normal: Vec3Bits,
    pub distance: u32,
    pub axis: u32,
}

pub const PLANE_RECORD_SIZE: usize = 20;

/// The plane record stored at byte offset `i`.
pub open spec fn spec_plane_at(b: Seq<u8>, i: int) -> Plane {
    Plane { normal: vec3_at(b, i), distance: le_u32_at(b, i + 12), axis: le_u32_at(b, i + 16) }
}

fn decode_plane(b: &[u8], i: usize) -> (r: Plane)
    requires
        i + PLANE_RECORD_SIZE <= b@.len(),
    ensures
        r == spec_plane_at(b@, i as int),
{
    let n = b.len();
    Plane {
        normal: parse_vector3(b, i),
        distance: read_u32_le(b, i + 12),
        axis: read_u32_le(b, i + 16),
    }
}

/// Decodes the plane lump: its byte length must be an exact multiple of the
/// record size, and record `j` of the result is decoded from bytes
/// `[20*j, 20*j+20)` of the lump's logical stream.
pub fn parse_planes(file: &[u8], lump: Lump) -> (r: Result<Vec<Plane>, BspError>)
    ensures
        match lump_data_of(file@, lump) {
            Option::Some(d) => {
                if (d.len() as int) % (PLANE_RECORD_SIZE as int) == 0 {
                    &&& r matches Ok(v)
                    &&& v@.len() * (PLANE_RECORD_SIZE as int) == d.len()
                    &&& forall|j: int|
                        0 <= j < v@.len() ==> v@[j] == spec_plane_at(
                            d,
                            (PLANE_RECORD_SIZE as int) * j,
                        )
                } else {
                    r == Err::<Vec<Plane>, BspError>(BspError::LumpSize)
                }
            },
            Option::None => r is Err,
        },
{
    let data = match read_lump_data(file, lump) {
        Ok(d) => d,
        Err(e) => { return Err(e) },
    };
    let dlen = data.len();
    if dlen % PLANE_RECORD_SIZE != 0 {
        return Err(BspError::LumpSize);
    }
    let mut out: Vec<Plane> = Vec::new();
    let mut pos: usize = 0;
    while pos < dlen
        invariant
            pos <= dlen,
            dlen == data@.len(),
            (dlen as int) % (PLANE_RECORD_SIZE as int) == 0,
            (pos as int) % (PLANE_RECORD_SIZE as int) == 0,
            out@.len() * (PLANE_RECORD_SIZE as int) == pos as int,
            forall|j: int|
                0 <= j < out@.len() ==> out@[j] == spec_plane_at(
                    data@,
                    (PLANE_RECORD_SIZE as int) * j,
                ),
        decreases dlen - pos,
    {
        proof {
            assert(pos + PLANE_RECORD_SIZE <= dlen) by (nonlinear_arith)
                requires
                    pos < dlen && (pos as int) % 20 == 0 && (dlen as int) % 20 == 0,
            ;
        }
        out.push(decode_plane(data.as_slice(), pos));
        pos = pos + PLANE_RECORD_SIZE;
    }
    Ok(out)
}

} // verus!
