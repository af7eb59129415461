//! The vertex lump: one 12-byte raw position per record.

use crate::bytes::parse_vector3;
use crate::bytes::vec3_at;
use crate::bytes::Vec3Bits;
use crate::error::BspError;
use crate::parse_bsp::parse_split_lump::lump_data_of;
use crate::parse_bsp::parse_split_lump::read_lump_data;
use crate::parse_bsp::Lump;
use vstd::prelude::*;

verus! {

/// A raw 3D position in source coordinate space, as float bit patterns.
#[derive(Copy, Clone, Debug, PartialEq, Eq, Structural)]
pub struct Vertex(pub Vec3Bits);

pub const VERTEX_RECORD_SIZE: usize = 12;

/// The vertex record stored at byte offset `i`.
pub open spec fn spec_vertex_at(b: Seq<u8>, i: int) -> Vertex {
    Vertex(vec3_at(b, i))
}

/// Decodes the vertex lump; record `j` comes from bytes `[12*j, 12*j+12)` of
/// the lump's logical stream, whose length must be a multiple of 12.
pub fn parse_vertices(file: &[u8], lump: Lump) -> (r: Result<Vec<Vertex>, BspError>)
    ensures
        match lump_data_of(file@, lump) {
            Option::Some(d) => {
                if (d.len() as int) % (VERTEX_RECORD_SIZE as int) == 0 {
                    &&& r matches Ok(v)
                    &&& v@.len() * (VERTEX_RECORD_SIZE as int) == d.len()
                    &&& forall|j: int|
                        0 <= j < v@.len() ==> v@[j] == spec_vertex_at(
                            d,
                            (VERTEX_RECORD_SIZE as int) * j,
                        )
                } else {
                    r == Err::<Vec<Vertex>, BspError>(BspError::LumpSize)
                }
            },
            Option::None => r is Err,
        },
{
    let data = match read_lump_data(file, lump) {
        Ok(d) => d,
        Err(e) => { return Err(e) },
    };
    let dlen = data.len();
    if dlen % VERTEX_RECORD_SIZE != 0 {
        return Err(BspError::LumpSize);
    }
    let mut out: Vec<Vertex> = Vec::new();
    let mut pos: usize = 0;
    while pos < dlen
        invariant
            pos <= dlen,
            dlen == data@.len(),
            (dlen as int) % (VERTEX_RECORD_SIZE as int) == 0,
            (pos as int) % (VERTEX_RECORD_SIZE as int) == 0,
            out@.len() * (VERTEX_RECORD_SIZE as int) == pos as int,
            forall|j: int|
                0 <= j < out@.len() ==> out@[j] == spec_vertex_at(
                    data@,
                    (VERTEX_RECORD_SIZE as int) * j,
                ),
        decreases dlen - pos,
    {
        proof {
            assert(pos + VERTEX_RECORD_SIZE <= dlen) by (nonlinear_arith)
                requires
                    pos < dlen && (pos as int) % 12 == 0 && (dlen as int) % 12 == 0,
            ;
        }
        out.push(Vertex(parse_vector3(data.as_slice(), pos)));
        pos = pos + VERTEX_RECORD_SIZE;
    }
    Ok(out)
}

} // verus!
