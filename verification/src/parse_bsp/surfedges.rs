//! The surface-edge lump: one signed 32-bit edge reference per record.

use crate::bytes::le_i32_at;
use crate::bytes::read_i32_le;
use crate::error::BspError;
use crate::parse_bsp::parse_split_lump::lump_data_of;
use crate::parse_bsp::parse_split_lump::read_lump_data;
use crate::parse_bsp::Lump;
use vstd::prelude::*;

verus! {

/// A signed reference into the edge array: the absolute value indexes an
/// edge, and a non-positive sign walks that edge with its endpoints swapped.
#[derive(Copy, Clone, Eq, PartialEq, Structural, Debug)]
pub struct SurfEdge(pub i32);

pub const SURF_EDGE_RECORD_SIZE: usize = 4;

/// The surface-edge record stored at byte offset `i`.
pub open spec fn spec_surf_edge_at(b: Seq<u8>, i: int) -> SurfEdge {
    SurfEdge(le_i32_at(b, i))
}

/// Decodes the surface-edge lump; record `j` comes from bytes `[4*j, 4*j+4)`
/// of the lump's logical stream, whose length must be a multiple of 4.
pub fn parse_surf_edges(file: &[u8], lump: Lump) -> (r: Result<Vec<SurfEdge>, BspError>)
    ensures
        match lump_data_of(file@, lump) {
            Option::Some(d) => {
                if (d.len() as int) % (SURF_EDGE_RECORD_SIZE as int) == 0 {
                    &&& r matches Ok(v)
                    &&& v@.len() * (SURF_EDGE_RECORD_SIZE as int) == d.len()
                    &&& forall|j: int|
                        0 <= j < v@.len() ==> v@[j] == spec_surf_edge_at(
                            d,
                            (SURF_EDGE_RECORD_SIZE as int) * j,
                        )
                } else {
                    r == Err::<Vec<SurfEdge>, BspError>(BspError::LumpSize)
                }
            },
            Option::None => r is Err,
        },
{
    let data = match read_lump_data(file, lump) {
        Ok(d) => d,
        Err(e) => { return Err(e) },
    };
    let dlen = data.len();
    if dlen % SURF_EDGE_RECORD_SIZE != 0 {
        return Err(BspError::LumpSize);
    }
    let mut out: Vec<SurfEdge> = Vec::new();
    let mut pos: usize = 0;
    while pos < dlen
        invariant
            pos <= dlen,
            dlen == data@.len(),
            (dlen as int) % (SURF_EDGE_RECORD_SIZE as int) == 0,
            (pos as int) % (SURF_EDGE_RECORD_SIZE as int) == 0,
            out@.len() * (SURF_EDGE_RECORD_SIZE as int) == pos as int,
            forall|j: int|
                0 <= j < out@.len() ==> out@[j] == spec_surf_edge_at(
                    data@,
                    (SURF_EDGE_RECORD_SIZE as int) * j,
                ),
        decreases dlen - pos,
    {
        proof {
            assert(pos + SURF_EDGE_RECORD_SIZE <= dlen) by (nonlinear_arith)
                requires
                    pos < dlen && (pos as int) % 4 == 0 && (dlen as int) % 4 == 0,
            ;
        }
        out.push(SurfEdge(read_i32_le(data.as_slice(), pos)));
        pos = pos + SURF_EDGE_RECORD_SIZE;
    }
    Ok(out)
}

} // verus!
