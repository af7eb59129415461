//! The edge lump: one 4-byte pair of vertex indices per record.

use crate::bytes::le_u16_at;
use crate::bytes::read_u16_le;
use crate::error::BspError;
use crate::parse_bsp::parse_split_lump::lump_data_of;
use crate::parse_bsp::parse_split_lump::read_lump_data;
use crate::parse_bsp::Lump;
use vstd::prelude::*;

verus! {

/// A pair of vertex indices. Faces reference edges through signed surface
/// edges, whose sign selects the traversal direction.
#[derive(Copy, Clone, Eq, PartialEq, Structural, Debug)]
pub struct Edge {
    pub first: u16,
    pub second: u16,
}

impl Edge {
    /// The same edge walked in the opposite direction.
    pub fn reverse(self) -> (r: Self)
        ensures
            r.first == self.second,
            r.second == self.first,
    {
        Edge { first: self.second, second: self.first }
    }
}

pub const EDGE_RECORD_SIZE: usize = 4;

/// The edge record stored at byte offset `i`.
pub open spec fn spec_edge_at(b: Seq<u8>, i: int) -> Edge {
    Edge { first: le_u16_at(b, i), second: le_u16_at(b, i + 2) }
}

/// The endpoint swap of an edge.
pub open spec fn spec_edge_reverse(e: Edge) -> Edge {
    Edge { first: e.second, second: e.first }
}

/// Decodes the edge lump; record `j` comes from bytes `[4*j, 4*j+4)` of the
/// lump's logical stream, whose length must be a multiple of 4.
pub fn parse_edges(file: &[u8], lump: Lump) -> (r: Result<Vec<Edge>, BspError>)
    ensures
        match lump_data_of(file@, lump) {
            Option::Some(d) => {
                if (d.len() as int) % (EDGE_RECORD_SIZE as int) == 0 {
                    &&& r matches Ok(v)
                    &&& v@.len() * (EDGE_RECORD_SIZE as int) == d.len()
                    &&& forall|j: int|
                        0 <= j < v@.len() ==> v@[j] == spec_edge_at(d, (EDGE_RECORD_SIZE as int) * j)
                } else {
                    r == Err::<Vec<Edge>, BspError>(BspError::LumpSize)
                }
            },
            Option::None => r is Err,
        },
{
    let data = match read_lump_data(file, lump) {
        Ok(d) => d,
        Err(e) => { return Err(e) },
    };
    let dlen = data.len();
    if dlen % EDGE_RECORD_SIZE != 0 {
        return Err(BspError::LumpSize);
    }
    let mut out: Vec<Edge> = Vec::new();
    let mut pos: usize = 0;
    while pos < dlen
        invariant
            pos <= dlen,
            dlen == data@.len(),
            (dlen as int) % (EDGE_RECORD_SIZE as int) == 0,
            (pos as int) % (EDGE_RECORD_SIZE as int) == 0,
            out@.len() * (EDGE_RECORD_SIZE as int) == pos as int,
            forall|j: int|
                0 <= j < out@.len() ==> out@[j] == spec_edge_at(
                    data@,
                    (EDGE_RECORD_SIZE as int) * j,
                ),
        decreases dlen - pos,
    {
        proof {
            assert(pos + EDGE_RECORD_SIZE <= dlen) by (nonlinear_arith)
                requires
                    pos < dlen && (pos as int) % 4 == 0 && (dlen as int) % 4 == 0,
            ;
        }
        let first = read_u16_le(data.as_slice(), pos);
        let second = read_u16_le(data.as_slice(), pos + 2);
        out.push(Edge { first, second });
        pos = pos + EDGE_RECORD_SIZE;
    }
    Ok(out)
}

} // verus!
