//! The visibility node and leaf lumps: 32-byte records describing the BSP
//! tree. They are decoded for completeness; the geometry pipeline does not
//! traverse the tree.

use crate::bytes::le_i32_at;
use crate::bytes::le_u16_at;
use crate::bytes::le_u32_at;
use crate::bytes::read_i32_le;
use crate::bytes::read_u16_le;
use crate::bytes::read_u32_le;
use crate::error::BspError;
use crate::parse_bsp::parse_split_lump::lump_data_of;
use crate::parse_bsp::parse_split_lump::read_lump_data;
use crate::parse_bsp::Lump;
use vstd::prelude::*;

verus! {

/// An interior node of the BSP tree.
#[derive(Copy, Clone, Debug)]
pub struct VisNode {
    pub plane_id: u32,
    pub children: [i32; 2],
    pub min: [u16; 3],
    pub max: [u16; 3],
    pub first_face: u16,
    pub num_faces: u16,
    pub area: u16,
    pub padding: u16,
}

pub const VIS_NODE_RECORD_SIZE: usize = 32;

/// The visibility-node record stored at byte offset `i`.
pub open spec fn spec_vis_node_at(b: Seq<u8>, i: int) -> VisNode {
    VisNode {
        plane_id: le_u32_at(b, i),
        children: [le_i32_at(b, i + 4), le_i32_at(b, i + 8)],
        min: [le_u16_at(b, i + 12), le_u16_at(b, i + 14), le_u16_at(b, i + 16)],
        max: [le_u16_at(b, i + 18), le_u16_at(b, i + 20), le_u16_at(b, i + 22)],
        first_face: le_u16_at(b, i + 24),
        num_faces: le_u16_at(b, i + 26),
        area: le_u16_at(b, i + 28),
        padding: le_u16_at(b, i + 30),
    }
}

fn decode_vis_node(b: &[u8], i: usize) -> (r: VisNode)
    requires
        i + VIS_NODE_RECORD_SIZE <= b@.len(),
    ensures
        r == spec_vis_node_at(b@, i as int),
{
    let n = b.len();
    VisNode {
        plane_id: read_u32_le(b, i),
        children: [read_i32_le(b, i + 4), read_i32_le(b, i + 8)],
        min: [read_u16_le(b, i + 12), read_u16_le(b, i + 14), read_u16_le(b, i + 16)],
        max: [read_u16_le(b, i + 18), read_u16_le(b, i + 20), read_u16_le(b, i + 22)],
        first_face: read_u16_le(b, i + 24),
        num_faces: read_u16_le(b, i + 26),
        area: read_u16_le(b, i + 28),
        padding: read_u16_le(b, i + 30),
    }
}

/// Decodes the visibility-node lump; record `j` comes from bytes
/// `[32*j, 32*j+32)` of the lump's logical stream, whose length must be a
/// multiple of 32.
pub fn parse_vis_node(file: &[u8], lump: Lump) -> (r: Result<Vec<VisNode>, BspError>)
    ensures
        match lump_data_of(file@, lump) {
            Option::Some(d) => {
                if (d.len() as int) % (VIS_NODE_RECORD_SIZE as int) == 0 {
                    &&& r matches Ok(v)
                    &&& v@.len() * (VIS_NODE_RECORD_SIZE as int) == d.len()
                    &&& forall|j: int|
                        0 <= j < v@.len() ==> v@[j] == spec_vis_node_at(
                            d,
                            (VIS_NODE_RECORD_SIZE as int) * j,
                        )
                } else {
                    r == Err::<Vec<VisNode>, BspError>(BspError::LumpSize)
                }
            },
            Option::None => r is Err,
        },
{
    let data = match read_lump_data(file, lump) {
        Ok(d) => d,
        Err(e) => { return Err(e) },
    };
    let dlen = data.len();
    if dlen % VIS_NODE_RECORD_SIZE != 0 {
        return Err(BspError::LumpSize);
    }
    let mut out: Vec<VisNode> = Vec::new();
    let mut pos: usize = 0;
    while pos < dlen
        invariant
            pos <= dlen,
            dlen == data@.len(),
            (dlen as int) % (VIS_NODE_RECORD_SIZE as int) == 0,
            (pos as int) % (VIS_NODE_RECORD_SIZE as int) == 0,
            out@.len() * (VIS_NODE_RECORD_SIZE as int) == pos as int,
            forall|j: int|
                0 <= j < out@.len() ==> out@[j] == spec_vis_node_at(
                    data@,
                    (VIS_NODE_RECORD_SIZE as int) * j,
                ),
        decreases dlen - pos,
    {
        proof {
            assert(pos + VIS_NODE_RECORD_SIZE <= dlen) by (nonlinear_arith)
                requires
                    pos < dlen && (pos as int) % 32 == 0 && (dlen as int) % 32 == 0,
            ;
        }
        out.push(decode_vis_node(data.as_slice(), pos));
        pos = pos + VIS_NODE_RECORD_SIZE;
    }
    Ok(out)
}

/// A leaf of the BSP tree.
#[derive(Copy, Clone, Debug)]
pub struct VisLeaf {
    pub contents: u32,
    pub cluster: u16,
    pub area_and_flags: u16,
    pub min: [u16; 3],
    pub max: [u16; 3],
    pub first_leaf_face: u16,
    pub num_leaf_faces: u16,
    pub first_leaf_brush: u16,
    pub num_leaf_brushes: u16,
    pub water_data: u16,
    pub padding: u16,
}

pub const VIS_LEAF_RECORD_SIZE: usize = 32;

/// The visibility-leaf record stored at byte offset `i`.
pub open spec fn spec_vis_leaf_at(b: Seq<u8>, i: int) -> VisLeaf {
    VisLeaf {
        contents: le_u32_at(b, i),
        cluster: le_u16_at(b, i + 4),
        area_and_flags: le_u16_at(b, i + 6),
        min: [le_u16_at(b, i + 8), le_u16_at(b, i + 10), le_u16_at(b, i + 12)],
        max: [le_u16_at(b, i + 14), le_u16_at(b, i + 16), le_u16_at(b, i + 18)],
        first_leaf_face: le_u16_at(b, i + 20),
        num_leaf_faces: le_u16_at(b, i + 22),
        first_leaf_brush: le_u16_at(b, i + 24),
        num_leaf_brushes: le_u16_at(b, i + 26),
        water_data: le_u16_at(b, i + 28),
        padding: le_u16_at(b, i + 30),
    }
}

fn decode_vis_leaf(b: &[u8], i: usize) -> (r: VisLeaf)
    requires
        i + VIS_LEAF_RECORD_SIZE <= b@.len(),
    ensures
        r == spec_vis_leaf_at(b@, i as int),
{
    let n = b.len();
    VisLeaf {
        contents: read_u32_le(b, i),
        cluster: read_u16_le(b, i + 4),
        area_and_flags: read_u16_le(b, i + 6),
        min: [read_u16_le(b, i + 8), read_u16_le(b, i + 10), read_u16_le(b, i + 12)],
        max: [read_u16_le(b, i + 14), read_u16_le(b, i + 16), read_u16_le(b, i + 18)],
        first_leaf_face: read_u16_le(b, i + 20),
        num_leaf_faces: read_u16_le(b, i + 22),
        first_leaf_brush: read_u16_le(b, i + 24),
        num_leaf_brushes: read_u16_le(b, i + 26),
        water_data: read_u16_le(b, i + 28),
        padding: read_u16_le(b, i + 30),
    }
}

/// Decodes the visibility-leaf lump; record `j` comes from bytes
/// `[32*j, 32*j+32)` of the lump's logical stream, whose length must be a
/// multiple of 32.
pub fn parse_vis_leaf(file: &[u8], lump: Lump) -> (r: Result<Vec<VisLeaf>, BspError>)
    ensures
        match lump_data_of(file@, lump) {
            Option::Some(d) => {
                if (d.len() as int) % (VIS_LEAF_RECORD_SIZE as int) == 0 {
                    &&& r matches Ok(v)
                    &&& v@.len() * (VIS_LEAF_RECORD_SIZE as int) == d.len()
                    &&& forall|j: int|
                        0 <= j < v@.len() ==> v@[j] == spec_vis_leaf_at(
                            d,
                            (VIS_LEAF_RECORD_SIZE as int) * j,
                        )
                } else {
                    r == Err::<Vec<VisLeaf>, BspError>(BspError::LumpSize)
                }
            },
            Option::None => r is Err,
        },
{
    let data = match read_lump_data(file, lump) {
        Ok(d) => d,
        Err(e) => { return Err(e) },
    };
    let dlen = data.len();
    if dlen % VIS_LEAF_RECORD_SIZE != 0 {
        return Err(BspError::LumpSize);
    }
    let mut out: Vec<VisLeaf> = Vec::new();
    let mut pos: usize = 0;
    while pos < dlen
        invariant
            pos <= dlen,
            dlen == data@.len(),
            (dlen as int) % (VIS_LEAF_RECORD_SIZE as int) == 0,
            (pos as int) % (VIS_LEAF_RECORD_SIZE as int) == 0,
            out@.len() * (VIS_LEAF_RECORD_SIZE as int) == pos as int,
            forall|j: int|
                0 <= j < out@.len() ==> out@[j] == spec_vis_leaf_at(
                    data@,
                    (VIS_LEAF_RECORD_SIZE as int) * j,
                ),
        decreases dlen - pos,
    {
        proof {
            assert(pos + VIS_LEAF_RECORD_SIZE <= dlen) by (nonlinear_arith)
                requires
                    pos < dlen && (pos as int) % 32 == 0 && (dlen as int) % 32 == 0,
            ;
        }
        out.push(decode_vis_leaf(data.as_slice(), pos));
        pos = pos + VIS_LEAF_RECORD_SIZE;
    }
    Ok(out)
}

} // verus!
