//! Decoding of the BSP container: the lump directory, transparent lump
//! decompression, the typed record arrays, and reconstruction of renderable
//! triangle geometry grouped by material category.

use crate::bytes::le_u32_at;
use crate::bytes::read_u32_le;
use crate::error::BspError;
use crate::parse_bsp::brush_model::spec_brush_model_at;
use crate::parse_bsp::brush_model::BrushModel;
use crate::parse_bsp::displacement::spec_displacement_info_at;
use crate::parse_bsp::displacement::spec_displacement_vertex_at;
use crate::parse_bsp::displacement::DisplacementInfo;
use crate::parse_bsp::displacement::DisplacementVertex;
use crate::parse_bsp::edge::spec_edge_at;
use crate::parse_bsp::edge::Edge;
use crate::parse_bsp::face::spec_face_at;
use crate::parse_bsp::face::spec_face_bytes_ok;
use crate::parse_bsp::face::Face;
use crate::parse_bsp::parse_split_lump::lump_data_of;
use crate::parse_bsp::plane::spec_plane_at;
use crate::parse_bsp::plane::Plane;
use crate::parse_bsp::surfedges::spec_surf_edge_at;
use crate::parse_bsp::surfedges::SurfEdge;
use crate::parse_bsp::texdata::spec_texture_data_at;
use crate::parse_bsp::texdata::TextureData;
use crate::parse_bsp::texinfo::spec_texture_info_at;
use crate::parse_bsp::texinfo::TextureInfo;
use crate::parse_bsp::texture_string_array::spec_texture_string_at;
use crate::parse_bsp::texture_string_array::TextureDataStringArray;
use crate::parse_bsp::texture_string_array::TextureString;
use crate::parse_bsp::vertex::spec_vertex_at;
use crate::parse_bsp::vertex::Vertex;
use vstd::prelude::*;

pub mod brush_model;
pub mod bsp_to_primitives;
pub mod displacement;
pub mod edge;
pub mod face;
pub mod lump_names;
pub mod parse_split_lump;
pub mod plane;
pub mod surfedges;
pub mod texdata;
pub mod texinfo;
pub mod texture_string_array;
pub mod vertex;
pub mod vis_node_leaf;

verus! {

/// Number of entries in the lump directory.
pub const HEADER_LUMPS: usize = 64;

/// 4-byte magic tag of the file header, read little-endian.
pub const BSP_MAGIC: u32 = 0x5053_4256;

/// One entry of the lump directory: a named, offset+length addressed region
/// of the file. A non-zero `id` marks the lump as LZMA-compressed.
#[derive(Copy, Clone, Eq, PartialEq, Debug)]
pub struct Lump {
    pub offset: u32,
    pub length: u32,
    pub version: u32,
    pub id: [u8; 4],
}

impl Lump {
    /// A lump with an all-zero compression tag is stored as plain bytes.
    pub open spec fn spec_is_compressed(self) -> bool {
        !(self.id[0] == 0 && self.id[1] == 0 && self.id[2] == 0 && self.id[3] == 0)
    }

    pub fn is_compressed(self) -> (r: bool)
        ensures
            r == self.spec_is_compressed(),
    {
        !(self.id[0] == 0 && self.id[1] == 0 && self.id[2] == 0 && self.id[3] == 0)
    }
}

/// Interprets a byte that should encode a boolean; any value other than 0 or
/// 1 marks the record as malformed.
pub fn into_bool(x: u8) -> (r: Result<bool, BspError>)
    ensures
        x == 0 ==> r == Ok::<bool, BspError>(false),
        x == 1 ==> r == Ok::<bool, BspError>(true),
        x >= 2 ==> r == Err::<bool, BspError>(BspError::BadBool),
{
    match x {
        0 => Ok(false),
        1 => Ok(true),
        _ => Err(BspError::BadBool),
    }
}

/// The 16-byte directory entry stored at offset `i`.
pub open spec fn spec_lump_at(b: Seq<u8>, i: int) -> Lump {
    Lump {
        offset: le_u32_at(b, i),
        length: le_u32_at(b, i + 4),
        version: le_u32_at(b, i + 8),
        id: [b[i + 12], b[i + 13], b[i + 14], b[i + 15]],
    }
}

pub fn read_lump(b: &[u8], i: usize) -> (r: Lump)
    requires
        i + 16 <= b@.len(),
    ensures
        r == spec_lump_at(b@, i as int),
{
    let n = b.len();
    Lump {
        offset: read_u32_le(b, i),
        length: read_u32_le(b, i + 4),
        version: read_u32_le(b, i + 8),
        id: [b[i + 12], b[i + 13], b[i + 14], b[i + 15]],
    }
}

/// True when the file is long enough for the 8-byte header plus the 64-entry
/// directory and carries the right magic tag.
pub open spec fn spec_header_ok(b: Seq<u8>) -> bool {
    b.len() >= 1032 && le_u32_at(b, 0) == BSP_MAGIC
}

/// Reads the 8-byte file header (magic tag plus format version) and the
/// 64-entry lump directory that follows it.
pub fn read_header(b: &[u8]) -> (r: Result<(u32, Vec<Lump>), BspError>)
    ensures
        r is Ok <==> spec_header_ok(b@),
        b@.len() < 1032 ==> r == Err::<(u32, Vec<Lump>), BspError>(BspError::Truncated),
        b@.len() >= 1032 && le_u32_at(b@, 0) != BSP_MAGIC ==> r == Err::<(u32, Vec<Lump>), BspError>(
            BspError::BadMagic,
        ),
        r matches Ok(p) ==> {
            &&& p.0 == le_u32_at(b@, 4)
            &&& p.1@.len() == 64
            &&& forall|i: int| 0 <= i < 64 ==> p.1@[i] == spec_lump_at(b@, 8 + 16 * i)
        },
{
    let n = b.len();
    if n < 1032 {
        return Err(BspError::Truncated);
    }
    let ident = read_u32_le(b, 0);
    if ident != BSP_MAGIC {
        return Err(BspError::BadMagic);
    }
    let version = read_u32_le(b, 4);
    let mut lumps: Vec<Lump> = Vec::new();
    let mut i: usize = 0;
    while i < HEADER_LUMPS
        invariant
            i <= 64,
            n == b@.len(),
            n >= 1032,
            lumps@.len() == i,
            forall|j: int| 0 <= j < i ==> lumps@[j] == spec_lump_at(b@, 8 + 16 * j),
        decreases 64 - i,
    {
        lumps.push(read_lump(b, 8 + 16 * i));
        i = i + 1;
    }
    Ok((version, lumps))
}

/// The directory entry of lump kind `k`.
pub open spec fn spec_lump_of(file: Seq<u8>, k: int) -> Lump {
    spec_lump_at(file, 8 + 16 * k)
}

/// The logical byte stream of lump kind `k`.
pub open spec fn lump_stream_of(file: Seq<u8>, k: int) -> Option<Seq<u8>> {
    lump_data_of(file, spec_lump_of(file, k))
}

/// True when lump kind `k` yields a stream whose length is an exact multiple
/// of `size`.
pub open spec fn array_lump_ok(file: Seq<u8>, k: int, size: int) -> bool {
    match lump_stream_of(file, k) {
        Option::Some(d) => (d.len() as int) % size == 0,
        Option::None => false,
    }
}

/// The record array decoded from stream `d`: one record of `size` bytes per
/// position, decoded by `f` at its byte offset.
pub open spec fn records_of<T>(d: Seq<u8>, size: int, f: spec_fn(Seq<u8>, int) -> T) -> Seq<T> {
    Seq::new(((d.len() as int) / size) as nat, |j: int| f(d, size * j))
}

/// True when the face lump decodes: exact record multiple and well-formed
/// boolean bytes in every record.
pub open spec fn faces_lump_ok(file: Seq<u8>) -> bool {
    match lump_stream_of(file, lump_names::LUMP_FACES as int) {
        Option::Some(d) => (d.len() as int) % 56 == 0 && (forall|j: int|
            0 <= j && 56 * j < d.len() ==> #[trigger] spec_face_bytes_ok(d, 56 * j)),
        Option::None => false,
    }
}

/// True when the whole container decodes: valid header, and every lump that
/// feeds the geometry pipeline yields a stream of exact record multiples.
pub open spec fn spec_bsp_ok(file: Seq<u8>) -> bool {
    &&& spec_header_ok(file)
    &&& faces_lump_ok(file)
    &&& array_lump_ok(file, lump_names::LUMP_PLANES as int, 20)
    &&& array_lump_ok(file, lump_names::LUMP_VERTEXES as int, 12)
    &&& array_lump_ok(file, lump_names::LUMP_EDGES as int, 4)
    &&& array_lump_ok(file, lump_names::LUMP_SURFEDGES as int, 4)
    &&& array_lump_ok(file, lump_names::LUMP_TEXINFO as int, 72)
    &&& array_lump_ok(file, lump_names::LUMP_TEXDATA as int, 32)
    &&& lump_stream_of(file, lump_names::LUMP_TEXDATA_STRING_DATA as int) is Some
    &&& array_lump_ok(file, lump_names::LUMP_TEXDATA_STRING_TABLE as int, 4)
    &&& array_lump_ok(file, lump_names::LUMP_DISPINFO as int, 176)
    &&& array_lump_ok(file, lump_names::LUMP_DISP_VERTS as int, 20)
    &&& array_lump_ok(file, lump_names::LUMP_MODELS as int, 48)
}

/// All typed record arrays of the container that feed the geometry pipeline,
/// each in on-disk order so that array position equals the index other lumps
/// reference.
pub struct ParsedBspFile {
    pub faces: Vec<Face>,
    pub planes: Vec<Plane>,
    pub vertexes: Vec<Vertex>,
    pub edges: Vec<Edge>,
    pub surface_edges: Vec<SurfEdge>,
    pub texture_infos: Vec<TextureInfo>,
    pub texture_data: Vec<TextureData>,
    pub texture_string_array: TextureDataStringArray,
    pub texture_string_table: Vec<TextureString>,
    pub displacement_info: Vec<DisplacementInfo>,
    pub displacement_vertexes: Vec<DisplacementVertex>,
    pub brush_models: Vec<BrushModel>,
}

/// Decodes every lump the geometry pipeline needs from the raw container
/// bytes. Succeeds exactly on containers with a valid header whose needed
/// lumps all decode; the caller owns reading the file and everything that
/// follows decoding.
#[verifier::rlimit(80)]
pub fn parse_bsp(file: &[u8]) -> (r: Result<ParsedBspFile, BspError>)
    ensures
        r is Ok <==> spec_bsp_ok(file@),
        file@.len() < 1032 ==> r == Err::<ParsedBspFile, BspError>(BspError::Truncated),
        file@.len() >= 1032 && le_u32_at(file@, 0) != BSP_MAGIC ==> r == Err::<
            ParsedBspFile,
            BspError,
        >(BspError::BadMagic),
        r matches Ok(p) ==> {
            &&& p.faces@ == records_of(
                lump_stream_of(file@, lump_names::LUMP_FACES as int).unwrap(),
                56,
                |d: Seq<u8>, i: int| spec_face_at(d, i),
            )
            &&& p.planes@ == records_of(
                lump_stream_of(file@, lump_names::LUMP_PLANES as int).unwrap(),
                20,
                |d: Seq<u8>, i: int| spec_plane_at(d, i),
            )
            &&& p.vertexes@ == records_of(
                lump_stream_of(file@, lump_names::LUMP_VERTEXES as int).unwrap(),
                12,
                |d: Seq<u8>, i: int| spec_vertex_at(d, i),
            )
            &&& p.edges@ == records_of(
                lump_stream_of(file@, lump_names::LUMP_EDGES as int).unwrap(),
                4,
                |d: Seq<u8>, i: int| spec_edge_at(d, i),
            )
            &&& p.surface_edges@ == records_of(
                lump_stream_of(file@, lump_names::LUMP_SURFEDGES as int).unwrap(),
                4,
                |d: Seq<u8>, i: int| spec_surf_edge_at(d, i),
            )
            &&& p.texture_infos@ == records_of(
                lump_stream_of(file@, lump_names::LUMP_TEXINFO as int).unwrap(),
                72,
                |d: Seq<u8>, i: int| spec_texture_info_at(d, i),
            )
            &&& p.texture_data@ == records_of(
                lump_stream_of(file@, lump_names::LUMP_TEXDATA as int).unwrap(),
                32,
                |d: Seq<u8>, i: int| spec_texture_data_at(d, i),
            )
            &&& Some(p.texture_string_array.0@) == lump_stream_of(
                file@,
                lump_names::LUMP_TEXDATA_STRING_DATA as int,
            )
            &&& p.texture_string_table@ == records_of(
                lump_stream_of(file@, lump_names::LUMP_TEXDATA_STRING_TABLE as int).unwrap(),
                4,
                |d: Seq<u8>, i: int| spec_texture_string_at(d, i),
            )
            &&& p.displacement_info@ == records_of(
                lump_stream_of(file@, lump_names::LUMP_DISPINFO as int).unwrap(),
                176,
                |d: Seq<u8>, i: int| spec_displacement_info_at(d, i),
            )
            &&& p.displacement_vertexes@ == records_of(
                lump_stream_of(file@, lump_names::LUMP_DISP_VERTS as int).unwrap(),
                20,
                |d: Seq<u8>, i: int| spec_displacement_vertex_at(d, i),
            )
            &&& p.brush_models@ == records_of(
                lump_stream_of(file@, lump_names::LUMP_MODELS as int).unwrap(),
                48,
                |d: Seq<u8>, i: int| spec_brush_model_at(d, i),
            )
        },
{
    let (_version, lumps) = match read_header(file) {
        Ok(p) => p,
        Err(e) => { return Err(e) },
    };
    let faces = match face::parse_faces(file, lumps[lump_names::LUMP_FACES]) {
        Ok(v) => v,
        Err(e) => { return Err(e) },
    };
    let planes = match plane::parse_planes(file, lumps[lump_names::LUMP_PLANES]) {
        Ok(v) => v,
        Err(e) => { return Err(e) },
    };
    let vertexes = match vertex::parse_vertices(file, lumps[lump_names::LUMP_VERTEXES]) {
        Ok(v) => v,
        Err(e) => { return Err(e) },
    };
    let edges = match edge::parse_edges(file, lumps[lump_names::LUMP_EDGES]) {
        Ok(v) => v,
        Err(e) => { return Err(e) },
    };
    let surface_edges = match surfedges::parse_surf_edges(file, lumps[lump_names::LUMP_SURFEDGES]) {
        Ok(v) => v,
        Err(e) => { return Err(e) },
    };
    let texture_infos = match texinfo::parse_texture_info(file, lumps[lump_names::LUMP_TEXINFO]) {
        Ok(v) => v,
        Err(e) => { return Err(e) },
    };
    let texture_data = match texdata::parse_texture_data(file, lumps[lump_names::LUMP_TEXDATA]) {
        Ok(v) => v,
        Err(e) => { return Err(e) },
    };
    let texture_string_array = match texture_string_array::parse_texture_data_string_array(
        file,
        lumps[lump_names::LUMP_TEXDATA_STRING_DATA],
    ) {
        Ok(v) => v,
        Err(e) => { return Err(e) },
    };
    let texture_string_table = match texture_string_array::parse_texture_data_string_table(
        file,
        lumps[lump_names::LUMP_TEXDATA_STRING_TABLE],
    ) {
        Ok(v) => v,
        Err(e) => { return Err(e) },
    };
    let displacement_info = match displacement::parse_displacements(
        file,
        lumps[lump_names::LUMP_DISPINFO],
    ) {
        Ok(v) => v,
        Err(e) => { return Err(e) },
    };
    let displacement_vertexes = match displacement::parse_displacement_vertexes(
        file,
        lumps[lump_names::LUMP_DISP_VERTS],
    ) {
        Ok(v) => v,
        Err(e) => { return Err(e) },
    };
    let brush_models = match brush_model::parse_bush_model(file, lumps[lump_names::LUMP_MODELS]) {
        Ok(v) => v,
        Err(e) => { return Err(e) },
    };
    proof {
        assert(faces@ =~= records_of(
            lump_stream_of(file@, lump_names::LUMP_FACES as int).unwrap(),
            56,
            |d: Seq<u8>, i: int| spec_face_at(d, i),
        )) by {
            let d = lump_stream_of(file@, lump_names::LUMP_FACES as int).unwrap();
            assert(faces@.len() == (d.len() as int) / 56) by (nonlinear_arith)
                requires
                    faces@.len() * 56 == d.len(),
            ;
        }
        assert(planes@ =~= records_of(
            lump_stream_of(file@, lump_names::LUMP_PLANES as int).unwrap(),
            20,
            |d: Seq<u8>, i: int| spec_plane_at(d, i),
        )) by {
            let d = lump_stream_of(file@, lump_names::LUMP_PLANES as int).unwrap();
            assert(planes@.len() == (d.len() as int) / 20) by (nonlinear_arith)
                requires
                    planes@.len() * 20 == d.len(),
            ;
        }
        assert(vertexes@ =~= records_of(
            lump_stream_of(file@, lump_names::LUMP_VERTEXES as int).unwrap(),
            12,
            |d: Seq<u8>, i: int| spec_vertex_at(d, i),
        )) by {
            let d = lump_stream_of(file@, lump_names::LUMP_VERTEXES as int).unwrap();
            assert(vertexes@.len() == (d.len() as int) / 12) by (nonlinear_arith)
                requires
                    vertexes@.len() * 12 == d.len(),
            ;
        }
        assert(edges@ =~= records_of(
            lump_stream_of(file@, lump_names::LUMP_EDGES as int).unwrap(),
            4,
            |d: Seq<u8>, i: int| spec_edge_at(d, i),
        )) by {
            let d = lump_stream_of(file@, lump_names::LUMP_EDGES as int).unwrap();
            assert(edges@.len() == (d.len() as int) / 4) by (nonlinear_arith)
                requires
                    edges@.len() * 4 == d.len(),
            ;
        }
        assert(surface_edges@ =~= records_of(
            lump_stream_of(file@, lump_names::LUMP_SURFEDGES as int).unwrap(),
            4,
            |d: Seq<u8>, i: int| spec_surf_edge_at(d, i),
        )) by {
            let d = lump_stream_of(file@, lump_names::LUMP_SURFEDGES as int).unwrap();
            assert(surface_edges@.len() == (d.len() as int) / 4) by (nonlinear_arith)
                requires
                    surface_edges@.len() * 4 == d.len(),
            ;
        }
        assert(texture_infos@ =~= records_of(
            lump_stream_of(file@, lump_names::LUMP_TEXINFO as int).unwrap(),
            72,
            |d: Seq<u8>, i: int| spec_texture_info_at(d, i),
        )) by {
            let d = lump_stream_of(file@, lump_names::LUMP_TEXINFO as int).unwrap();
            assert(texture_infos@.len() == (d.len() as int) / 72) by (nonlinear_arith)
                requires
                    texture_infos@.len() * 72 == d.len(),
            ;
        }
        assert(texture_data@ =~= records_of(
            lump_stream_of(file@, lump_names::LUMP_TEXDATA as int).unwrap(),
            32,
            |d: Seq<u8>, i: int| spec_texture_data_at(d, i),
        )) by {
            let d = lump_stream_of(file@, lump_names::LUMP_TEXDATA as int).unwrap();
            assert(texture_data@.len() == (d.len() as int) / 32) by (nonlinear_arith)
                requires
                    texture_data@.len() * 32 == d.len(),
            ;
        }
        assert(texture_string_table@ =~= records_of(
            lump_stream_of(file@, lump_names::LUMP_TEXDATA_STRING_TABLE as int).unwrap(),
            4,
            |d: Seq<u8>, i: int| spec_texture_string_at(d, i),
        )) by {
            let d = lump_stream_of(file@, lump_names::LUMP_TEXDATA_STRING_TABLE as int).unwrap();
            assert(texture_string_table@.len() == (d.len() as int) / 4) by (nonlinear_arith)
                requires
                    texture_string_table@.len() * 4 == d.len(),
            ;
        }
        assert(displacement_info@ =~= records_of(
            lump_stream_of(file@, lump_names::LUMP_DISPINFO as int).unwrap(),
            176,
            |d: Seq<u8>, i: int| spec_displacement_info_at(d, i),
        )) by {
            let d = lump_stream_of(file@, lump_names::LUMP_DISPINFO as int).unwrap();
            assert(displacement_info@.len() == (d.len() as int) / 176) by (nonlinear_arith)
                requires
                    displacement_info@.len() * 176 == d.len(),
            ;
        }
        assert(displacement_vertexes@ =~= records_of(
            lump_stream_of(file@, lump_names::LUMP_DISP_VERTS as int).unwrap(),
            20,
            |d: Seq<u8>, i: int| spec_displacement_vertex_at(d, i),
        )) by {
            let d = lump_stream_of(file@, lump_names::LUMP_DISP_VERTS as int).unwrap();
            assert(displacement_vertexes@.len() == (d.len() as int) / 20) by (nonlinear_arith)
                requires
                    displacement_vertexes@.len() * 20 == d.len(),
            ;
        }
        assert(brush_models@ =~= records_of(
            lump_stream_of(file@, lump_names::LUMP_MODELS as int).unwrap(),
            48,
            |d: Seq<u8>, i: int| spec_brush_model_at(d, i),
        )) by {
            let d = lump_stream_of(file@, lump_names::LUMP_MODELS as int).unwrap();
            assert(brush_models@.len() == (d.len() as int) / 48) by (nonlinear_arith)
                requires
                    brush_models@.len() * 48 == d.len(),
            ;
        }
    }
    Ok(
        ParsedBspFile {
            faces,
            planes,
            vertexes,
            edges,
            surface_edges,
            texture_infos,
            texture_data,
            texture_string_array,
            texture_string_table,
            displacement_info,
            displacement_vertexes,
            brush_models,
        },
    )
}

} // verus!
