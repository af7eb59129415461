//! Reconstruction of renderable triangle geometry from the decoded record
//! arrays: face selection, edge-loop resolution, fan triangulation of
//! ordinary faces, grid tessellation of displacement faces, and grouping of
//! the emitted triangles by material category.
//!
//! Emitted vertices are *jobs*: each carries the raw float bits the caller
//! needs to evaluate the final position, normal, and texture coordinates
//! (axis remap, uniform scale, and projection are numeric work left to the
//! caller). The triangle indices and the grouping are decided here.

use crate::bytes::Vec3Bits;
use crate::error::BspError;
use crate::parse_bsp::displacement::DisplacementInfo;
use crate::parse_bsp::displacement::DisplacementVertex;
use crate::parse_bsp::edge::spec_edge_reverse;
use crate::parse_bsp::edge::Edge;
use crate::parse_bsp::face::Face;
use crate::parse_bsp::surfedges::SurfEdge;
use crate::parse_bsp::texdata::TextureData;
use crate::parse_bsp::texinfo::SURF_HINT;
use crate::parse_bsp::texinfo::SURF_NODRAW;
use crate::parse_bsp::texinfo::SURF_SKIP;
use crate::parse_bsp::texinfo::SURF_SKY;
use crate::parse_bsp::texinfo::TexProjection;
use crate::parse_bsp::texinfo::TextureInfo;
use crate::parse_bsp::texture_string_array::name_bytes_at;
use crate::parse_bsp::texture_string_array::terminator_of;
use crate::parse_bsp::vertex::Vertex;
use crate::parse_bsp::ParsedBspFile;
use vstd::prelude::*;
use vstd::utf8::valid_utf8;

verus! {

/// Where an emitted vertex's position comes from: either a raw vertex of the
/// map, or a sample of a displacement grid (bilinear interpolation of the 4
/// rotated corners at `(x/cells, y/cells)`, offset by `direction * length`).
#[derive(Copy, Clone, Debug)]
pub enum BasePosition {
    Plain(Vec3Bits),
    DispSample {
        corners: [Vec3Bits; 4],
        x: u32,
        y: u32,
        cells: u32,
        direction: Vec3Bits,
        length: u32,
    },
}

/// One emitted vertex: its base position plus everything needed to evaluate
/// its normal and texture coordinates (the face's plane normal and the
/// texture projection rows and pixel dimensions).
#[derive(Copy, Clone, Debug)]
pub struct VertexJob {
    pub base: BasePosition,
    pub normal: Vec3Bits,
    pub tex_s: TexProjection,
    pub tex_t: TexProjection,
    pub tex_width: u32,
    pub tex_height: u32,
}

/// The per-category accumulation of emitted vertices and triangle indices.
#[derive(Debug)]
pub struct MaterialGroup {
    pub verticies: Vec<VertexJob>,
    pub indices: Vec<usize>,
}

/// The triangle indices of a group as mathematical integers.
pub open spec fn idxs(g: MaterialGroup) -> Seq<int> {
    g.indices@.map_values(|x: usize| x as int)
}

/// The vertex job for one base position under the face's shared context.
pub open spec fn spec_job(
    base: BasePosition,
    normal: Vec3Bits,
    ti: TextureInfo,
    td: TextureData,
) -> VertexJob {
    VertexJob {
        base,
        normal,
        tex_s: ti.texture_vectors[0],
        tex_t: ti.texture_vectors[1],
        tex_width: td.width,
        tex_height: td.height,
    }
}

fn make_job(base: BasePosition, normal: Vec3Bits, ti: TextureInfo, td: TextureData) -> (r:
    VertexJob)
    ensures
        r == spec_job(base, normal, ti, td),
{
    VertexJob {
        base,
        normal,
        tex_s: ti.texture_vectors[0],
        tex_t: ti.texture_vectors[1],
        tex_width: td.width,
        tex_height: td.height,
    }
}

/// The edge a signed surface-edge reference resolves to: the referenced edge
/// as stored for a positive reference, its endpoint swap otherwise.
pub open spec fn spec_get_edge(s: SurfEdge, edges: Seq<Edge>) -> Edge {
    if s.0 > 0 {
        edges[s.0 as int]
    } else {
        spec_edge_reverse(edges[-(s.0 as int)])
    }
}

/// True when the surface-edge reference stays inside the edge array.
pub open spec fn surf_edge_in_range(s: SurfEdge, n: int) -> bool {
    if s.0 > 0 {
        s.0 < n
    } else {
        -(s.0 as int) < n
    }
}

/// Resolves a signed surface-edge reference against the edge array: a
/// positive reference selects the edge as stored, a non-positive one selects
/// the edge at the absolute value with its endpoints swapped.
pub fn get_edge(surface_edge: SurfEdge, edges: &Vec<Edge>) -> (r: Edge)
    requires
        surf_edge_in_range(surface_edge, edges@.len() as int),
    ensures
        r == spec_get_edge(surface_edge, edges@),
        surface_edge.0 > 0 ==> r == edges@[surface_edge.0 as int],
        surface_edge.0 < 0 ==> r == spec_edge_reverse(edges@[-(surface_edge.0 as int)]),
{
    if surface_edge.0 > 0 {
        edges[surface_edge.0 as usize]
    } else {
        let idx = (-(surface_edge.0 as i64)) as usize;
        edges[idx].reverse()
    }
}

/// The ASCII uppercase of one byte; bytes outside `a..z` pass unchanged.
pub open spec fn ascii_upper(b: u8) -> u8 {
    if 97 <= b <= 122 {
        (b - 32) as u8
    } else {
        b
    }
}

/// The byte-wise ASCII uppercase of a name.
pub open spec fn upper_seq(s: Seq<u8>) -> Seq<u8> {
    s.map_values(|b: u8| ascii_upper(b))
}

/// Index of the first occurrence of `t` in `s` at or after `from`, or
/// `s.len()` when there is none.
pub open spec fn find_byte(s: Seq<u8>, from: int, t: u8) -> int
    decreases s.len() - from,
{
    if from < 0 || from >= s.len() {
        s.len() as int
    } else if s[from] == t {
        from
    } else {
        find_byte(s, from + 1, t)
    }
}

/// True when the resolved texture name starts with the reserved tool prefix.
pub open spec fn spec_is_tool(name: Seq<u8>) -> bool {
    name.len() >= 4 && name[0] == 84 && name[1] == 79 && name[2] == 79 && name[3] == 76
}

/// The material category of a texture name. A name without a path separator
/// is its own category, uppercased. Otherwise the first path segment names
/// the category, except that under the `maps` prefix the category is the
/// segment after the map-name segment; a name under `maps` that lacks that
/// segment has no category and is malformed.
pub open spec fn spec_category(name: Seq<u8>) -> Option<Seq<u8>> {
    let sl = find_byte(name, 0, 47);
    if sl == name.len() {
        Some(upper_seq(name))
    } else if name.subrange(0, sl) =~= seq![109u8, 97u8, 112u8, 115u8] {
        let s2 = find_byte(name, sl + 1, 47);
        if s2 == name.len() {
            None
        } else {
            let s3 = find_byte(name, s2 + 1, 47);
            Some(upper_seq(name.subrange(s2 + 1, s3)))
        }
    } else {
        Some(upper_seq(name.subrange(0, sl)))
    }
}

fn find_byte_exec(s: &[u8], from: usize, t: u8) -> (r: usize)
    requires
        from <= s@.len(),
    ensures
        r == find_byte(s@, from as int, t),
        from <= r <= s@.len(),
{
    let n = s.len();
    let mut i = from;
    while i < n && s[i] != t
        invariant
            from <= i <= n,
            n == s@.len(),
            find_byte(s@, from as int, t) == find_byte(s@, i as int, t),
        decreases n - i,
    {
        proof {
            assert(find_byte(s@, i as int, t) == find_byte(s@, i + 1, t));
        }
        i = i + 1;
    }
    proof {
        assert(find_byte(s@, i as int, t) == i || find_byte(s@, i as int, t) == s@.len());
    }
    i
}

fn upper_range(s: &[u8], lo: usize, hi: usize) -> (v: Vec<u8>)
    requires
        lo <= hi <= s@.len(),
    ensures
        v@ == upper_seq(s@.subrange(lo as int, hi as int)),
{
    let mut v: Vec<u8> = Vec::new();
    let mut i = lo;
    while i < hi
        invariant
            lo <= i <= hi <= s@.len(),
            v@ == upper_seq(s@.subrange(lo as int, i as int)),
        decreases hi - i,
    {
        let b = s[i];
        let u: u8 = if 97 <= b && b <= 122 {
            b - 32
        } else {
            b
        };
        v.push(u);
        proof {
            assert(v@ =~= upper_seq(s@.subrange(lo as int, i + 1)));
        }
        i = i + 1;
    }
    v
}

/// Derives the material category of a texture name, uppercased byte-wise;
/// fails exactly on names under the `maps` prefix that lack the segment
/// naming their category.
pub fn category_of(name: &[u8]) -> (r: Result<Vec<u8>, BspError>)
    ensures
        match spec_category(name@) {
            Option::Some(c) => r matches Ok(v) && v@ == c,
            Option::None => r == Err::<Vec<u8>, BspError>(BspError::BadCategory),
        },
{
    let n = name.len();
    let sl = find_byte_exec(name, 0, 47);
    if sl == n {
        return Ok(upper_range(name, 0, n));
    }
    let is_maps = sl == 4 && name[0] == 109 && name[1] == 97 && name[2] == 112 && name[3] == 115;
    proof {
        assert(is_maps == (name@.subrange(0, sl as int) =~= seq![109u8, 97u8, 112u8, 115u8]));
    }
    if is_maps {
        let s2 = find_byte_exec(name, sl + 1, 47);
        if s2 == n {
            return Err(BspError::BadCategory);
        }
        let s3 = find_byte_exec(name, s2 + 1, 47);
        Ok(upper_range(name, s2 + 1, s3))
    } else {
        Ok(upper_range(name, 0, sl))
    }
}

/// True when the fan triangulation of the loop touches only valid vertices:
/// the anchor edge's first endpoint and both endpoints of every interior
/// edge.
pub open spec fn fan_loop_ok(face_edges: Seq<Edge>, num_vertexes: int) -> bool {
    &&& face_edges.len() >= 2
    &&& face_edges[0].first < num_vertexes
    &&& forall|k: int|
        1 <= k < face_edges.len() - 1 ==> (#[trigger] face_edges[k]).first < num_vertexes
            && face_edges[k].second < num_vertexes
}

/// The vertex jobs a fan triangulation emits: the anchor vertex once, then
/// both endpoints of each interior edge in loop order.
pub open spec fn fan_jobs(
    vertexes: Seq<Vertex>,
    face_edges: Seq<Edge>,
    normal: Vec3Bits,
    ti: TextureInfo,
    td: TextureData,
) -> Seq<VertexJob> {
    Seq::new(
        (2 * face_edges.len() - 3) as nat,
        |i: int|
            {
                if i == 0 {
                    spec_job(
                        BasePosition::Plain(vertexes[face_edges[0].first as int].0),
                        normal,
                        ti,
                        td,
                    )
                } else {
                    let k = (i + 1) / 2;
                    if i % 2 == 1 {
                        spec_job(
                            BasePosition::Plain(vertexes[face_edges[k].first as int].0),
                            normal,
                            ti,
                            td,
                        )
                    } else {
                        spec_job(
                            BasePosition::Plain(vertexes[face_edges[k].second as int].0),
                            normal,
                            ti,
                            td,
                        )
                    }
                }
            },
    )
}

/// The triangle indices a fan triangulation emits for a loop of `n` edges,
/// anchored at absolute vertex index `init`: one triangle
/// `(init, init+2+2k, init+1+2k)` per interior edge `k`.
pub open spec fn fan_indices(init: int, n: int) -> Seq<int> {
    Seq::new(
        (3 * (n - 2)) as nat,
        |i: int|
            {
                let k = i / 3;
                if i % 3 == 0 {
                    init
                } else if i % 3 == 1 {
                    init + 2 + 2 * k
                } else {
                    init + 1 + 2 * k
                }
            },
    )
}

/// Fan-triangulates an ordinary face's polygon loop into the group: the
/// anchor vertex is pushed once, then every interior edge contributes its two
/// endpoints and one triangle. A loop of `n >= 3` edges emits exactly
/// `1 + 2*(n-2)` vertices and `n-2` triangles, every index lying inside the
/// emitted block.
#[verifier::rlimit(60)]
pub fn handle_normal_face(
    group: &mut MaterialGroup,
    vertexes: &Vec<Vertex>,
    normal: Vec3Bits,
    texture_info: TextureInfo,
    texture_data: TextureData,
    face_edges: &Vec<Edge>,
) -> (r: Result<(), BspError>)
    requires
        old(group).verticies@.len() + 2 * face_edges@.len() <= usize::MAX,
    ensures
        r is Ok <==> fan_loop_ok(face_edges@, vertexes@.len() as int),
        face_edges@.len() < 2 ==> r == Err::<(), BspError>(BspError::FaceEdgeCount),
        face_edges@.len() >= 2 && !fan_loop_ok(face_edges@, vertexes@.len() as int) ==> r == Err::<
            (),
            BspError,
        >(BspError::IndexOutOfBounds),
        r is Err ==> *final(group) == *old(group),
        r is Ok ==> {
            &&& final(group).verticies@ == old(group).verticies@ + fan_jobs(
                vertexes@,
                face_edges@,
                normal,
                texture_info,
                texture_data,
            )
            &&& idxs(*final(group)) == idxs(*old(group)) + fan_indices(
                old(group).verticies@.len() as int,
                face_edges@.len() as int,
            )
            &&& final(group).verticies@.len() == old(group).verticies@.len() + 1 + 2 * (
            face_edges@.len() - 2)
            &&& final(group).indices@.len() == old(group).indices@.len() + 3 * (face_edges@.len()
                - 2)
            &&& forall|i: int|
                old(group).indices@.len() <= i < final(group).indices@.len() ==> old(
                    group,
                ).verticies@.len() <= #[trigger] idxs(*final(group))[i]
                    && idxs(*final(group))[i] < final(group).verticies@.len()
        },
{
    let n = face_edges.len();
    if n < 2 {
        return Err(BspError::FaceEdgeCount);
    }
    let num_vertexes = vertexes.len();
    if face_edges[0].first as usize >= num_vertexes {
        return Err(BspError::IndexOutOfBounds);
    }
    let mut c: usize = 1;
    while c < n - 1
        invariant
            1 <= c <= n - 1,
            n == face_edges@.len(),
            n >= 2,
            num_vertexes == vertexes@.len(),
            forall|k: int|
                1 <= k < c ==> (#[trigger] face_edges@[k]).first < num_vertexes
                    && face_edges@[k].second < num_vertexes,
        decreases n - 1 - c,
    {
        if face_edges[c].first as usize >= num_vertexes || face_edges[c].second as usize
            >= num_vertexes {
            return Err(BspError::IndexOutOfBounds);
        }
        c = c + 1;
    }
    let initial_index = group.verticies.len();
    let ghost jobs = fan_jobs(vertexes@, face_edges@, normal, texture_info, texture_data);
    let ghost tris = fan_indices(initial_index as int, n as int);
    let ghost mut utris: Seq<usize> = Seq::empty();
    group.verticies.push(
        make_job(
            BasePosition::Plain(vertexes[face_edges[0].first as usize].0),
            normal,
            texture_info,
            texture_data,
        ),
    );
    let mut k: usize = 1;
    while k < n - 1
        invariant
            1 <= k <= n - 1,
            n == face_edges@.len(),
            n >= 2,
            num_vertexes == vertexes@.len(),
            fan_loop_ok(face_edges@, num_vertexes as int),
            initial_index == old(group).verticies@.len(),
            initial_index + 2 * n <= usize::MAX,
            jobs == fan_jobs(vertexes@, face_edges@, normal, texture_info, texture_data),
            tris == fan_indices(initial_index as int, n as int),
            group.verticies@ == old(group).verticies@ + jobs.take(2 * k - 1),
            group.indices@ == old(group).indices@ + utris,
            utris.len() == 3 * (k - 1),
            forall|t: int| 0 <= t < utris.len() ==> (#[trigger] utris[t]) as int == tris[t],
        decreases n - 1 - k,
    {
        group.indices.push(initial_index);
        group.indices.push(initial_index + 2 * k);
        group.indices.push(initial_index + 2 * k - 1);
        group.verticies.push(
            make_job(
                BasePosition::Plain(vertexes[face_edges[k].first as usize].0),
                normal,
                texture_info,
                texture_data,
            ),
        );
        group.verticies.push(
            make_job(
                BasePosition::Plain(vertexes[face_edges[k].second as usize].0),
                normal,
                texture_info,
                texture_data,
            ),
        );
        proof {
            let ki = k as int;
            assert((2 * ki - 1) % 2 == 1 && (2 * ki) % 2 == 0 && (2 * ki - 1 + 1) / 2 == ki && (2
                * ki + 1) / 2 == ki) by (nonlinear_arith);
            assert((3 * (ki - 1)) % 3 == 0 && (3 * (ki - 1)) / 3 == ki - 1 && (3 * (ki - 1) + 1) % 3
                == 1 && (3 * (ki - 1) + 1) / 3 == ki - 1 && (3 * (ki - 1) + 2) % 3 == 2 && (3 * (ki
                - 1) + 2) / 3 == ki - 1) by (nonlinear_arith);
            assert(group.verticies@ =~= old(group).verticies@ + jobs.take(2 * (k + 1) - 1));
            assert(tris[3 * (ki - 1)] == initial_index as int);
            assert(tris[3 * (ki - 1) + 1] == initial_index + 2 * ki);
            assert(tris[3 * (ki - 1) + 2] == initial_index + 2 * ki - 1);
            let a: usize = initial_index;
            let b: usize = (initial_index + 2 * k) as usize;
            let c: usize = (initial_index + 2 * k - 1) as usize;
            utris = utris.push(a).push(b).push(c);
            assert(group.indices@ =~= old(group).indices@ + utris);
        }
        k = k + 1;
    }
    proof {
        assert(jobs.take(2 * (n - 1) - 1) =~= jobs);
        assert(idxs(*group) =~= idxs(*old(group)) + tris);
        assert forall|i: int| 0 <= i < tris.len() implies initial_index <= #[trigger] tris[i]
            < initial_index + jobs.len() by {
            assert(0 <= i / 3 < (n - 2)) by (nonlinear_arith)
                requires
                    0 <= i < 3 * (n - 2),
            ;
        }
    }
    Ok(())
}

/// Grid cells per side of a displacement of the given power: 2 to the power,
/// for powers in the valid range 1 to 4.
pub open spec fn spec_cells(p: u32) -> int
    recommends
        1 <= p <= 4,
{
    if p == 1 {
        2
    } else if p == 2 {
        4
    } else if p == 3 {
        8
    } else {
        16
    }
}

/// The 4 loop corners of a displacement face: the first endpoint of each of
/// its 4 edges, in loop order.
pub open spec fn spec_corners(face_edges: Seq<Edge>, vertexes: Seq<Vertex>) -> [Vec3Bits; 4]
    recommends
        face_edges.len() == 4,
{
    [
        vertexes[face_edges[0].first as int].0,
        vertexes[face_edges[1].first as int].0,
        vertexes[face_edges[2].first as int].0,
        vertexes[face_edges[3].first as int].0,
    ]
}

/// The corner array rotated left by `s`: logical corner `i` becomes the loop
/// corner `(i + s) mod 4`.
pub open spec fn rotate4(c: [Vec3Bits; 4], s: int) -> [Vec3Bits; 4] {
    [c[s % 4], c[(s + 1) % 4], c[(s + 2) % 4], c[(s + 3) % 4]]
}

/// True when a displacement face can be tessellated: exactly 4 edges, power
/// in the valid range, corner vertices in range, and the full grid of
/// per-vertex offsets available from the descriptor's start offset.
pub open spec fn disp_face_ok(
    face_edges: Seq<Edge>,
    num_vertexes: int,
    di: DisplacementInfo,
    num_dispverts: int,
) -> bool {
    &&& face_edges.len() == 4
    &&& 1 <= di.power <= 4
    &&& face_edges[0].first < num_vertexes
    &&& face_edges[1].first < num_vertexes
    &&& face_edges[2].first < num_vertexes
    &&& face_edges[3].first < num_vertexes
    &&& di.vertex_start + (spec_cells(di.power) + 1) * (spec_cells(di.power) + 1) <= num_dispverts
}

/// The vertex jobs a displacement tessellation emits: the `(n+1) x (n+1)`
/// grid samples in row-major order (`x` outer, `y` inner), each carrying the
/// rotated corners, its grid coordinates, and its per-vertex offset.
pub open spec fn disp_jobs(
    corners: [Vec3Bits; 4],
    n: int,
    dispverts: Seq<DisplacementVertex>,
    vstart: int,
    normal: Vec3Bits,
    ti: TextureInfo,
    td: TextureData,
) -> Seq<VertexJob> {
    Seq::new(
        ((n + 1) * (n + 1)) as nat,
        |i: int|
            {
                let x = i / (n + 1);
                let y = i % (n + 1);
                spec_job(
                    BasePosition::DispSample {
                        corners,
                        x: x as u32,
                        y: y as u32,
                        cells: n as u32,
                        direction: dispverts[vstart + i].direction,
                        length: dispverts[vstart + i].length,
                    },
                    normal,
                    ti,
                    td,
                )
            },
    )
}

/// The triangle indices a displacement tessellation emits: per grid cell
/// `(x, y)` (in the same row-major order) the two triangles of the fixed
/// diagonal split, 6 indices into the emitted block based at `init`.
pub open spec fn disp_indices(init: int, n: int) -> Seq<int> {
    Seq::new(
        (6 * n * n) as nat,
        |i: int|
            {
                let cell = i / 6;
                let x = cell / n;
                let y = cell % n;
                let m = i % 6;
                if m == 0 {
                    init + x + y * (n + 1)
                } else if m == 1 {
                    init + x + 1 + y * (n + 1)
                } else if m == 2 {
                    init + x + (y + 1) * (n + 1)
                } else if m == 3 {
                    init + x + (y + 1) * (n + 1)
                } else if m == 4 {
                    init + x + y * (n + 1) + 1
                } else {
                    init + x + (y + 1) * (n + 1) + 1
                }
            },
    )
}

/// Tessellates a displacement face into the group: the polygon loop must
/// have exactly 4 edges and the descriptor's power must lie in 1 to 4. The
/// loop corners are rotated so that the corner the caller found nearest to
/// the descriptor's recorded start position (offset by the fixed alignment
/// of 2) becomes logical corner 0. A power-`p` face emits exactly
/// `(2^p+1)^2` vertices and `2*(2^p)^2` triangles, every index lying inside
/// the emitted block.
#[verifier::rlimit(100)]
pub fn handle_displacement_face(
    group: &mut MaterialGroup,
    vertexes: &Vec<Vertex>,
    displacement_vertexes: &Vec<DisplacementVertex>,
    normal: Vec3Bits,
    texture_info: TextureInfo,
    texture_data: TextureData,
    face_edges: &Vec<Edge>,
    displacement_info: DisplacementInfo,
    nearest_corner: usize,
) -> (r: Result<(), BspError>)
    requires
        nearest_corner < 4,
        old(group).verticies@.len() + 289 <= usize::MAX,
    ensures
        r is Ok <==> disp_face_ok(
            face_edges@,
            vertexes@.len() as int,
            displacement_info,
            displacement_vertexes@.len() as int,
        ),
        face_edges@.len() != 4 ==> r == Err::<(), BspError>(BspError::DisplacementEdgeCount),
        face_edges@.len() == 4 && !(1 <= displacement_info.power <= 4) ==> r == Err::<
            (),
            BspError,
        >(BspError::DisplacementPower),
        r is Err ==> *final(group) == *old(group),
        r is Ok ==> {
            let n = spec_cells(displacement_info.power);
            let corners = rotate4(
                spec_corners(face_edges@, vertexes@),
                ((2 + nearest_corner) % 4) as int,
            );
            &&& final(group).verticies@ == old(group).verticies@ + disp_jobs(
                corners,
                n,
                displacement_vertexes@,
                displacement_info.vertex_start as int,
                normal,
                texture_info,
                texture_data,
            )
            &&& idxs(*final(group)) == idxs(*old(group)) + disp_indices(
                old(group).verticies@.len() as int,
                n,
            )
            &&& final(group).verticies@.len() == old(group).verticies@.len() + (n + 1) * (n + 1)
            &&& final(group).indices@.len() == old(group).indices@.len() + 6 * n * n
            &&& forall|i: int|
                old(group).indices@.len() <= i < final(group).indices@.len() ==> old(
                    group,
                ).verticies@.len() <= #[trigger] idxs(*final(group))[i]
                    && idxs(*final(group))[i] < final(group).verticies@.len()
        },
{
    if face_edges.len() != 4 {
        return Err(BspError::DisplacementEdgeCount);
    }
    let power = displacement_info.power;
    if power < 1 || power > 4 {
        return Err(BspError::DisplacementPower);
    }
    let num_vertexes = vertexes.len();
    if face_edges[0].first as usize >= num_vertexes || face_edges[1].first as usize >= num_vertexes
        || face_edges[2].first as usize >= num_vertexes || face_edges[3].first as usize
        >= num_vertexes {
        return Err(BspError::IndexOutOfBounds);
    }
    let cells: usize = if power == 1 {
        2
    } else if power == 2 {
        4
    } else if power == 3 {
        8
    } else {
        16
    };
    proof {
        assert((cells + 1) * (cells + 1) <= 289) by (nonlinear_arith)
            requires
                cells <= 16,
        ;
    }
    let grid: usize = (cells + 1) * (cells + 1);
    let vstart = displacement_info.vertex_start as usize;
    let dv_len = displacement_vertexes.len();
    if dv_len < grid || vstart > dv_len - grid {
        return Err(BspError::IndexOutOfBounds);
    }
    let loop_corners: [Vec3Bits; 4] = [
        vertexes[face_edges[0].first as usize].0,
        vertexes[face_edges[1].first as usize].0,
        vertexes[face_edges[2].first as usize].0,
        vertexes[face_edges[3].first as usize].0,
    ];
    let starting_corner = (2 + nearest_corner) % 4;
    let corners: [Vec3Bits; 4] = [
        loop_corners[starting_corner],
        loop_corners[(starting_corner + 1) % 4],
        loop_corners[(starting_corner + 2) % 4],
        loop_corners[(starting_corner + 3) % 4],
    ];
    proof {
        assert(corners =~= rotate4(
            spec_corners(face_edges@, vertexes@),
            ((2 + nearest_corner) % 4) as int,
        ));
        assert(disp_face_ok(
            face_edges@,
            vertexes@.len() as int,
            displacement_info,
            displacement_vertexes@.len() as int,
        ));
    }
    let initial_index = group.verticies.len();
    let ghost jobs = disp_jobs(
        corners,
        cells as int,
        displacement_vertexes@,
        vstart as int,
        normal,
        texture_info,
        texture_data,
    );
    let ghost tris = disp_indices(initial_index as int, cells as int);
    let mut x: usize = 0;
    while x <= cells
        invariant
            x <= cells + 1,
            cells == spec_cells(displacement_info.power),
            2 <= cells <= 16,
            grid == (cells + 1) * (cells + 1),
            vstart + grid <= dv_len,
            dv_len == displacement_vertexes@.len(),
            initial_index == old(group).verticies@.len(),
            initial_index + 289 <= usize::MAX,
            jobs == disp_jobs(
                corners,
                cells as int,
                displacement_vertexes@,
                vstart as int,
                normal,
                texture_info,
                texture_data,
            ),
            jobs.len() == grid,
            group.verticies@ == old(group).verticies@ + jobs.take((x * (cells + 1)) as int),
            group.indices@ == old(group).indices@,
        decreases cells + 1 - x,
    {
        let mut y: usize = 0;
        while y <= cells
            invariant
                x <= cells,
                y <= cells + 1,
                cells == spec_cells(displacement_info.power),
                2 <= cells <= 16,
                grid == (cells + 1) * (cells + 1),
                vstart + grid <= dv_len,
                dv_len == displacement_vertexes@.len(),
                initial_index == old(group).verticies@.len(),
                initial_index + 289 <= usize::MAX,
                jobs == disp_jobs(
                    corners,
                    cells as int,
                    displacement_vertexes@,
                    vstart as int,
                    normal,
                    texture_info,
                    texture_data,
                ),
                jobs.len() == grid,
                group.verticies@ == old(group).verticies@ + jobs.take(
                    (x * (cells + 1) + y) as int,
                ),
                group.indices@ == old(group).indices@,
            decreases cells + 1 - y,
        {
            proof {
                assert(x * (cells + 1) + y < grid && x * (cells + 1) + y + 1 <= grid) by (
                nonlinear_arith)
                    requires
                        x <= cells && y <= cells && grid == (cells + 1) * (cells + 1),
                ;
            }
            let sample = vstart + x * (cells + 1) + y;
            let dv = displacement_vertexes[sample];
            group.verticies.push(
                make_job(
                    BasePosition::DispSample {
                        corners,
                        x: x as u32,
                        y: y as u32,
                        cells: cells as u32,
                        direction: dv.direction,
                        length: dv.length,
                    },
                    normal,
                    texture_info,
                    texture_data,
                ),
            );
            proof {
                let i = (x * (cells + 1) + y) as int;
                assert(i / (cells + 1) as int == x as int && i % (cells + 1) as int == y as int)
                    by (nonlinear_arith)
                    requires
                        0 <= y <= cells && 0 <= x && i == x * (cells + 1) + y,
                ;
                assert(group.verticies@ =~= old(group).verticies@ + jobs.take(i + 1));
            }
            y = y + 1;
        }
        proof {
            assert((x + 1) * (cells + 1) == x * (cells + 1) + (cells + 1)) by (nonlinear_arith);
        }
        x = x + 1;
    }
    proof {
        assert((cells + 1) * (cells + 1) == grid) by (nonlinear_arith)
            requires
                grid == (cells + 1) * (cells + 1),
        ;
        assert(jobs.take(grid as int) =~= jobs);
    }
    let ghost mut utris: Seq<usize> = Seq::empty();
    let mut cx: usize = 0;
    while cx < cells
        invariant
            cx <= cells,
            cells == spec_cells(displacement_info.power),
            2 <= cells <= 16,
            initial_index == old(group).verticies@.len(),
            initial_index + 289 <= usize::MAX,
            tris == disp_indices(initial_index as int, cells as int),
            tris.len() == 6 * cells * cells,
            group.verticies@ == old(group).verticies@ + jobs,
            jobs.len() == grid,
            grid == (cells + 1) * (cells + 1),
            grid <= 289,
            group.indices@ == old(group).indices@ + utris,
            utris.len() == 6 * (cx * cells),
            forall|t: int| 0 <= t < utris.len() ==> (#[trigger] utris[t]) as int == tris[t],
        decreases cells - cx,
    {
        let mut cy: usize = 0;
        while cy < cells
            invariant
                cx < cells,
                cy <= cells,
                cells == spec_cells(displacement_info.power),
                2 <= cells <= 16,
                initial_index == old(group).verticies@.len(),
                initial_index + 289 <= usize::MAX,
                tris == disp_indices(initial_index as int, cells as int),
                tris.len() == 6 * cells * cells,
                group.verticies@ == old(group).verticies@ + jobs,
                jobs.len() == grid,
                grid == (cells + 1) * (cells + 1),
                grid <= 289,
                group.indices@ == old(group).indices@ + utris,
                utris.len() == 6 * (cx * cells + cy),
                forall|t: int| 0 <= t < utris.len() ==> (#[trigger] utris[t]) as int == tris[t],
            decreases cells - cy,
        {
            proof {
                assert(cx * cells + cy < cells * cells && cx + (cy + 1) * (cells + 1) + 1 < (cells
                    + 1) * (cells + 1) && cx + cy * (cells + 1) + 1 < (cells + 1) * (cells + 1)) by (
                nonlinear_arith)
                    requires
                        cx < cells && cy < cells && 2 <= cells,
                ;

            }
            let a0 = initial_index + cx + cy * (cells + 1);
            let a1 = initial_index + cx + 1 + cy * (cells + 1);
            let a2 = initial_index + cx + (cy + 1) * (cells + 1);
            let a3 = initial_index + cx + (cy + 1) * (cells + 1);
            let a4 = initial_index + cx + cy * (cells + 1) + 1;
            let a5 = initial_index + cx + (cy + 1) * (cells + 1) + 1;
            group.indices.push(a0);
            group.indices.push(a1);
            group.indices.push(a2);
            group.indices.push(a3);
            group.indices.push(a4);
            group.indices.push(a5);
            proof {
                let c = (cx * cells + cy) as int;
                let base = 6 * c;
                assert(base / 6 == c && base % 6 == 0 && (base + 1) / 6 == c && (base + 1) % 6 == 1
                    && (base + 2) / 6 == c && (base + 2) % 6 == 2 && (base + 3) / 6 == c && (base
                    + 3) % 6 == 3 && (base + 4) / 6 == c && (base + 4) % 6 == 4 && (base + 5) / 6
                    == c && (base + 5) % 6 == 5) by (nonlinear_arith)
                    requires
                        base == 6 * c && 0 <= c,
                ;
                assert(c / (cells as int) == cx as int && c % (cells as int) == cy as int) by (
                nonlinear_arith)
                    requires
                        0 <= cy < cells && 0 <= cx && c == cx * cells + cy,
                ;
                utris = utris.push(a0).push(a1).push(a2).push(a3).push(a4).push(a5);
                assert(group.indices@ =~= old(group).indices@ + utris);
                assert(6 * (cx * cells + cy + 1) == utris.len()) by (nonlinear_arith)
                    requires
                        utris.len() == 6 * (cx * cells + cy) + 6,
                ;
            }
            cy = cy + 1;
        }
        proof {
            assert(6 * ((cx + 1) * cells) == 6 * (cx * cells + cells)) by (nonlinear_arith);
        }
        cx = cx + 1;
    }
    proof {
        assert(utris.len() == tris.len()) by (nonlinear_arith)
            requires
                utris.len() == 6 * (cells * cells) && tris.len() == 6 * cells * cells,
        ;
        assert(idxs(*group) =~= idxs(*old(group)) + tris);
        assert forall|i: int| 0 <= i < tris.len() implies initial_index <= #[trigger] tris[i]
            < initial_index + grid by {
            let n = cells as int;
            let cell = i / 6;
            assert(0 <= cell < n * n) by (nonlinear_arith)
                requires
                    0 <= i < 6 * n * n && cell == i / 6,
            ;
            assert(0 <= cell / n < n && 0 <= cell % n < n) by (nonlinear_arith)
                requires
                    0 <= cell < n * n && 2 <= n,
            ;
            let x = cell / n;
            let y = cell % n;
            assert(0 <= x + y * (n + 1) && x + (y + 1) * (n + 1) + 1 < (n + 1) * (n + 1) && x + 1
                + y * (n + 1) < (n + 1) * (n + 1) && x + y * (n + 1) + 1 < (n + 1) * (n + 1) && x
                + (y + 1) * (n + 1) < (n + 1) * (n + 1) && x + y * (n + 1) < (n + 1) * (n + 1)) by (
            nonlinear_arith)
                requires
                    0 <= x < n && 0 <= y < n && 2 <= n,
            ;
        }
    }
    Ok(())
}

/// The vertex jobs and the block-relative triangle indices one face
/// contributes, keyed by its material category. The outer `None` marks a
/// malformed face (the whole run fails); the inner `None` marks a face the
/// skip policy drops.
pub type FaceOutcome = Option<Option<(Seq<u8>, Seq<VertexJob>, Seq<int>)>>;

/// The model of one group: its emitted vertex jobs and triangle indices.
pub type GroupModel = (Seq<VertexJob>, Seq<int>);

/// The resolved polygon loop of a face: its surface-edge range, each
/// reference resolved against the edge array.
pub open spec fn spec_face_loop(f: Face, surfedges: Seq<SurfEdge>, edges: Seq<Edge>) -> Seq<Edge> {
    Seq::new(f.num_edges as nat, |k: int| spec_get_edge(surfedges[f.first_edge + k], edges))
}

/// True when the face's surface-edge range lies inside the surface-edge
/// array and every reference in it stays inside the edge array.
pub open spec fn face_loop_ok(f: Face, surfedges: Seq<SurfEdge>, num_edges: int) -> bool {
    &&& f.first_edge + f.num_edges <= surfedges.len()
    &&& forall|k: int|
        0 <= k < f.num_edges ==> surf_edge_in_range(
            #[trigger] surfedges[f.first_edge + k],
            num_edges,
        )
}

/// True when the surface flags mark the face as non-visual: no-draw, skip,
/// sky, or hint.
pub open spec fn spec_flags_skip(flags: u32) -> bool {
    flags & SURF_NODRAW > 0 || flags & SURF_SKIP > 0 || flags & SURF_SKY > 0 || flags & SURF_HINT
        > 0
}

/// What face `i` contributes: `None` when any cross-lump reference is out of
/// range, a name is unterminated or not text, a name under the map prefix
/// lacks its category segment, or the face's loop cannot be triangulated;
/// `Some(None)` when the skip policy drops the face (non-visual flags or
/// tool-prefixed name); otherwise the category with the emitted jobs and the
/// block-relative triangle indices. `near` is the loop corner the caller
/// found nearest to a displacement's recorded start position.
pub open spec fn spec_face_outcome(bsp: ParsedBspFile, i: int, near: u8) -> FaceOutcome {
    let f = bsp.faces@[i];
    if !(f.planenum < bsp.planes@.len()) {
        None
    } else if !face_loop_ok(f, bsp.surface_edges@, bsp.edges@.len() as int) {
        None
    } else if !(f.tex_info < bsp.texture_infos@.len()) {
        None
    } else {
        let ti = bsp.texture_infos@[f.tex_info as int];
        let normal = bsp.planes@[f.planenum as int].normal;
        let face_edges = spec_face_loop(f, bsp.surface_edges@, bsp.edges@);
        if spec_flags_skip(ti.flags) {
            Some(None)
        } else if !(ti.texture_data_index < bsp.texture_data@.len()) {
            None
        } else {
            let td = bsp.texture_data@[ti.texture_data_index as int];
            let blob = bsp.texture_string_array.0@;
            if !(td.name_index < bsp.texture_string_table@.len()) {
                None
            } else {
                let off = bsp.texture_string_table@[td.name_index as int].0 as int;
                if off > blob.len() || terminator_of(blob, off) == blob.len() || !valid_utf8(
                    name_bytes_at(blob, off),
                ) {
                    None
                } else {
                    let name = name_bytes_at(blob, off);
                    if spec_is_tool(name) {
                        Some(None)
                    } else {
                        match spec_category(name) {
                            Option::None => None,
                            Option::Some(cat) => spec_emit_outcome(
                                bsp,
                                f,
                                face_edges,
                                normal,
                                ti,
                                td,
                                cat,
                                near,
                            ),
                        }
                    }
                }
            }
        }
    }
}

/// The emission half of a face's outcome, once its category is known:
/// fan triangulation for an ordinary face, grid tessellation for a
/// displacement face.
pub open spec fn spec_emit_outcome(
    bsp: ParsedBspFile,
    f: Face,
    face_edges: Seq<Edge>,
    normal: Vec3Bits,
    ti: TextureInfo,
    td: TextureData,
    cat: Seq<u8>,
    near: u8,
) -> FaceOutcome {
    if f.displacement_info == -1 {
        if fan_loop_ok(face_edges, bsp.vertexes@.len() as int) {
            Some(
                Some(
                    (
                        cat,
                        fan_jobs(bsp.vertexes@, face_edges, normal, ti, td),
                        fan_indices(0, face_edges.len() as int),
                    ),
                ),
            )
        } else {
            None
        }
    } else if f.displacement_info < 0 || f.displacement_info >= bsp.displacement_info@.len() {
        None
    } else {
        let di = bsp.displacement_info@[f.displacement_info as int];
        if disp_face_ok(
            face_edges,
            bsp.vertexes@.len() as int,
            di,
            bsp.displacement_vertexes@.len() as int,
        ) {
            let corners = rotate4(
                spec_corners(face_edges, bsp.vertexes@),
                ((2 + near) % 4) as int,
            );
            Some(
                Some(
                    (
                        cat,
                        disp_jobs(
                            corners,
                            spec_cells(di.power),
                            bsp.displacement_vertexes@,
                            di.vertex_start as int,
                            normal,
                            ti,
                            td,
                        ),
                        disp_indices(0, spec_cells(di.power)),
                    ),
                ),
            )
        } else {
            None
        }
    }
}

/// Index of the first group at or after `i` whose key is `cat`, or the
/// number of groups when there is none.
pub open spec fn find_key_from(gs: Seq<(Seq<u8>, GroupModel)>, cat: Seq<u8>, i: int) -> int
    decreases gs.len() - i,
{
    if i < 0 || i >= gs.len() {
        gs.len() as int
    } else if gs[i].0 == cat {
        i
    } else {
        find_key_from(gs, cat, i + 1)
    }
}

/// Routes one face's contribution into the groups: the jobs are appended to
/// the first group keyed by the category, the relative triangle indices
/// shifted by that group's vertex count; a fresh group is appended for a
/// category seen for the first time.
pub open spec fn spec_insert(
    gs: Seq<(Seq<u8>, GroupModel)>,
    cat: Seq<u8>,
    jobs: Seq<VertexJob>,
    rel: Seq<int>,
) -> Seq<(Seq<u8>, GroupModel)> {
    let i = find_key_from(gs, cat, 0);
    if i < gs.len() {
        let g = gs[i].1;
        gs.update(i, (cat, (g.0 + jobs, g.1 + rel.map_values(|x: int| x + g.0.len()))))
    } else {
        gs.push((cat, (jobs, rel)))
    }
}

/// The vertex count of the group a category's contribution would land in:
/// the first group keyed by the category, or zero for a category not seen
/// yet.
pub open spec fn group_len_for(gs: Seq<(Seq<u8>, GroupModel)>, cat: Seq<u8>) -> int {
    let i = find_key_from(gs, cat, 0);
    if i < gs.len() {
        gs[i].1.0.len() as int
    } else {
        0
    }
}

/// True when routing a face's contribution cannot outgrow the address space:
/// the target group's vertex count leaves room for the largest block the
/// face can emit (two vertices per loop edge for an ordinary face, the full
/// 17-by-17 grid for a displacement).
pub open spec fn spec_face_fits(gs: Seq<(Seq<u8>, GroupModel)>, f: Face, cat: Seq<u8>) -> bool {
    if f.displacement_info == -1 {
        group_len_for(gs, cat) + 2 * f.num_edges <= usize::MAX
    } else {
        group_len_for(gs, cat) + 289 <= usize::MAX
    }
}

/// The groups after the first `k` faces of the root model's range have been
/// processed; `None` once any of them is malformed.
pub open spec fn spec_groups_after(
    bsp: ParsedBspFile,
    nearest: Seq<u8>,
    first: int,
    k: int,
) -> Option<Seq<(Seq<u8>, GroupModel)>>
    decreases k,
{
    if k <= 0 {
        Some(Seq::empty())
    } else {
        match spec_groups_after(bsp, nearest, first, k - 1) {
            Option::None => None,
            Option::Some(gs) => match spec_face_outcome(bsp, first + (k - 1), nearest[first + (k
                - 1)]) {
                Option::None => None,
                Option::Some(Option::None) => Some(gs),
                Option::Some(Option::Some(t)) => Some(spec_insert(gs, t.0, t.1, t.2)),
            },
        }
    }
}

/// True when routing face `first + k` cannot outgrow the address space,
/// given the groups the earlier faces produced (vacuously true once the fold
/// has already failed or where the face is skipped or malformed).
pub open spec fn spec_step_fits(bsp: ParsedBspFile, nearest: Seq<u8>, first: int, k: int) -> bool {
    match spec_groups_after(bsp, nearest, first, k) {
        Option::Some(gs) => match spec_face_outcome(bsp, first + k, nearest[first + k]) {
            Option::Some(Option::Some(t)) => spec_face_fits(gs, bsp.faces@[first + k], t.0),
            _ => true,
        },
        Option::None => true,
    }
}

/// True when no face of the root model's range can outgrow the address
/// space as the fold accumulates geometry.
pub open spec fn spec_fold_fits(bsp: ParsedBspFile, nearest: Seq<u8>, first: int, num: int) -> bool
    decreases num,
{
    if num <= 0 {
        true
    } else {
        spec_fold_fits(bsp, nearest, first, num - 1) && spec_step_fits(bsp, nearest, first, num
            - 1)
    }
}

/// True when the whole run stays within the address space; trivially true
/// without a root model (the run fails for that reason instead).
pub open spec fn spec_run_fits(bsp: ParsedBspFile, nearest: Seq<u8>) -> bool {
    if bsp.brush_models@.len() == 0 {
        true
    } else {
        spec_fold_fits(
            bsp,
            nearest,
            bsp.brush_models@[0].first_face as int,
            bsp.brush_models@[0].num_faces as int,
        )
    }
}

/// A whole-run fitness guarantee covers every single step.
proof fn lemma_fold_fits_at(bsp: ParsedBspFile, nearest: Seq<u8>, first: int, num: int, k: int)
    requires
        0 <= k < num,
        spec_fold_fits(bsp, nearest, first, num),
    ensures
        spec_step_fits(bsp, nearest, first, k),
    decreases num,
{
    if k < num - 1 {
        lemma_fold_fits_at(bsp, nearest, first, num - 1, k);
    }
}

/// Once the fold has failed on a malformed face, it stays failed.
proof fn lemma_groups_after_none_sticks(
    bsp: ParsedBspFile,
    nearest: Seq<u8>,
    first: int,
    j: int,
    m: int,
)
    requires
        0 <= j <= m,
        spec_groups_after(bsp, nearest, first, j) is None,
    ensures
        spec_groups_after(bsp, nearest, first, m) is None,
    decreases m,
{
    if j < m {
        lemma_groups_after_none_sticks(bsp, nearest, first, j, m - 1);
    }
}

/// The grouped geometry of the whole container: every face of the root brush
/// model's range folded into per-category groups; `None` when there is no
/// root model, its face range leaves the face array, or any face in it is
/// malformed.
pub open spec fn spec_to_primitives(bsp: ParsedBspFile, nearest: Seq<u8>) -> Option<
    Seq<(Seq<u8>, GroupModel)>,
> {
    if bsp.brush_models@.len() == 0 {
        None
    } else {
        let bm = bsp.brush_models@[0];
        if bm.first_face + bm.num_faces <= bsp.faces@.len() {
            spec_groups_after(bsp, nearest, bm.first_face as int, bm.num_faces as int)
        } else {
            None
        }
    }
}

/// The model of the built groups: each key as bytes, each group as its jobs
/// and integer indices.
pub open spec fn groups_view(gs: Seq<(Vec<u8>, MaterialGroup)>) -> Seq<(Seq<u8>, GroupModel)> {
    gs.map_values(|p: (Vec<u8>, MaterialGroup)| (p.0@, (p.1.verticies@, idxs(p.1))))
}

fn bytes_eq(a: &Vec<u8>, b: &Vec<u8>) -> (r: bool)
    ensures
        r == (a@ == b@),
{
    let n = a.len();
    if n != b.len() {
        proof {
            assert(a@ != b@);
        }
        return false;
    }
    let mut i: usize = 0;
    while i < n
        invariant
            i <= n,
            n == a@.len() == b@.len(),
            forall|j: int| 0 <= j < i ==> a@[j] == b@[j],
        decreases n - i,
    {
        if a[i] != b[i] {
            proof {
                assert(a@ != b@);
            }
            return false;
        }
        i = i + 1;
    }
    proof {
        assert(a@ =~= b@);
    }
    true
}

fn check_surf_edge(s: SurfEdge, n: usize) -> (r: bool)
    ensures
        r == surf_edge_in_range(s, n as int),
{
    if s.0 > 0 {
        (s.0 as usize) < n
    } else {
        ((-(s.0 as i64)) as usize) < n
    }
}

/// A found key characterizes the first-match search: everything before the
/// result misses the key, and the result (when inside the sequence) carries it.
proof fn lemma_find_key_found(gs: Seq<(Seq<u8>, GroupModel)>, cat: Seq<u8>, i: int)
    requires
        0 <= i <= gs.len(),
    ensures
        i <= find_key_from(gs, cat, i) <= gs.len(),
        find_key_from(gs, cat, i) < gs.len() ==> gs[find_key_from(gs, cat, i)].0 == cat,
    decreases gs.len() - i,
{
    if i < gs.len() && gs[i].0 != cat {
        lemma_find_key_found(gs, cat, i + 1);
    }
}

/// Fan triangle indices based at `b` are the block-relative ones shifted by `b`.
proof fn lemma_fan_indices_shift(b: int, n: int)
    ensures
        fan_indices(b, n) =~= fan_indices(0, n).map_values(|x: int| x + b),
{
}

/// Displacement triangle indices based at `b` are the block-relative ones
/// shifted by `b`.
proof fn lemma_disp_indices_shift(b: int, n: int)
    ensures
        disp_indices(b, n) =~= disp_indices(0, n).map_values(|x: int| x + b),
{
}

fn find_group(groups: &Vec<(Vec<u8>, MaterialGroup)>, cat: &Vec<u8>) -> (r: usize)
    ensures
        r == find_key_from(groups_view(groups@), cat@, 0),
        r <= groups@.len(),
{
    let n = groups.len();
    let mut i: usize = 0;
    while i < n
        invariant
            i <= n,
            n == groups@.len(),
            find_key_from(groups_view(groups@), cat@, 0) == find_key_from(
                groups_view(groups@),
                cat@,
                i as int,
            ),
        decreases n - i,
    {
        if bytes_eq(&groups[i].0, cat) {
            proof {
                assert(groups_view(groups@)[i as int].0 == cat@);
                assert(find_key_from(groups_view(groups@), cat@, i as int) == i);
            }
            return i;
        }
        proof {
            assert(groups_view(groups@)[i as int].0 == groups@[i as int].0@);
            assert(find_key_from(groups_view(groups@), cat@, i as int) == find_key_from(
                groups_view(groups@),
                cat@,
                i + 1,
            ));
        }
        i = i + 1;
    }
    n
}

/// Processes one face of the root model's range against the groups: skips it,
/// routes its contribution into the group of its category, or fails on a
/// malformed face (or when the geometry would outgrow the address space).
#[verifier::rlimit(100)]
fn handle_face(
    groups: &mut Vec<(Vec<u8>, MaterialGroup)>,
    bsp: &ParsedBspFile,
    i: usize,
    near: u8,
) -> (r: Result<(), BspError>)
    requires
        i < bsp.faces@.len(),
        near < 4,
    ensures
        match spec_face_outcome(*bsp, i as int, near) {
            Option::None => r is Err,
            Option::Some(Option::None) => r matches Ok(v) && final(groups)@ == old(groups)@,
            Option::Some(Option::Some(t)) => {
                &&& (r matches Ok(v) && groups_view(final(groups)@) == spec_insert(
                    groups_view(old(groups)@),
                    t.0,
                    t.1,
                    t.2,
                )) || r == Err::<(), BspError>(BspError::Overflow)
                &&& spec_face_fits(groups_view(old(groups)@), bsp.faces@[i as int], t.0) ==> (r
                    matches Ok(v) && groups_view(final(groups)@) == spec_insert(
                    groups_view(old(groups)@),
                    t.0,
                    t.1,
                    t.2,
                ))
            },
        },
{
    let f = bsp.faces[i];
    if f.planenum as usize >= bsp.planes.len() {
        return Err(BspError::IndexOutOfBounds);
    }
    let num_edges_arr = bsp.edges.len();
    let se_len = bsp.surface_edges.len();
    let fe = f.first_edge as usize;
    let ne = f.num_edges as usize;
    if fe > se_len || ne > se_len - fe {
        return Err(BspError::IndexOutOfBounds);
    }
    let mut face_edges: Vec<Edge> = Vec::new();
    let mut k: usize = 0;
    while k < ne
        invariant
            k <= ne,
            f == bsp.faces@[i as int],
            i < bsp.faces@.len(),
            fe == f.first_edge as int,
            ne == f.num_edges as int,
            fe + ne <= se_len,
            se_len == bsp.surface_edges@.len(),
            num_edges_arr == bsp.edges@.len(),
            face_edges@.len() == k,
            forall|j: int|
                0 <= j < k ==> surf_edge_in_range(
                    #[trigger] bsp.surface_edges@[fe + j],
                    num_edges_arr as int,
                ),
            forall|j: int|
                0 <= j < k ==> face_edges@[j] == spec_get_edge(
                    #[trigger] bsp.surface_edges@[fe + j],
                    bsp.edges@,
                ),
        decreases ne - k,
    {
        let s = bsp.surface_edges[fe + k];
        if !check_surf_edge(s, num_edges_arr) {
            proof {
                assert(!surf_edge_in_range(bsp.surface_edges@[fe + k], num_edges_arr as int));
                assert(!face_loop_ok(f, bsp.surface_edges@, bsp.edges@.len() as int));
            }
            return Err(BspError::IndexOutOfBounds);
        }
        face_edges.push(get_edge(s, &bsp.edges));
        k = k + 1;
    }
    proof {
        assert(face_loop_ok(f, bsp.surface_edges@, bsp.edges@.len() as int));
        assert(face_edges@ =~= spec_face_loop(f, bsp.surface_edges@, bsp.edges@));
    }
    if f.tex_info as usize >= bsp.texture_infos.len() {
        return Err(BspError::IndexOutOfBounds);
    }
    let ti = bsp.texture_infos[f.tex_info as usize];
    let normal = bsp.planes[f.planenum as usize].normal;
    if ti.flags & SURF_NODRAW > 0 || ti.flags & SURF_SKIP > 0 || ti.flags & SURF_SKY > 0
        || ti.flags & SURF_HINT > 0 {
        return Ok(());
    }
    if ti.texture_data_index as usize >= bsp.texture_data.len() {
        return Err(BspError::IndexOutOfBounds);
    }
    let td = bsp.texture_data[ti.texture_data_index as usize];
    if td.name_index as usize >= bsp.texture_string_table.len() {
        return Err(BspError::IndexOutOfBounds);
    }
    let off = bsp.texture_string_table[td.name_index as usize].0;
    proof {
        if off as int <= bsp.texture_string_array.0@.len() {
            crate::parse_bsp::texture_string_array::lemma_terminator_bounds(
                bsp.texture_string_array.0@,
                off as int,
            );
        }
    }
    let name_str = match bsp.texture_string_array.get_str(off as usize) {
        Ok(s) => s,
        Err(e) => { return Err(e) },
    };
    let name = name_str.as_bytes();
    if name.len() >= 4 && name[0] == 84 && name[1] == 79 && name[2] == 79 && name[3] == 76 {
        return Ok(());
    }
    let cat = match category_of(name) {
        Ok(c) => c,
        Err(e) => { return Err(e) },
    };
    let gi = find_group(groups, &cat);
    let ghost pre = groups_view(groups@);
    let is_new = gi == groups.len();
    if is_new {
        groups.push((cat, MaterialGroup { verticies: Vec::new(), indices: Vec::new() }));
    }
    let mut pair = groups.remove(gi);
    let ghost base = pair.1.verticies@.len() as int;
    let ghost outcome = spec_face_outcome(*bsp, i as int, near);
    if f.displacement_info != -1 {
        if f.displacement_info < 0 {
            return Err(BspError::IndexOutOfBounds);
        }
        if f.displacement_info as usize >= bsp.displacement_info.len() {
            return Err(BspError::IndexOutOfBounds);
        }
        let di = bsp.displacement_info[f.displacement_info as usize];
        if pair.1.verticies.len() > usize::MAX - 289 {
            proof {
                if gi < pre.len() {
                    lemma_find_key_found(pre, cat@, 0);
                }
                assert(group_len_for(pre, cat@) == pair.1.verticies@.len());
            }
            return Err(BspError::Overflow);
        }
        match handle_displacement_face(
            &mut pair.1,
            &bsp.vertexes,
            &bsp.displacement_vertexes,
            normal,
            ti,
            td,
            &face_edges,
            di,
            near as usize,
        ) {
            Ok(u) => u,
            Err(e) => { return Err(e) },
        };
        proof {
            lemma_disp_indices_shift(base, spec_cells(di.power));
        }
    } else {
        if pair.1.verticies.len() > usize::MAX - 2 * ne {
            proof {
                if gi < pre.len() {
                    lemma_find_key_found(pre, cat@, 0);
                }
                assert(group_len_for(pre, cat@) == pair.1.verticies@.len());
            }
            return Err(BspError::Overflow);
        }
        match handle_normal_face(&mut pair.1, &bsp.vertexes, normal, ti, td, &face_edges) {
            Ok(u) => u,
            Err(e) => { return Err(e) },
        };
        proof {
            lemma_fan_indices_shift(base, ne as int);
        }
    }
    groups.insert(gi, pair);
    proof {
        let post = groups_view(groups@);
        let t = outcome.unwrap().unwrap();
        if is_new {
            assert(find_key_from(pre, t.0, 0) == pre.len());
            assert(t.2.map_values(|x: int| x + 0) =~= t.2);
            assert(Seq::<VertexJob>::empty() + t.1 =~= t.1);
            assert(Seq::<int>::empty() + t.2 =~= t.2);
            assert(post =~= spec_insert(pre, t.0, t.1, t.2));
        } else {
            lemma_find_key_found(pre, t.0, 0);
            assert(pre[gi as int].0 == t.0);
            assert(post =~= spec_insert(pre, t.0, t.1, t.2));
        }
    }
    Ok(())
}

/// Walks every face of the root brush model's range and folds each face's
/// contribution into per-category material groups, keyed by derived category
/// name in order of first use. Fails on a container whose faces reference
/// records out of range or carry unusable names, and on one with no root
/// model; `nearest` supplies, for each face, the loop corner nearest to the
/// displacement descriptor's recorded start position (ignored for faces that
/// are not displacements).
pub fn to_primitives(bsp: &ParsedBspFile, nearest: &Vec<u8>) -> (r: Result<
    Vec<(Vec<u8>, MaterialGroup)>,
    BspError,
>)
    requires
        nearest@.len() == bsp.faces@.len(),
        forall|i: int| 0 <= i < nearest@.len() ==> nearest@[i] < 4,
    ensures
        r matches Ok(gs) ==> spec_to_primitives(*bsp, nearest@) == Some(groups_view(gs@)),
        spec_to_primitives(*bsp, nearest@) is None ==> r is Err,
        r is Err ==> spec_to_primitives(*bsp, nearest@) is None || r == Err::<
            Vec<(Vec<u8>, MaterialGroup)>,
            BspError,
        >(BspError::Overflow),
        spec_to_primitives(*bsp, nearest@) is Some && spec_run_fits(*bsp, nearest@) ==> r is Ok,
        bsp.brush_models@.len() == 0 ==> r == Err::<Vec<(Vec<u8>, MaterialGroup)>, BspError>(
            BspError::NoBrushModel,
        ),
        bsp.brush_models@.len() > 0 && bsp.brush_models@[0].first_face
            + bsp.brush_models@[0].num_faces > bsp.faces@.len() ==> r == Err::<
            Vec<(Vec<u8>, MaterialGroup)>,
            BspError,
        >(BspError::IndexOutOfBounds),
{
    if bsp.brush_models.len() == 0 {
        return Err(BspError::NoBrushModel);
    }
    let bm = bsp.brush_models[0];
    let first = bm.first_face as usize;
    let num = bm.num_faces as usize;
    let faces_len = bsp.faces.len();
    if first > faces_len || num > faces_len - first {
        return Err(BspError::IndexOutOfBounds);
    }
    let mut groups: Vec<(Vec<u8>, MaterialGroup)> = Vec::new();
    let mut k: usize = 0;
    while k < num
        invariant
            k <= num,
            bsp.brush_models@.len() > 0,
            first == bsp.brush_models@[0].first_face as int,
            num == bsp.brush_models@[0].num_faces as int,
            first + num <= faces_len,
            faces_len == bsp.faces@.len(),
            nearest@.len() == bsp.faces@.len(),
            forall|i: int| 0 <= i < nearest@.len() ==> nearest@[i] < 4,
            spec_groups_after(*bsp, nearest@, first as int, k as int) == Some(
                groups_view(groups@),
            ),
        decreases num - k,
    {
        let near = nearest[first + k];
        let ghost gsnap = groups_view(groups@);
        match handle_face(&mut groups, bsp, first + k, near) {
            Ok(u) => u,
            Err(e) => {
                proof {
                    let ki = k as int;
                    let fi = first as int;
                    let outcome = spec_face_outcome(*bsp, fi + ki, nearest@[fi + ki]);
                    if outcome is None {
                        assert(spec_groups_after(*bsp, nearest@, fi, ki + 1) is None);
                        lemma_groups_after_none_sticks(*bsp, nearest@, fi, ki + 1, num as int);
                    } else {
                        let t = outcome.unwrap().unwrap();
                        assert(!spec_face_fits(gsnap, bsp.faces@[fi + ki], t.0));
                        assert(!spec_step_fits(*bsp, nearest@, fi, ki));
                        if spec_fold_fits(*bsp, nearest@, fi, num as int) {
                            lemma_fold_fits_at(*bsp, nearest@, fi, num as int, ki);
                            assert(false);
                        }
                    }
                }
                return Err(e);
            },
        };
        proof {
            assert(spec_groups_after(*bsp, nearest@, first as int, k + 1) == Some(
                groups_view(groups@),
            ));
        }
        k = k + 1;
    }
    Ok(groups)
}

/// True when face `i` is a displacement whose descriptor and 4-corner loop
/// resolve: what the caller needs to pick the nearest corner.
pub open spec fn corner_data_ok(bsp: ParsedBspFile, i: int) -> bool {
    let f = bsp.faces@[i];
    &&& f.displacement_info != -1
    &&& 0 <= f.displacement_info < bsp.displacement_info@.len()
    &&& f.num_edges == 4
    &&& face_loop_ok(f, bsp.surface_edges@, bsp.edges@.len() as int)
    &&& corner_endpoints_ok(
        spec_face_loop(f, bsp.surface_edges@, bsp.edges@),
        bsp.vertexes@.len() as int,
    )
}

/// True when the first endpoint of each of the 4 loop edges is a valid vertex.
pub open spec fn corner_endpoints_ok(face_edges: Seq<Edge>, num_vertexes: int) -> bool {
    &&& face_edges.len() == 4
    &&& face_edges[0].first < num_vertexes
    &&& face_edges[1].first < num_vertexes
    &&& face_edges[2].first < num_vertexes
    &&& face_edges[3].first < num_vertexes
}

/// Resolves, for a displacement face, its 4 loop corner positions and the
/// descriptor's recorded start position, so that the caller can determine
/// the corner nearest to that start position. Yields nothing for faces that
/// are not well-formed displacements.
pub fn displacement_corner_data(bsp: &ParsedBspFile, i: usize) -> (r: Option<
    ([Vec3Bits; 4], Vec3Bits),
>)
    requires
        i < bsp.faces@.len(),
    ensures
        r is Some <==> corner_data_ok(*bsp, i as int),
        r matches Some(p) ==> {
            let f = bsp.faces@[i as int];
            &&& p.0 == spec_corners(
                spec_face_loop(f, bsp.surface_edges@, bsp.edges@),
                bsp.vertexes@,
            )
            &&& p.1 == bsp.displacement_info@[f.displacement_info as int].start_position
        },
{
    let f = bsp.faces[i];
    if f.displacement_info == -1 || f.displacement_info < 0 {
        return None;
    }
    if f.displacement_info as usize >= bsp.displacement_info.len() {
        return None;
    }
    if f.num_edges != 4 {
        return None;
    }
    let num_edges_arr = bsp.edges.len();
    let se_len = bsp.surface_edges.len();
    let fe = f.first_edge as usize;
    if fe > se_len || 4 > se_len - fe {
        return None;
    }
    let s0 = bsp.surface_edges[fe];
    let s1 = bsp.surface_edges[fe + 1];
    let s2 = bsp.surface_edges[fe + 2];
    let s3 = bsp.surface_edges[fe + 3];
    if !check_surf_edge(s0, num_edges_arr) || !check_surf_edge(s1, num_edges_arr)
        || !check_surf_edge(s2, num_edges_arr) || !check_surf_edge(s3, num_edges_arr) {
        return None;
    }
    let e0 = get_edge(s0, &bsp.edges);
    let e1 = get_edge(s1, &bsp.edges);
    let e2 = get_edge(s2, &bsp.edges);
    let e3 = get_edge(s3, &bsp.edges);
    let nv = bsp.vertexes.len();
    if e0.first as usize >= nv || e1.first as usize >= nv || e2.first as usize >= nv || e3.first
        as usize >= nv {
        return None;
    }
    let corners = [
        bsp.vertexes[e0.first as usize].0,
        bsp.vertexes[e1.first as usize].0,
        bsp.vertexes[e2.first as usize].0,
        bsp.vertexes[e3.first as usize].0,
    ];
    proof {
        let fl = spec_face_loop(f, bsp.surface_edges@, bsp.edges@);
        assert(fl[0] == e0 && fl[1] == e1 && fl[2] == e2 && fl[3] == e3);
        assert(corners =~= spec_corners(fl, bsp.vertexes@));
        assert forall|k: int| 0 <= k < f.num_edges implies surf_edge_in_range(
            #[trigger] bsp.surface_edges@[f.first_edge + k],
            bsp.edges@.len() as int,
        ) by {
            assert(k == 0 || k == 1 || k == 2 || k == 3);
        }
    }
    Some((corners, bsp.displacement_info[f.displacement_info as usize].start_position))
}

} // verus!
