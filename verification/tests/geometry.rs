//! Geometry reconstruction tests: surface-edge resolution, category
//! derivation, fan triangulation and displacement tessellation counts, the
//! skip policy, and a minimal end-to-end scene.

use bsp_glb::error::BspError;
use bsp_glb::parse_bsp::bsp_to_primitives::category_of;
use bsp_glb::parse_bsp::bsp_to_primitives::get_edge;
use bsp_glb::parse_bsp::bsp_to_primitives::to_primitives;
use bsp_glb::parse_bsp::edge::Edge;
use bsp_glb::parse_bsp::parse_bsp;
use bsp_glb::parse_bsp::surfedges::SurfEdge;

fn push_vec3(out: &mut Vec<u8>, x: f32, y: f32, z: f32) {
    out.extend_from_slice(&x.to_le_bytes());
    out.extend_from_slice(&y.to_le_bytes());
    out.extend_from_slice(&z.to_le_bytes());
}

fn plane_record() -> Vec<u8> {
    let mut r = Vec::new();
    push_vec3(&mut r, 0.0, 0.0, 1.0);
    r.extend_from_slice(&0.0f32.to_le_bytes());
    r.extend_from_slice(&2u32.to_le_bytes());
    r
}

fn vertex_record(x: f32, y: f32, z: f32) -> Vec<u8> {
    let mut r = Vec::new();
    push_vec3(&mut r, x, y, z);
    r
}

fn edge_record(first: u16, second: u16) -> Vec<u8> {
    let mut r = Vec::new();
    r.extend_from_slice(&first.to_le_bytes());
    r.extend_from_slice(&second.to_le_bytes());
    r
}

fn face_record(
    planenum: u16,
    first_edge: u32,
    num_edges: u16,
    tex_info: u16,
    displacement_info: i16,
) -> Vec<u8> {
    let mut r = vec![0u8; 56];
    r[0..2].copy_from_slice(&planenum.to_le_bytes());
    r[2] = 0;
    r[3] = 0;
    r[4..8].copy_from_slice(&first_edge.to_le_bytes());
    r[8..10].copy_from_slice(&num_edges.to_le_bytes());
    r[10..12].copy_from_slice(&tex_info.to_le_bytes());
    r[12..14].copy_from_slice(&displacement_info.to_le_bytes());
    r
}

fn texinfo_record(flags: u32, texture_data_index: u32) -> Vec<u8> {
    let mut r = vec![0u8; 72];
    r[0..4].copy_from_slice(&1.0f32.to_le_bytes());
    r[20..24].copy_from_slice(&1.0f32.to_le_bytes());
    r[64..68].copy_from_slice(&flags.to_le_bytes());
    r[68..72].copy_from_slice(&texture_data_index.to_le_bytes());
    r
}

fn texdata_record(name_index: u32, width: u32, height: u32) -> Vec<u8> {
    let mut r = vec![0u8; 32];
    r[12..16].copy_from_slice(&name_index.to_le_bytes());
    r[16..20].copy_from_slice(&width.to_le_bytes());
    r[20..24].copy_from_slice(&height.to_le_bytes());
    r
}

fn model_record(first_face: u32, num_faces: u32) -> Vec<u8> {
    let mut r = vec![0u8; 48];
    r[40..44].copy_from_slice(&first_face.to_le_bytes());
    r[44..48].copy_from_slice(&num_faces.to_le_bytes());
    r
}

fn dispinfo_record(vertex_start: u32, power: u32, sx: f32, sy: f32, sz: f32) -> Vec<u8> {
    let mut r = vec![0u8; 176];
    r[0..4].copy_from_slice(&sx.to_le_bytes());
    r[4..8].copy_from_slice(&sy.to_le_bytes());
    r[8..12].copy_from_slice(&sz.to_le_bytes());
    r[12..16].copy_from_slice(&vertex_start.to_le_bytes());
    r[20..24].copy_from_slice(&power.to_le_bytes());
    r
}

fn dispvertex_record() -> Vec<u8> {
    let mut r = Vec::new();
    push_vec3(&mut r, 0.0, 0.0, 1.0);
    r.extend_from_slice(&1.0f32.to_le_bytes());
    r.extend_from_slice(&0.0f32.to_le_bytes());
    r
}

/// Assembles a container from (lump index, payload) pairs.
fn build_bsp(lumps: &[(usize, Vec<u8>)]) -> Vec<u8> {
    let mut entries = [(0u32, 0u32); 64];
    let mut data: Vec<u8> = Vec::new();
    for (idx, payload) in lumps {
        entries[*idx] = ((1032 + data.len()) as u32, payload.len() as u32);
        data.extend_from_slice(payload);
    }
    let mut out = Vec::new();
    out.extend_from_slice(b"VBSP");
    out.extend_from_slice(&20u32.to_le_bytes());
    for (off, len) in entries {
        out.extend_from_slice(&off.to_le_bytes());
        out.extend_from_slice(&len.to_le_bytes());
        out.extend_from_slice(&0u32.to_le_bytes());
        out.extend_from_slice(&[0u8; 4]);
    }
    out.extend_from_slice(&data);
    out
}

/// A quad face over 4 vertices with the given texture flags and name, plus
/// the lumps every decode needs.
fn quad_bsp(flags: u32, name: &[u8], displacement: bool) -> Vec<u8> {
    let mut vertices = Vec::new();
    vertices.extend_from_slice(&vertex_record(0.0, 0.0, 0.0));
    vertices.extend_from_slice(&vertex_record(1.0, 0.0, 0.0));
    vertices.extend_from_slice(&vertex_record(1.0, 1.0, 0.0));
    vertices.extend_from_slice(&vertex_record(0.0, 1.0, 0.0));
    let mut edges = Vec::new();
    edges.extend_from_slice(&edge_record(9, 9));
    edges.extend_from_slice(&edge_record(0, 1));
    edges.extend_from_slice(&edge_record(1, 2));
    edges.extend_from_slice(&edge_record(2, 3));
    edges.extend_from_slice(&edge_record(3, 0));
    let mut surfedges = Vec::new();
    for k in 1..=4i32 {
        surfedges.extend_from_slice(&k.to_le_bytes());
    }
    let mut blob = name.to_vec();
    blob.push(0);
    let mut table = Vec::new();
    table.extend_from_slice(&0u32.to_le_bytes());
    let disp_index: i16 = if displacement { 0 } else { -1 };
    let mut dispinfos = Vec::new();
    let mut dispverts = Vec::new();
    if displacement {
        dispinfos.extend_from_slice(&dispinfo_record(0, 2, 0.0, 0.0, 0.0));
        for _ in 0..25 {
            dispverts.extend_from_slice(&dispvertex_record());
        }
    }
    build_bsp(&[
        (1, plane_record()),
        (2, texdata_record(0, 16, 16)),
        (3, vertices),
        (6, texinfo_record(flags, 0)),
        (7, face_record(0, 0, 4, 0, disp_index)),
        (12, edges),
        (13, surfedges),
        (14, model_record(0, 1)),
        (26, dispinfos),
        (33, dispverts),
        (43, blob),
        (44, table),
    ])
}

/// Re-packs one lump of an assembled container as an LZMA-compressed region.
fn compress_lump(file: &mut Vec<u8>, index: usize) {
    let dir = 8 + 16 * index;
    let off = u32::from_le_bytes(file[dir..dir + 4].try_into().unwrap()) as usize;
    let len = u32::from_le_bytes(file[dir + 4..dir + 8].try_into().unwrap()) as usize;
    let plain = file[off..off + len].to_vec();
    let mut packed = Vec::new();
    lzma_rs::lzma_compress(&mut std::io::Cursor::new(plain.as_slice()), &mut packed).unwrap();
    let props = &packed[0..5];
    let body = &packed[13..];
    let new_off = file.len();
    file.extend_from_slice(b"LZMA");
    file.extend_from_slice(&(plain.len() as u32).to_le_bytes());
    file.extend_from_slice(&(body.len() as u32).to_le_bytes());
    file.extend_from_slice(props);
    file.extend_from_slice(body);
    file[dir..dir + 4].copy_from_slice(&(new_off as u32).to_le_bytes());
    file[dir + 12..dir + 16].copy_from_slice(b"LZMA");
}

#[test]
fn compressed_vertex_lump_decodes_inside_container() {
    let mut file = quad_bsp(0, b"metal/plate01", false);
    let plain_parsed = parse_bsp(&file).unwrap();
    compress_lump(&mut file, 3);
    let parsed = parse_bsp(&file).unwrap();
    assert_eq!(parsed.vertexes.len(), plain_parsed.vertexes.len());
    assert_eq!(parsed.vertexes[2].0.x, 1.0f32.to_bits());
    let nearest = vec![0u8; parsed.faces.len()];
    let groups = to_primitives(&parsed, &nearest).unwrap();
    assert_eq!(groups[0].1.verticies.len(), 5);
}

#[test]
fn get_edge_resolves_sign() {
    let edges = vec![
        Edge { first: 1, second: 2 },
        Edge { first: 3, second: 4 },
        Edge { first: 5, second: 6 },
    ];
    let forward = get_edge(SurfEdge(1), &edges);
    assert_eq!(forward, Edge { first: 3, second: 4 });
    let backward = get_edge(SurfEdge(-2), &edges);
    assert_eq!(backward, Edge { first: 6, second: 5 });
}

#[test]
fn category_of_known_names() {
    assert_eq!(category_of(b"maps/mymap/nature/dirt").unwrap(), b"NATURE");
    assert_eq!(category_of(b"metal/plate01").unwrap(), b"METAL");
    assert_eq!(category_of(b"BRICK01").unwrap(), b"BRICK01");
    assert_eq!(
        category_of(b"maps/onlymapname").unwrap_err(),
        BspError::BadCategory
    );
}

#[test]
fn quad_face_emits_fan() {
    let file = quad_bsp(0, b"metal/plate01", false);
    let parsed = parse_bsp(&file).unwrap();
    let nearest = vec![0u8; parsed.faces.len()];
    let groups = to_primitives(&parsed, &nearest).unwrap();
    assert_eq!(groups.len(), 1);
    assert_eq!(groups[0].0, b"METAL".to_vec());
    // a loop of 4 edges: 1 + 2*(4-2) vertices and 4-2 triangles
    assert_eq!(groups[0].1.verticies.len(), 5);
    assert_eq!(groups[0].1.indices.len(), 6);
    for &ix in groups[0].1.indices.iter() {
        assert!(ix < groups[0].1.verticies.len());
    }
}

#[test]
fn no_draw_face_contributes_nothing() {
    // SURF_NODRAW is bit 0x80
    let file = quad_bsp(0x80, b"metal/plate01", false);
    let parsed = parse_bsp(&file).unwrap();
    let nearest = vec![0u8; parsed.faces.len()];
    let groups = to_primitives(&parsed, &nearest).unwrap();
    assert_eq!(groups.len(), 0);
}

#[test]
fn tool_texture_is_skipped() {
    let file = quad_bsp(0, b"TOOLS/toolsnodraw", false);
    let parsed = parse_bsp(&file).unwrap();
    let nearest = vec![0u8; parsed.faces.len()];
    let groups = to_primitives(&parsed, &nearest).unwrap();
    assert_eq!(groups.len(), 0);
}

#[test]
fn displacement_emits_grid() {
    let file = quad_bsp(0, b"nature/dirt01", true);
    let parsed = parse_bsp(&file).unwrap();
    let nearest = vec![0u8; parsed.faces.len()];
    let groups = to_primitives(&parsed, &nearest).unwrap();
    assert_eq!(groups.len(), 1);
    // power 2: (2^2+1)^2 vertices, 2*(2^2)^2 triangles at 3 indices each
    assert_eq!(groups[0].1.verticies.len(), 25);
    assert_eq!(groups[0].1.indices.len(), 96);
    for &ix in groups[0].1.indices.iter() {
        assert!(ix < groups[0].1.verticies.len());
    }
}

#[test]
fn displacement_with_bad_power_is_rejected() {
    let mut file = quad_bsp(0, b"nature/dirt01", true);
    // power lives at byte 20 of the displacement record; locate it via the
    // directory entry of lump 26
    let off = u32::from_le_bytes(file[8 + 16 * 26..12 + 16 * 26].try_into().unwrap()) as usize;
    file[off + 20..off + 24].copy_from_slice(&9u32.to_le_bytes());
    let parsed = parse_bsp(&file).unwrap();
    let nearest = vec![0u8; parsed.faces.len()];
    assert_eq!(
        to_primitives(&parsed, &nearest).unwrap_err(),
        BspError::DisplacementPower
    );
}

#[test]
fn displacement_needs_exactly_four_edges() {
    let file = quad_bsp(0, b"nature/dirt01", true);
    let mut parsed = parse_bsp(&file).unwrap();
    parsed.faces[0].num_edges = 3;
    let nearest = vec![0u8; parsed.faces.len()];
    assert_eq!(
        to_primitives(&parsed, &nearest).unwrap_err(),
        BspError::DisplacementEdgeCount
    );
}

#[test]
fn ordinary_face_needs_two_edges() {
    let file = quad_bsp(0, b"metal/plate01", false);
    let mut parsed = parse_bsp(&file).unwrap();
    parsed.faces[0].num_edges = 1;
    let nearest = vec![0u8; parsed.faces.len()];
    assert_eq!(
        to_primitives(&parsed, &nearest).unwrap_err(),
        BspError::FaceEdgeCount
    );
}

#[test]
fn missing_root_model_is_rejected() {
    let file = quad_bsp(0, b"metal/plate01", false);
    let mut parsed = parse_bsp(&file).unwrap();
    parsed.brush_models.clear();
    let nearest = vec![0u8; parsed.faces.len()];
    assert_eq!(
        to_primitives(&parsed, &nearest).unwrap_err(),
        BspError::NoBrushModel
    );
}

#[test]
fn shared_category_shares_one_group() {
    // two quads with the same material must land in one group
    let file = quad_bsp(0, b"metal/plate01", false);
    let parsed = parse_bsp(&file).unwrap();
    let mut doubled = parsed;
    let face = doubled.faces[0];
    doubled.faces.push(face);
    doubled.brush_models[0].num_faces = 2;
    let nearest = vec![0u8; doubled.faces.len()];
    let groups = to_primitives(&doubled, &nearest).unwrap();
    assert_eq!(groups.len(), 1);
    assert_eq!(groups[0].1.verticies.len(), 10);
    assert_eq!(groups[0].1.indices.len(), 12);
    // the second face's triangles index the second vertex block
    assert_eq!(groups[0].1.indices[6], 5);
}
