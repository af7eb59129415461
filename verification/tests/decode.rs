//! Decoding tests: header and directory, typed record arrays, compressed
//! lumps, and the texture-name lookup.

use bsp_glb::error::BspError;
use bsp_glb::parse_bsp::brush_model::parse_bush_model;
use bsp_glb::parse_bsp::displacement::parse_displacement_vertexes;
use bsp_glb::parse_bsp::displacement::parse_displacements;
use bsp_glb::parse_bsp::edge::parse_edges;
use bsp_glb::parse_bsp::face::parse_faces;
use bsp_glb::parse_bsp::parse_split_lump::read_lump_data;
use bsp_glb::parse_bsp::plane::parse_planes;
use bsp_glb::parse_bsp::read_header;
use bsp_glb::parse_bsp::surfedges::parse_surf_edges;
use bsp_glb::parse_bsp::texinfo::parse_texture_info;
use bsp_glb::parse_bsp::texture_string_array::TextureDataStringArray;
use bsp_glb::parse_bsp::vertex::parse_vertices;
use bsp_glb::parse_bsp::vis_node_leaf::parse_vis_leaf;
use bsp_glb::parse_bsp::vis_node_leaf::parse_vis_node;
use bsp_glb::parse_bsp::Lump;

fn plain_lump(offset: u32, length: u32) -> Lump {
    Lump {
        offset,
        length,
        version: 0,
        id: [0; 4],
    }
}

fn file_with_payload(payload: &[u8]) -> (Vec<u8>, Lump) {
    let offset = 64u32;
    let mut file = vec![0u8; offset as usize];
    file.extend_from_slice(payload);
    (file, plain_lump(offset, payload.len() as u32))
}

#[test]
fn header_rejects_short_file() {
    let file = vec![0u8; 100];
    assert_eq!(read_header(&file), Err(BspError::Truncated));
}

#[test]
fn header_rejects_bad_magic() {
    let mut file = vec![0u8; 1032];
    file[0..4].copy_from_slice(b"XBSP");
    assert_eq!(read_header(&file), Err(BspError::BadMagic));
}

#[test]
fn header_reads_version_and_lumps() {
    let mut file = vec![0u8; 1032];
    file[0..4].copy_from_slice(b"VBSP");
    file[4..8].copy_from_slice(&20u32.to_le_bytes());
    // lump 7 entry starts at 8 + 16*7 = 120
    file[120..124].copy_from_slice(&4096u32.to_le_bytes());
    file[124..128].copy_from_slice(&56u32.to_le_bytes());
    file[128..132].copy_from_slice(&3u32.to_le_bytes());
    let (version, lumps) = read_header(&file).unwrap();
    assert_eq!(version, 20);
    assert_eq!(lumps.len(), 64);
    assert_eq!(lumps[7].offset, 4096);
    assert_eq!(lumps[7].length, 56);
    assert_eq!(lumps[7].version, 3);
    assert!(!lumps[7].is_compressed());
}

#[test]
fn planes_decode_fields() {
    let mut payload = Vec::new();
    payload.extend_from_slice(&1.0f32.to_le_bytes());
    payload.extend_from_slice(&0.0f32.to_le_bytes());
    payload.extend_from_slice(&0.0f32.to_le_bytes());
    payload.extend_from_slice(&42.5f32.to_le_bytes());
    payload.extend_from_slice(&2u32.to_le_bytes());
    let (file, lump) = file_with_payload(&payload);
    let planes = parse_planes(&file, lump).unwrap();
    assert_eq!(planes.len(), 1);
    assert_eq!(planes[0].normal.x, 1.0f32.to_bits());
    assert_eq!(planes[0].distance, 42.5f32.to_bits());
    assert_eq!(planes[0].axis, 2);
}

#[test]
fn record_count_times_size_is_consumed_length() {
    // three 20-byte plane records: re-measuring the consumed byte count
    // must give back exactly 3 * 20
    let payload = vec![7u8; 60];
    let (file, lump) = file_with_payload(&payload);
    let planes = parse_planes(&file, lump).unwrap();
    assert_eq!(planes.len() * 20, payload.len());
    // twelve 12-byte vertices
    let payload = vec![9u8; 144];
    let (file, lump) = file_with_payload(&payload);
    let vertices = parse_vertices(&file, lump).unwrap();
    assert_eq!(vertices.len() * 12, payload.len());
}

#[test]
fn ragged_lump_is_rejected() {
    let payload = vec![0u8; 61];
    let (file, lump) = file_with_payload(&payload);
    assert_eq!(parse_planes(&file, lump).unwrap_err(), BspError::LumpSize);
}

#[test]
fn surf_edges_keep_sign() {
    let mut payload = Vec::new();
    payload.extend_from_slice(&5i32.to_le_bytes());
    payload.extend_from_slice(&(-3i32).to_le_bytes());
    let (file, lump) = file_with_payload(&payload);
    let edges = parse_surf_edges(&file, lump).unwrap();
    assert_eq!(edges[0].0, 5);
    assert_eq!(edges[1].0, -3);
}

#[test]
fn out_of_bounds_lump_is_rejected() {
    let file = vec![0u8; 64];
    let lump = plain_lump(60, 100);
    assert_eq!(parse_planes(&file, lump).unwrap_err(), BspError::Truncated);
}

#[test]
fn compressed_lump_round_trips() {
    let plain: Vec<u8> = (0..200u32).map(|i| (i * 7 % 251) as u8).collect();
    let mut packed = Vec::new();
    lzma_rs::lzma_compress(&mut std::io::Cursor::new(plain.as_slice()), &mut packed).unwrap();
    // the packed stream carries a 13-byte standard header: 5 properties
    // bytes plus the 64-bit size; the container keeps the properties and
    // 32-bit sizes in its own 17-byte sub-header
    let props = &packed[0..5];
    let body = &packed[13..];
    let offset = 32usize;
    let mut file = vec![0u8; offset];
    file.extend_from_slice(b"LZMA");
    file.extend_from_slice(&(plain.len() as u32).to_le_bytes());
    file.extend_from_slice(&(body.len() as u32).to_le_bytes());
    file.extend_from_slice(props);
    file.extend_from_slice(body);
    let lump = Lump {
        offset: offset as u32,
        length: 0,
        version: 0,
        id: *b"LZMA",
    };
    assert!(lump.is_compressed());
    let data = read_lump_data(&file, lump).unwrap();
    assert_eq!(data, plain);
}

#[test]
fn compressed_lump_bad_magic_is_rejected() {
    let mut file = vec![0u8; 32];
    file.extend_from_slice(b"XYZW");
    file.extend_from_slice(&[0u8; 13]);
    let lump = Lump {
        offset: 32,
        length: 0,
        version: 0,
        id: [1, 0, 0, 0],
    };
    assert_eq!(read_lump_data(&file, lump), Err(BspError::BadLzmaMagic));
}

#[test]
fn corrupt_compressed_payload_is_rejected() {
    // a sub-header with valid magic but impossible codec properties
    let mut file = vec![0u8; 32];
    file.extend_from_slice(b"LZMA");
    file.extend_from_slice(&100u32.to_le_bytes());
    file.extend_from_slice(&8u32.to_le_bytes());
    file.extend_from_slice(&[0xFF; 5]);
    file.extend_from_slice(&[0xAB; 8]);
    let lump = Lump {
        offset: 32,
        length: 0,
        version: 0,
        id: *b"LZMA",
    };
    assert_eq!(read_lump_data(&file, lump), Err(BspError::Decompress));
}

#[test]
fn wrong_declared_decompressed_size_is_rejected() {
    let plain = vec![5u8; 40];
    let mut packed = Vec::new();
    lzma_rs::lzma_compress(&mut std::io::Cursor::new(plain.as_slice()), &mut packed).unwrap();
    let props = &packed[0..5];
    let body = &packed[13..];
    let mut file = vec![0u8; 32];
    file.extend_from_slice(b"LZMA");
    // declare one byte more than the stream actually decompresses to
    file.extend_from_slice(&(plain.len() as u32 + 1).to_le_bytes());
    file.extend_from_slice(&(body.len() as u32).to_le_bytes());
    file.extend_from_slice(props);
    file.extend_from_slice(body);
    let lump = Lump {
        offset: 32,
        length: 0,
        version: 0,
        id: *b"LZMA",
    };
    // the codec reads the size from the reconstructed standard header, so
    // either the codec or the length validation must reject the stream
    let r = read_lump_data(&file, lump);
    assert!(r == Err(BspError::DecompressedLength) || r == Err(BspError::Decompress));
}

#[test]
fn get_str_reads_terminated_text() {
    let blob = TextureDataStringArray(b"metal/plate01\0brick/red02\0".to_vec());
    assert_eq!(blob.get_str(0).unwrap(), "metal/plate01");
    assert_eq!(blob.get_str(14).unwrap(), "brick/red02");
}

#[test]
fn get_str_accepts_multibyte_text() {
    let mut bytes = "caf\u{e9}/mur".as_bytes().to_vec();
    bytes.push(0);
    let blob = TextureDataStringArray(bytes);
    assert_eq!(blob.get_str(0).unwrap(), "caf\u{e9}/mur");
}

#[test]
fn get_str_rejects_non_text_bytes() {
    let blob = TextureDataStringArray(vec![0xFF, 0xFE, 0]);
    assert_eq!(blob.get_str(0), Err(BspError::BadNameText));
}

#[test]
fn get_str_rejects_missing_terminator() {
    let blob = TextureDataStringArray(b"abc".to_vec());
    assert_eq!(blob.get_str(0), Err(BspError::UnterminatedName));
}

#[test]
fn faces_reject_bad_boolean_bytes() {
    let mut payload = vec![0u8; 56];
    payload[2] = 7;
    let (file, lump) = file_with_payload(&payload);
    assert_eq!(parse_faces(&file, lump).unwrap_err(), BspError::BadBool);
}

#[test]
fn faces_decode_edge_loop_fields() {
    let mut payload = vec![0u8; 56];
    payload[0..2].copy_from_slice(&3u16.to_le_bytes());
    payload[2] = 1;
    payload[4..8].copy_from_slice(&17u32.to_le_bytes());
    payload[8..10].copy_from_slice(&4u16.to_le_bytes());
    payload[12..14].copy_from_slice(&(-1i16).to_le_bytes());
    let (file, lump) = file_with_payload(&payload);
    let faces = parse_faces(&file, lump).unwrap();
    assert_eq!(faces.len(), 1);
    assert_eq!(faces[0].planenum, 3);
    assert!(faces[0].side);
    assert_eq!(faces[0].first_edge, 17);
    assert_eq!(faces[0].num_edges, 4);
    assert_eq!(faces[0].displacement_info, -1);
}

#[test]
fn edges_decode_endpoints() {
    let mut payload = Vec::new();
    payload.extend_from_slice(&7u16.to_le_bytes());
    payload.extend_from_slice(&9u16.to_le_bytes());
    let (file, lump) = file_with_payload(&payload);
    let edges = parse_edges(&file, lump).unwrap();
    assert_eq!(edges[0].first, 7);
    assert_eq!(edges[0].second, 9);
    let reversed = edges[0].reverse();
    assert_eq!(reversed.first, 9);
    assert_eq!(reversed.second, 7);
}

#[test]
fn brush_models_decode_face_range() {
    let mut payload = vec![0u8; 48];
    payload[40..44].copy_from_slice(&11u32.to_le_bytes());
    payload[44..48].copy_from_slice(&5u32.to_le_bytes());
    let (file, lump) = file_with_payload(&payload);
    let models = parse_bush_model(&file, lump).unwrap();
    assert_eq!(models[0].first_face, 11);
    assert_eq!(models[0].num_faces, 5);
}

#[test]
fn vis_records_decode() {
    let mut payload = vec![0u8; 32];
    payload[0..4].copy_from_slice(&6u32.to_le_bytes());
    payload[4..8].copy_from_slice(&(-2i32).to_le_bytes());
    let (file, lump) = file_with_payload(&payload);
    let nodes = parse_vis_node(&file, lump).unwrap();
    assert_eq!(nodes[0].plane_id, 6);
    assert_eq!(nodes[0].children[0], -2);
    let leaves = parse_vis_leaf(&file, lump).unwrap();
    assert_eq!(leaves[0].contents, 6);
}

#[test]
fn texinfo_decodes_projection_and_flags() {
    let mut payload = vec![0u8; 72];
    payload[0..4].copy_from_slice(&2.0f32.to_le_bytes());
    payload[12..16].copy_from_slice(&8.0f32.to_le_bytes());
    payload[64..68].copy_from_slice(&0x84u32.to_le_bytes());
    payload[68..72].copy_from_slice(&1u32.to_le_bytes());
    let (file, lump) = file_with_payload(&payload);
    let infos = parse_texture_info(&file, lump).unwrap();
    assert_eq!(infos[0].texture_vectors[0].axis.x, 2.0f32.to_bits());
    assert_eq!(infos[0].texture_vectors[0].offset, 8.0f32.to_bits());
    assert_eq!(infos[0].flags, 0x84);
    assert_eq!(infos[0].texture_data_index, 1);
}

#[test]
fn displacement_records_decode() {
    let mut payload = vec![0u8; 176];
    payload[12..16].copy_from_slice(&3u32.to_le_bytes());
    payload[20..24].copy_from_slice(&2u32.to_le_bytes());
    let (file, lump) = file_with_payload(&payload);
    let infos = parse_displacements(&file, lump).unwrap();
    assert_eq!(infos[0].vertex_start, 3);
    assert_eq!(infos[0].power, 2);
    let mut payload = vec![0u8; 20];
    payload[12..16].copy_from_slice(&4.5f32.to_le_bytes());
    let (file, lump) = file_with_payload(&payload);
    let verts = parse_displacement_vertexes(&file, lump).unwrap();
    assert_eq!(verts[0].length, 4.5f32.to_bits());
}

#[test]
fn get_str_rejects_out_of_range_offset() {
    let blob = TextureDataStringArray(b"a\0".to_vec());
    assert_eq!(blob.get_str(9), Err(BspError::IndexOutOfBounds));
}
