//! Serialization tests: padding, thousands grouping, and the layout of the
//! produced container.

use bsp_glb::bytes::Vec2Bits;
use bsp_glb::bytes::Vec3Bits;
use bsp_glb::comma_format::CommaFormat;
use bsp_glb::gltf_export::pad_length;
use bsp_glb::gltf_export::save_mesh;
use bsp_glb::gltf_export::GltfObject;

fn v3(x: f32, y: f32, z: f32) -> Vec3Bits {
    Vec3Bits {
        x: x.to_bits(),
        y: y.to_bits(),
        z: z.to_bits(),
    }
}

fn sample_mesh() -> GltfObject {
    let vertexes = vec![
        v3(0.0, 0.0, 0.0),
        v3(1.0, 0.0, 0.0),
        v3(1.0, 1.0, 0.0),
        v3(0.0, 1.0, 0.0),
        v3(0.0, 0.0, 1.0),
    ];
    let normals = vec![v3(0.0, 0.0, 1.0); 5];
    let uvs = vec![
        Vec2Bits {
            x: 0.0f32.to_bits(),
            y: 0.0f32.to_bits(),
        };
        5
    ];
    let indices = vec![0u32, 2, 1, 0, 4, 3];
    GltfObject {
        vertexes,
        normals,
        uvs,
        indices,
        texture: image::DynamicImage::new_rgb8(2, 2),
        name: b"METAL".to_vec(),
        min_text: [b"0".to_vec(), b"0".to_vec(), b"0".to_vec()],
        max_text: [b"1".to_vec(), b"1".to_vec(), b"1".to_vec()],
    }
}

#[test]
fn pad_length_values() {
    assert_eq!(pad_length(0), 0);
    assert_eq!(pad_length(1), 4);
    assert_eq!(pad_length(3), 4);
    assert_eq!(pad_length(4), 4);
    assert_eq!(pad_length(5), 8);
    // idempotent on its own results
    assert_eq!(pad_length(pad_length(13)), pad_length(13));
}

#[test]
fn comma_format_groups_digits() {
    assert_eq!(CommaFormat(5).text(), "  5");
    assert_eq!(CommaFormat(42).text(), " 42");
    assert_eq!(CommaFormat(999).text(), "999");
    assert_eq!(CommaFormat(1234).text(), "  1,234");
    assert_eq!(CommaFormat(1234567).text(), "  1,234,567");
}

#[test]
fn empty_scene_still_frames_two_chunks() {
    let (glb, json) = save_mesh(&[]).unwrap();
    assert_eq!(&glb[0..4], b"glTF");
    assert_eq!(u32::from_le_bytes(glb[4..8].try_into().unwrap()), 2);
    let total = u32::from_le_bytes(glb[8..12].try_into().unwrap()) as usize;
    assert_eq!(total, glb.len());
    let jlen = u32::from_le_bytes(glb[12..16].try_into().unwrap()) as usize;
    assert_eq!(jlen % 4, 0);
    assert_eq!(&glb[16..20], b"JSON");
    assert!(jlen >= json.len());
    assert_eq!(&glb[20..20 + json.len()], json.as_slice());
}

#[test]
fn container_layout_matches_computed_sizes() {
    let mesh = sample_mesh();
    let array_bytes =
        mesh.normals.len() * 12 + mesh.vertexes.len() * 12 + mesh.uvs.len() * 8 + mesh.indices.len() * 4;
    let (glb, json) = save_mesh(&[mesh]).unwrap();
    assert_eq!(&glb[0..4], b"glTF");
    let total = u32::from_le_bytes(glb[8..12].try_into().unwrap()) as usize;
    assert_eq!(total, glb.len());
    let jlen = u32::from_le_bytes(glb[12..16].try_into().unwrap()) as usize;
    assert_eq!(jlen, pad_length(json.len()));
    // JSON padding is spaces
    for &b in &glb[20 + json.len()..20 + jlen] {
        assert_eq!(b, b' ');
    }
    let bin_header = 20 + jlen;
    let bin_len = u32::from_le_bytes(glb[bin_header..bin_header + 4].try_into().unwrap()) as usize;
    assert_eq!(&glb[bin_header + 4..bin_header + 8], b"BIN\0");
    assert_eq!(bin_header + 8 + bin_len, glb.len());
    // the binary chunk is the padded sum of the per-array byte sizes plus
    // the padded image bytes
    let image_len = bin_len - array_bytes;
    assert_eq!(image_len % 4, 0);
    assert!(image_len > 0);
    // the image region starts with the PNG signature
    let image_start = bin_header + 8 + array_bytes;
    assert_eq!(&glb[image_start..image_start + 4], b"\x89PNG");
    // the normals come first: 5 normals of (0,0,1)
    let first_normal = &glb[bin_header + 8..bin_header + 8 + 12];
    assert_eq!(&first_normal[8..12], &1.0f32.to_le_bytes());
}

#[test]
fn json_document_describes_the_scene() {
    let mesh = sample_mesh();
    let (_glb, json) = save_mesh(&[mesh]).unwrap();
    let text = String::from_utf8(json).unwrap();
    assert!(text.starts_with("{\"asset\":"));
    assert!(text.contains("\"name\":\"METAL\""));
    assert!(text.contains("\"count\":5"));
    assert!(text.contains("\"count\":6"));
    assert!(text.contains("\"componentType\":5125"));
    assert!(text.contains("\"min\":[0,0,0]"));
    assert!(text.contains("\"max\":[1,1,1]"));
    assert!(text.contains("\"byteOffset\":0,\"byteLength\":60"));
    assert!(text.contains("\"mimeType\":\"image/png\""));
    assert!(text.ends_with("}]}"));
}

#[test]
fn byte_length_counts_the_four_arrays() {
    let mesh = sample_mesh();
    assert_eq!(
        mesh.byte_length_excluding_texture(),
        5 * 12 + 5 * 12 + 5 * 8 + 6 * 4
    );
}

#[test]
fn comma_format_stops_dividing_at_one_thousand() {
    // a value of exactly one thousand is not divided further, so only its
    // zero remainder prints
    assert_eq!(CommaFormat(1000).text(), "  0");
    assert_eq!(CommaFormat(0).text(), "  0");
}

#[test]
fn second_group_starts_after_the_first_region() {
    let (glb1, _) = save_mesh(&[sample_mesh()]).unwrap();
    let jlen1 = u32::from_le_bytes(glb1[12..16].try_into().unwrap()) as usize;
    let bin1 = u32::from_le_bytes(glb1[20 + jlen1..24 + jlen1].try_into().unwrap()) as usize;
    let mut second = sample_mesh();
    second.name = b"BRICK".to_vec();
    let (_, json) = save_mesh(&[sample_mesh(), second]).unwrap();
    let text = String::from_utf8(json).unwrap();
    // the second mesh's first buffer view starts where the first region ends
    assert!(text.contains(&format!("\"byteOffset\":{bin1},\"byteLength\":60")));
}

#[test]
fn names_are_escaped_in_json() {
    let mut mesh = sample_mesh();
    mesh.name = b"A\"B\\C".to_vec();
    let (_glb, json) = save_mesh(&[mesh]).unwrap();
    let text = String::from_utf8(json).unwrap();
    assert!(text.contains("\"name\":\"A\\\"B\\\\C\""));
}
