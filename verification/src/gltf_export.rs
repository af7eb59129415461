//! Serialization of per-category triangle meshes into a two-chunk GLB
//! container: a compact JSON scene description plus one packed binary buffer
//! with exact, 4-byte-aligned offsets.

use crate::bytes::push_bytes;
use crate::bytes::push_u32_le;
use crate::bytes::u32_le_bytes;
use crate::bytes::Vec2Bits;
use crate::bytes::Vec3Bits;
use vstd::prelude::*;
use vstd::string::StringSliceAdditionalSpecFns;
use vstd::utf8::encode_utf8;

verus! {

/// Smallest multiple of 4 that is at least `x`: regions of the binary buffer
/// and the JSON chunk are padded to 4-byte boundaries.
pub open spec fn spec_pad_length(x: int) -> int {
    ((x + 3) / 4) * 4
}

pub fn pad_length(x: usize) -> (r: usize)
    requires
        x + 3 <= usize::MAX,
    ensures
        r == spec_pad_length(x as int),
{
    ((x + 3) / 4) * 4
}

/// Padding to a 4-byte boundary is idempotent, monotonic, and yields the
/// smallest multiple of 4 that is at least its argument.
pub proof fn lemma_pad_length_properties(x: int, y: int)
    requires
        0 <= x,
        x <= y,
    ensures
        spec_pad_length(x) % 4 == 0,
        x <= spec_pad_length(x) < x + 4,
        spec_pad_length(spec_pad_length(x)) == spec_pad_length(x),
        spec_pad_length(x) <= spec_pad_length(y),
{
    assert(spec_pad_length(x) % 4 == 0) by (nonlinear_arith);
    assert(x <= spec_pad_length(x) < x + 4) by (nonlinear_arith);
    assert(spec_pad_length(spec_pad_length(x)) == spec_pad_length(x)) by (nonlinear_arith);
    assert(spec_pad_length(x) <= spec_pad_length(y)) by (nonlinear_arith)
        requires
            x <= y,
    ;
}

/// No smaller multiple of 4 lies at or above `x`: together with
/// `lemma_pad_length_properties` this makes the padded length the smallest
/// multiple of 4 that is at least `x`.
pub proof fn lemma_pad_length_minimal(x: int, m: int)
    requires
        0 <= x,
        m % 4 == 0,
        x <= m,
    ensures
        spec_pad_length(x) <= m,
{
    assert(spec_pad_length(x) <= m) by (nonlinear_arith)
        requires
            m % 4 == 0 && 0 <= x <= m,
    ;
}

/// `n` zero bytes.
pub open spec fn zeros(n: int) -> Seq<u8> {
    Seq::new(n as nat, |i: int| 0u8)
}

/// `n` ASCII space bytes.
pub open spec fn spaces(n: int) -> Seq<u8> {
    Seq::new(n as nat, |i: int| 32u8)
}

fn push_zeros(out: &mut Vec<u8>, n: usize)
    ensures
        final(out)@ == old(out)@ + zeros(n as int),
{
    let mut i: usize = 0;
    while i < n
        invariant
            i <= n,
            out@ == old(out)@ + zeros(i as int),
        decreases n - i,
    {
        out.push(0u8);
        proof {
            assert(out@ =~= old(out)@ + zeros(i + 1));
        }
        i = i + 1;
    }
}

fn push_spaces(out: &mut Vec<u8>, n: usize)
    ensures
        final(out)@ == old(out)@ + spaces(n as int),
{
    let mut i: usize = 0;
    while i < n
        invariant
            i <= n,
            out@ == old(out)@ + spaces(i as int),
        decreases n - i,
    {
        out.push(32u8);
        proof {
            assert(out@ =~= old(out)@ + spaces(i + 1));
        }
        i = i + 1;
    }
}

/// The 12 little-endian bytes of a 3-component vector of float bits.
pub open spec fn vec3_bytes(v: Vec3Bits) -> Seq<u8> {
    u32_le_bytes(v.x) + u32_le_bytes(v.y) + u32_le_bytes(v.z)
}

/// The 8 little-endian bytes of a 2-component vector of float bits.
pub open spec fn vec2_bytes(v: Vec2Bits) -> Seq<u8> {
    u32_le_bytes(v.x) + u32_le_bytes(v.y)
}

/// The concatenated 12-byte records of a vector array, in order.
pub open spec fn vec3s_bytes(s: Seq<Vec3Bits>) -> Seq<u8>
    decreases s.len(),
{
    if s.len() == 0 {
        Seq::empty()
    } else {
        vec3s_bytes(s.drop_last()) + vec3_bytes(s.last())
    }
}

/// The concatenated 8-byte records of a vector array, in order.
pub open spec fn vec2s_bytes(s: Seq<Vec2Bits>) -> Seq<u8>
    decreases s.len(),
{
    if s.len() == 0 {
        Seq::empty()
    } else {
        vec2s_bytes(s.drop_last()) + vec2_bytes(s.last())
    }
}

/// The concatenated 4-byte little-endian records of an index array, in order.
pub open spec fn u32s_bytes(s: Seq<u32>) -> Seq<u8>
    decreases s.len(),
{
    if s.len() == 0 {
        Seq::empty()
    } else {
        u32s_bytes(s.drop_last()) + u32_le_bytes(s.last())
    }
}

fn push_vec3s(out: &mut Vec<u8>, s: &Vec<Vec3Bits>)
    ensures
        final(out)@ == old(out)@ + vec3s_bytes(s@),
{
    let n = s.len();
    let mut i: usize = 0;
    while i < n
        invariant
            i <= n,
            n == s@.len(),
            out@ == old(out)@ + vec3s_bytes(s@.take(i as int)),
        decreases n - i,
    {
        let v = s[i];
        push_u32_le(out, v.x);
        push_u32_le(out, v.y);
        push_u32_le(out, v.z);
        proof {
            assert(s@.take(i + 1).drop_last() =~= s@.take(i as int));
            assert(s@.take(i + 1).last() == s@[i as int]);
            assert(out@ =~= old(out)@ + vec3s_bytes(s@.take(i + 1)));
        }
        i = i + 1;
    }
    proof {
        assert(s@.take(n as int) =~= s@);
    }
}

fn push_vec2s(out: &mut Vec<u8>, s: &Vec<Vec2Bits>)
    ensures
        final(out)@ == old(out)@ + vec2s_bytes(s@),
{
    let n = s.len();
    let mut i: usize = 0;
    while i < n
        invariant
            i <= n,
            n == s@.len(),
            out@ == old(out)@ + vec2s_bytes(s@.take(i as int)),
        decreases n - i,
    {
        let v = s[i];
        push_u32_le(out, v.x);
        push_u32_le(out, v.y);
        proof {
            assert(s@.take(i + 1).drop_last() =~= s@.take(i as int));
            assert(s@.take(i + 1).last() == s@[i as int]);
            assert(out@ =~= old(out)@ + vec2s_bytes(s@.take(i + 1)));
        }
        i = i + 1;
    }
    proof {
        assert(s@.take(n as int) =~= s@);
    }
}

fn push_u32s(out: &mut Vec<u8>, s: &Vec<u32>)
    ensures
        final(out)@ == old(out)@ + u32s_bytes(s@),
{
    let n = s.len();
    let mut i: usize = 0;
    while i < n
        invariant
            i <= n,
            n == s@.len(),
            out@ == old(out)@ + u32s_bytes(s@.take(i as int)),
        decreases n - i,
    {
        push_u32_le(out, s[i]);
        proof {
            assert(s@.take(i + 1).drop_last() =~= s@.take(i as int));
            assert(s@.take(i + 1).last() == s@[i as int]);
            assert(out@ =~= old(out)@ + u32s_bytes(s@.take(i + 1)));
        }
        i = i + 1;
    }
    proof {
        assert(s@.take(n as int) =~= s@);
    }
}

/// The decimal digits of a non-negative number, most significant first.
pub open spec fn spec_dec(n: int) -> Seq<u8>
    decreases n,
{
    if n < 10 {
        seq![(48 + n) as u8]
    } else {
        spec_dec(n / 10) + seq![(48 + n % 10) as u8]
    }
}

fn push_dec(out: &mut Vec<u8>, n: u64)
    ensures
        final(out)@ == old(out)@ + spec_dec(n as int),
    decreases n,
{
    if n < 10 {
        out.push(48 + (n as u8));
        proof {
            assert(out@ =~= old(out)@ + spec_dec(n as int));
        }
    } else {
        push_dec(out, n / 10);
        out.push(48 + ((n % 10) as u8));
        proof {
            assert(out@ =~= old(out)@ + spec_dec(n as int));
        }
    }
}

/// The lowercase hex digit of a value below 16.
pub open spec fn hex_digit(n: int) -> u8 {
    if n < 10 {
        (48 + n) as u8
    } else {
        (87 + n) as u8
    }
}

/// How one byte appears inside a JSON string: quote and backslash escaped,
/// control bytes as a unicode escape, everything else unchanged.
pub open spec fn escape_byte(b: u8) -> Seq<u8> {
    if b == 34 {
        seq![92u8, 34u8]
    } else if b == 92 {
        seq![92u8, 92u8]
    } else if b < 32 {
        seq![92u8, 117u8, 48u8, 48u8, hex_digit(b as int / 16), hex_digit(b as int % 16)]
    } else {
        seq![b]
    }
}

/// A byte string escaped for inclusion in a JSON string literal.
pub open spec fn spec_escape(s: Seq<u8>) -> Seq<u8>
    decreases s.len(),
{
    if s.len() == 0 {
        Seq::empty()
    } else {
        spec_escape(s.drop_last()) + escape_byte(s.last())
    }
}

fn push_escaped(out: &mut Vec<u8>, s: &Vec<u8>)
    ensures
        final(out)@ == old(out)@ + spec_escape(s@),
{
    let n = s.len();
    let mut i: usize = 0;
    while i < n
        invariant
            i <= n,
            n == s@.len(),
            out@ == old(out)@ + spec_escape(s@.take(i as int)),
        decreases n - i,
    {
        let b = s[i];
        if b == 34 {
            out.push(92);
            out.push(34);
        } else if b == 92 {
            out.push(92);
            out.push(92);
        } else if b < 32 {
            out.push(92);
            out.push(117);
            out.push(48);
            out.push(48);
            let hi = b / 16;
            let lo = b % 16;
            out.push(if hi < 10 {
                48 + hi
            } else {
                87 + hi
            });
            out.push(if lo < 10 {
                48 + lo
            } else {
                87 + lo
            });
        } else {
            out.push(b);
        }
        proof {
            assert(s@.take(i + 1).drop_last() =~= s@.take(i as int));
            assert(s@.take(i + 1).last() == s@[i as int]);
            assert(out@ =~= old(out)@ + spec_escape(s@.take(i + 1)));
        }
        i = i + 1;
    }
    proof {
        assert(s@.take(n as int) =~= s@);
    }
}

/// Appends an ASCII literal: the writer side of the JSON templates.
fn push_lit(out: &mut Vec<u8>, s: &str)
    ensures
        final(out)@ == old(out)@ + s.spec_bytes(),
{
    push_bytes(out, s.as_bytes());
}

#[verifier::external_type_specification]
#[verifier::external_body]
pub struct ExDynamicImage(image::DynamicImage);

#[verifier::external_type_specification]
#[verifier::external_body]
pub struct ExImageError(image::ImageError);

/// A condition that stops serialization: the image codec rejected a texture,
/// or the container's 32-bit length fields cannot hold the file.
#[derive(Debug)]
pub enum SaveMeshError {
    ImageError(image::ImageError),
    TooLarge,
}

/// One mesh to serialize: evaluated vertex attributes as raw float bits, the
/// triangle indices, the texture image, the material name, and the decimal
/// texts of the component-wise position bounds (numeric work the caller
/// performs; they are spliced into the JSON as the POSITION accessor's
/// bounds).
pub struct GltfObject {
    pub vertexes: Vec<Vec3Bits>,
    pub normals: Vec<Vec3Bits>,
    pub uvs: Vec<Vec2Bits>,
    pub indices: Vec<u32>,
    pub texture: image::DynamicImage,
    pub name: Vec<u8>,
    pub min_text: [Vec<u8>; 3],
    pub max_text: [Vec<u8>; 3],
}

impl GltfObject {
    /// Bytes of the mesh's four packed arrays: 12 per normal, 12 per vertex,
    /// 8 per texture coordinate, 4 per index.
    pub open spec fn spec_byte_length_excluding_texture(self) -> int {
        (self.vertexes@.len() * 12 + self.normals@.len() * 12 + self.uvs@.len() * 8
            + self.indices@.len() * 4) as int
    }

    pub fn byte_length_excluding_texture(&self) -> (r: usize)
        requires
            self.spec_byte_length_excluding_texture() <= usize::MAX,
        ensures
            r == self.spec_byte_length_excluding_texture(),
    {
        self.vertexes.len() * 4 * 3 + self.normals.len() * 4 * 3 + self.uvs.len() * 4 * 2
            + self.indices.len() * 4
    }
}

/// Bytes of one mesh's region of the binary buffer: the four packed arrays,
/// the image bytes, and the zero padding to the next 4-byte boundary.
pub open spec fn group_region_len(m: GltfObject, img: Seq<u8>) -> int {
    m.spec_byte_length_excluding_texture() + spec_pad_length(img.len() as int)
}

/// Absolute byte offset of mesh `k`'s region inside the binary buffer: the
/// regions of all earlier meshes, packed without gaps.
pub open spec fn buffer_offset(ms: Seq<GltfObject>, imgs: Seq<Seq<u8>>, k: int) -> int
    decreases k,
{
    if k <= 0 {
        0
    } else {
        buffer_offset(ms, imgs, k - 1) + group_region_len(ms[k - 1], imgs[k - 1])
    }
}

/// Total byte length of the binary buffer.
pub open spec fn spec_buffer_len(ms: Seq<GltfObject>, imgs: Seq<Seq<u8>>) -> int {
    buffer_offset(ms, imgs, ms.len() as int)
}

/// Offsets start at zero and never go negative.
pub proof fn lemma_buffer_offset_nonneg(ms: Seq<GltfObject>, imgs: Seq<Seq<u8>>, i: int)
    requires
        0 <= i <= ms.len(),
        imgs.len() == ms.len(),
    ensures
        0 <= buffer_offset(ms, imgs, i),
    decreases i,
{
    if i > 0 {
        lemma_buffer_offset_nonneg(ms, imgs, i - 1);
        assert(0 <= spec_pad_length(imgs[i - 1].len() as int)) by (nonlinear_arith);
    }
}

/// Every region has non-negative length, so offsets grow with the index.
pub proof fn lemma_buffer_offset_mono(ms: Seq<GltfObject>, imgs: Seq<Seq<u8>>, i: int, j: int)
    requires
        0 <= i <= j,
        j <= ms.len(),
        imgs.len() == ms.len(),
    ensures
        buffer_offset(ms, imgs, i) <= buffer_offset(ms, imgs, j),
    decreases j - i,
{
    if i < j {
        lemma_buffer_offset_mono(ms, imgs, i, j - 1);
        assert(0 <= spec_pad_length(imgs[j - 1].len() as int)) by (nonlinear_arith);
    }
}

/// Bytes of one mesh's region: normals, positions, texture coordinates,
/// indices, image, zero padding.
pub open spec fn group_bytes(m: GltfObject, img: Seq<u8>) -> Seq<u8> {
    vec3s_bytes(m.normals@) + vec3s_bytes(m.vertexes@) + vec2s_bytes(m.uvs@) + u32s_bytes(
        m.indices@,
    ) + img + zeros(spec_pad_length(img.len() as int) - img.len())
}

/// The binary buffer up to mesh `k`: the concatenated regions.
pub open spec fn groups_bytes(ms: Seq<GltfObject>, imgs: Seq<Seq<u8>>, k: int) -> Seq<u8>
    decreases k,
{
    if k <= 0 {
        Seq::empty()
    } else {
        groups_bytes(ms, imgs, k - 1) + group_bytes(ms[k - 1], imgs[k - 1])
    }
}

/// A packed vector array occupies 12 bytes per element.
pub proof fn lemma_vec3s_bytes_len(s: Seq<Vec3Bits>)
    ensures
        vec3s_bytes(s).len() == 12 * s.len(),
    decreases s.len(),
{
    if s.len() > 0 {
        lemma_vec3s_bytes_len(s.drop_last());
    }
}

/// A packed vector array occupies 8 bytes per element.
pub proof fn lemma_vec2s_bytes_len(s: Seq<Vec2Bits>)
    ensures
        vec2s_bytes(s).len() == 8 * s.len(),
    decreases s.len(),
{
    if s.len() > 0 {
        lemma_vec2s_bytes_len(s.drop_last());
    }
}

/// A packed index array occupies 4 bytes per element.
pub proof fn lemma_u32s_bytes_len(s: Seq<u32>)
    ensures
        u32s_bytes(s).len() == 4 * s.len(),
    decreases s.len(),
{
    if s.len() > 0 {
        lemma_u32s_bytes_len(s.drop_last());
    }
}

/// One region's bytes have exactly the region's declared length.
pub proof fn lemma_group_bytes_len(m: GltfObject, img: Seq<u8>)
    ensures
        group_bytes(m, img).len() == group_region_len(m, img),
{
    lemma_vec3s_bytes_len(m.normals@);
    lemma_vec3s_bytes_len(m.vertexes@);
    lemma_vec2s_bytes_len(m.uvs@);
    lemma_u32s_bytes_len(m.indices@);
    assert(img.len() <= spec_pad_length(img.len() as int)) by (nonlinear_arith);
}

/// The buffer prefix is as long as the offset it reaches.
pub proof fn lemma_groups_bytes_len(ms: Seq<GltfObject>, imgs: Seq<Seq<u8>>, k: int)
    requires
        0 <= k <= ms.len(),
        imgs.len() == ms.len(),
    ensures
        groups_bytes(ms, imgs, k).len() == buffer_offset(ms, imgs, k),
    decreases k,
{
    if k > 0 {
        lemma_groups_bytes_len(ms, imgs, k - 1);
        lemma_group_bytes_len(ms[k - 1], imgs[k - 1]);
    }
}

/// The separator written before every list element but the first.
pub open spec fn sep(k: int) -> Seq<u8> {
    if k > 0 {
        ",".spec_bytes()
    } else {
        Seq::<u8>::empty()
    }
}

/// The scene's node list: the indices 0 to `k-1`.
pub open spec fn sec_scene_nodes(k: int) -> Seq<u8>
    decreases k,
{
    if k <= 0 {
        Seq::empty()
    } else {
        sec_scene_nodes(k - 1) + sep(k - 1) + spec_dec(k - 1)
    }
}

/// One node: its mesh index and its material name.
pub open spec fn node_item(m: GltfObject, i: int) -> Seq<u8> {
    "{\"mesh\":".spec_bytes() + spec_dec(i) + ",\"name\":\"".spec_bytes() + spec_escape(m.name@)
        + "\"}".spec_bytes()
}

pub open spec fn sec_nodes(ms: Seq<GltfObject>, k: int) -> Seq<u8>
    decreases k,
{
    if k <= 0 {
        Seq::empty()
    } else {
        sec_nodes(ms, k - 1) + sep(k - 1) + node_item(ms[k - 1], k - 1)
    }
}

/// One mesh: a single primitive whose attribute accessors are the mesh's 4
/// accessors (normal, position, texture coordinates, indices) and whose
/// material is the mesh's own.
pub open spec fn mesh_item(i: int) -> Seq<u8> {
    "{\"primitives\":[{\"attributes\":{\"NORMAL\":".spec_bytes() + spec_dec(4 * i)
        + ",\"POSITION\":".spec_bytes() + spec_dec(4 * i + 1) + ",\"TEXCOORD_0\":".spec_bytes()
        + spec_dec(4 * i + 2) + "},\"indices\":".spec_bytes() + spec_dec(4 * i + 3)
        + ",\"material\":".spec_bytes() + spec_dec(i) + "}]}".spec_bytes()
}

pub open spec fn sec_meshes(k: int) -> Seq<u8>
    decreases k,
{
    if k <= 0 {
        Seq::empty()
    } else {
        sec_meshes(k - 1) + sep(k - 1) + mesh_item(k - 1)
    }
}

/// One texture: its image source and the shared sampler.
pub open spec fn texture_item(i: int) -> Seq<u8> {
    "{\"source\":".spec_bytes() + spec_dec(i) + ",\"sampler\":0}".spec_bytes()
}

pub open spec fn sec_textures(k: int) -> Seq<u8>
    decreases k,
{
    if k <= 0 {
        Seq::empty()
    } else {
        sec_textures(k - 1) + sep(k - 1) + texture_item(k - 1)
    }
}

/// One image: its buffer view (the fifth view of its mesh) and a PNG tag.
pub open spec fn image_item(i: int) -> Seq<u8> {
    "{\"bufferView\":".spec_bytes() + spec_dec(4 + 5 * i)
        + ",\"mimeType\":\"image/png\",\"name\":\"texture".spec_bytes() + spec_dec(i)
        + "\"}".spec_bytes()
}

pub open spec fn sec_images(k: int) -> Seq<u8>
    decreases k,
{
    if k <= 0 {
        Seq::empty()
    } else {
        sec_images(k - 1) + sep(k - 1) + image_item(k - 1)
    }
}

/// One material: its base color texture.
pub open spec fn material_item(i: int) -> Seq<u8> {
    "{\"pbrMetallicRoughness\":{\"baseColorTexture\":{\"index\":".spec_bytes() + spec_dec(i)
        + ",\"texCoord\":0}}}".spec_bytes()
}

pub open spec fn sec_materials(k: int) -> Seq<u8>
    decreases k,
{
    if k <= 0 {
        Seq::empty()
    } else {
        sec_materials(k - 1) + sep(k - 1) + material_item(k - 1)
    }
}

/// The normals accessor of one mesh: 32-bit floats, 3 components.
pub open spec fn accessor_normal(m: GltfObject, i: int) -> Seq<u8> {
    "{\"bufferView\":".spec_bytes() + spec_dec(5 * i) + ",\"componentType\":5126,\"count\":".spec_bytes()
        + spec_dec(m.normals@.len() as int) + ",\"type\":\"VEC3\"}".spec_bytes()
}

/// The leading fields of the positions accessor, up to the opening of its
/// `min` array.
pub open spec fn accessor_position_head(m: GltfObject, i: int) -> Seq<u8> {
    "{\"bufferView\":".spec_bytes() + spec_dec(5 * i + 1)
        + ",\"componentType\":5126,\"count\":".spec_bytes() + spec_dec(m.vertexes@.len() as int)
        + ",\"type\":\"VEC3\",\"min\":[".spec_bytes()
}

/// The caller-supplied component-wise bounds of the positions accessor.
pub open spec fn accessor_position_bounds(m: GltfObject) -> Seq<u8> {
    m.min_text[0]@ + ",".spec_bytes() + m.min_text[1]@ + ",".spec_bytes() + m.min_text[2]@
        + "],\"max\":[".spec_bytes() + m.max_text[0]@ + ",".spec_bytes() + m.max_text[1]@
        + ",".spec_bytes() + m.max_text[2]@ + "]}".spec_bytes()
}

/// The positions accessor of one mesh, carrying the caller-supplied
/// component-wise bounds as its `min` and `max`.
pub open spec fn accessor_position(m: GltfObject, i: int) -> Seq<u8> {
    accessor_position_head(m, i) + accessor_position_bounds(m)
}

/// The texture-coordinates accessor of one mesh: 32-bit floats, 2 components.
pub open spec fn accessor_uv(m: GltfObject, i: int) -> Seq<u8> {
    "{\"bufferView\":".spec_bytes() + spec_dec(5 * i + 2)
        + ",\"componentType\":5126,\"count\":".spec_bytes() + spec_dec(m.uvs@.len() as int)
        + ",\"type\":\"VEC2\"}".spec_bytes()
}

/// The triangle-index accessor of one mesh: 32-bit unsigned scalars.
pub open spec fn accessor_index(m: GltfObject, i: int) -> Seq<u8> {
    "{\"bufferView\":".spec_bytes() + spec_dec(5 * i + 3)
        + ",\"componentType\":5125,\"count\":".spec_bytes() + spec_dec(m.indices@.len() as int)
        + ",\"type\":\"SCALAR\"}".spec_bytes()
}

/// The 4 accessors of one mesh: float normals, float positions with the
/// caller-supplied component-wise bounds, float texture coordinates, and
/// 32-bit unsigned indices.
pub open spec fn accessor_item(m: GltfObject, i: int) -> Seq<u8> {
    accessor_normal(m, i) + ",".spec_bytes() + accessor_position(m, i) + ",".spec_bytes()
        + accessor_uv(m, i) + ",".spec_bytes() + accessor_index(m, i)
}

pub open spec fn sec_accessors(ms: Seq<GltfObject>, k: int) -> Seq<u8>
    decreases k,
{
    if k <= 0 {
        Seq::empty()
    } else {
        sec_accessors(ms, k - 1) + sep(k - 1) + accessor_item(ms[k - 1], k - 1)
    }
}

/// One buffer view: absolute offset and exact (unpadded) length.
pub open spec fn buffer_view(off: int, len: int) -> Seq<u8> {
    "{\"buffer\":0,\"byteOffset\":".spec_bytes() + spec_dec(off) + ",\"byteLength\":".spec_bytes()
        + spec_dec(len) + "}".spec_bytes()
}

/// The 5 buffer views of one mesh whose region starts at `off`: normals,
/// positions, texture coordinates, indices, image bytes, packed in that
/// order.
pub open spec fn buffer_view_item(m: GltfObject, img: Seq<u8>, off: int) -> Seq<u8> {
    let n12 = m.normals@.len() * 12;
    let v12 = m.vertexes@.len() * 12;
    let u8l = m.uvs@.len() * 8;
    let i4 = m.indices@.len() * 4;
    buffer_view(off, n12 as int) + ",".spec_bytes() + buffer_view(off + n12, v12 as int)
        + ",".spec_bytes() + buffer_view(off + n12 + v12, u8l as int) + ",".spec_bytes()
        + buffer_view(off + n12 + v12 + u8l, i4 as int) + ",".spec_bytes() + buffer_view(
        off + n12 + v12 + u8l + i4,
        img.len() as int,
    )
}

pub open spec fn sec_buffer_views(ms: Seq<GltfObject>, imgs: Seq<Seq<u8>>, k: int) -> Seq<u8>
    decreases k,
{
    if k <= 0 {
        Seq::empty()
    } else {
        sec_buffer_views(ms, imgs, k - 1) + sep(k - 1) + buffer_view_item(
            ms[k - 1],
            imgs[k - 1],
            buffer_offset(ms, imgs, k - 1),
        )
    }
}

/// The compact JSON scene description: one scene referencing one node per
/// mesh, one mesh and one material and one texture per group, the shared
/// sampler, the 4 accessors and 5 buffer views per mesh, and the single
/// buffer's total length.
#[verifier::opaque]
pub open spec fn spec_json_doc(ms: Seq<GltfObject>, imgs: Seq<Seq<u8>>) -> Seq<u8> {
    let n = ms.len() as int;
    "{\"asset\":{\"generator\":\"None\",\"version\":\"2.0\"},\"scene\":0,\"scenes\":[{\"name\":\"Scene0\",\"nodes\":[".spec_bytes()
        + sec_scene_nodes(n) + "]}],\"nodes\":[".spec_bytes() + sec_nodes(ms, n)
        + "],\"meshes\":[".spec_bytes() + sec_meshes(n) + "],\"textures\":[".spec_bytes()
        + sec_textures(n) + "],\"images\":[".spec_bytes() + sec_images(n)
        + "],\"materials\":[".spec_bytes() + sec_materials(n)
        + "],\"samplers\":[{\"magFilter\":9728,\"minFilter\":9728}],\"accessors\":[".spec_bytes()
        + sec_accessors(ms, n) + "],\"bufferViews\":[".spec_bytes() + sec_buffer_views(
        ms,
        imgs,
        n,
    ) + "],\"buffers\":[{\"byteLength\":".spec_bytes() + spec_dec(spec_buffer_len(ms, imgs))
        + "}]}".spec_bytes()
}

/// The image byte streams behind a slice of encoded images.
pub open spec fn imgs_of(s: Seq<Vec<u8>>) -> Seq<Seq<u8>> {
    s.map_values(|v: Vec<u8>| v@)
}

/// Total byte length of the container: the 12-byte header, two 8-byte chunk
/// headers, the space-padded JSON chunk, and the packed binary buffer (whose
/// per-region padding makes it a multiple of 4 already).
pub open spec fn spec_glb_len(ms: Seq<GltfObject>, imgs: Seq<Seq<u8>>) -> int {
    28 + spec_pad_length(spec_json_doc(ms, imgs).len() as int) + spec_buffer_len(ms, imgs)
}

/// The container's bytes: magic tag, format version 2, total length, then
/// the JSON chunk (length, tag, space-padded document) and the binary chunk
/// (length, tag, packed buffer).
#[verifier::opaque]
pub open spec fn spec_glb(ms: Seq<GltfObject>, imgs: Seq<Seq<u8>>) -> Seq<u8> {
    let json = spec_json_doc(ms, imgs);
    let jp = spec_pad_length(json.len() as int);
    let buf = spec_buffer_len(ms, imgs);
    "glTF".spec_bytes() + u32_le_bytes(2) + u32_le_bytes(spec_glb_len(ms, imgs) as u32)
        + u32_le_bytes(jp as u32) + "JSON".spec_bytes() + json + spaces(jp - json.len())
        + u32_le_bytes(buf as u32) + "BIN".spec_bytes() + seq![0u8] + groups_bytes(
        ms,
        imgs,
        ms.len() as int,
    )
}

fn push_node_item(out: &mut Vec<u8>, m: &GltfObject, i: usize)
    requires
        i <= 0xFFFF_FFFF,
    ensures
        final(out)@ == old(out)@ + node_item(*m, i as int),
{
    push_lit(out, "{\"mesh\":");
    push_dec(out, i as u64);
    push_lit(out, ",\"name\":\"");
    push_escaped(out, &m.name);
    push_lit(out, "\"}");
    proof {
        assert(out@ =~= old(out)@ + node_item(*m, i as int));
    }
}

fn push_mesh_item(out: &mut Vec<u8>, i: usize)
    requires
        i <= 0xFFFF_FFFF,
    ensures
        final(out)@ == old(out)@ + mesh_item(i as int),
{
    push_lit(out, "{\"primitives\":[{\"attributes\":{\"NORMAL\":");
    push_dec(out, (i as u64) * 4);
    push_lit(out, ",\"POSITION\":");
    push_dec(out, (i as u64) * 4 + 1);
    push_lit(out, ",\"TEXCOORD_0\":");
    push_dec(out, (i as u64) * 4 + 2);
    push_lit(out, "},\"indices\":");
    push_dec(out, (i as u64) * 4 + 3);
    push_lit(out, ",\"material\":");
    push_dec(out, i as u64);
    push_lit(out, "}]}");
    proof {
        assert(out@ =~= old(out)@ + mesh_item(i as int));
    }
}

fn push_texture_item(out: &mut Vec<u8>, i: usize)
    requires
        i <= 0xFFFF_FFFF,
    ensures
        final(out)@ == old(out)@ + texture_item(i as int),
{
    push_lit(out, "{\"source\":");
    push_dec(out, i as u64);
    push_lit(out, ",\"sampler\":0}");
    proof {
        assert(out@ =~= old(out)@ + texture_item(i as int));
    }
}

fn push_image_item(out: &mut Vec<u8>, i: usize)
    requires
        i <= 0xFFFF_FFFF,
    ensures
        final(out)@ == old(out)@ + image_item(i as int),
{
    push_lit(out, "{\"bufferView\":");
    push_dec(out, (i as u64) * 5 + 4);
    push_lit(out, ",\"mimeType\":\"image/png\",\"name\":\"texture");
    push_dec(out, i as u64);
    push_lit(out, "\"}");
    proof {
        assert(out@ =~= old(out)@ + image_item(i as int));
    }
}

fn push_material_item(out: &mut Vec<u8>, i: usize)
    requires
        i <= 0xFFFF_FFFF,
    ensures
        final(out)@ == old(out)@ + material_item(i as int),
{
    push_lit(out, "{\"pbrMetallicRoughness\":{\"baseColorTexture\":{\"index\":");
    push_dec(out, i as u64);
    push_lit(out, ",\"texCoord\":0}}}");
    proof {
        assert(out@ =~= old(out)@ + material_item(i as int));
    }
}

fn push_accessor_normal(out: &mut Vec<u8>, m: &GltfObject, i: usize)
    requires
        i <= 0xFFFF_FFFF,
    ensures
        final(out)@ == old(out)@ + accessor_normal(*m, i as int),
{
    push_lit(out, "{\"bufferView\":");
    push_dec(out, (i as u64) * 5);
    push_lit(out, ",\"componentType\":5126,\"count\":");
    push_dec(out, m.normals.len() as u64);
    push_lit(out, ",\"type\":\"VEC3\"}");
    proof {
        assert(out@ =~= old(out)@ + accessor_normal(*m, i as int));
    }
}

fn push_accessor_position_head(out: &mut Vec<u8>, m: &GltfObject, i: usize)
    requires
        i <= 0xFFFF_FFFF,
    ensures
        final(out)@ == old(out)@ + accessor_position_head(*m, i as int),
{
    push_lit(out, "{\"bufferView\":");
    push_dec(out, (i as u64) * 5 + 1);
    push_lit(out, ",\"componentType\":5126,\"count\":");
    push_dec(out, m.vertexes.len() as u64);
    push_lit(out, ",\"type\":\"VEC3\",\"min\":[");
    proof {
        assert(out@ =~= old(out)@ + accessor_position_head(*m, i as int));
    }
}

fn push_accessor_position_bounds(out: &mut Vec<u8>, m: &GltfObject)
    ensures
        final(out)@ == old(out)@ + accessor_position_bounds(*m),
{
    push_bytes(out, m.min_text[0].as_slice());
    push_lit(out, ",");
    push_bytes(out, m.min_text[1].as_slice());
    push_lit(out, ",");
    push_bytes(out, m.min_text[2].as_slice());
    push_lit(out, "],\"max\":[");
    push_bytes(out, m.max_text[0].as_slice());
    push_lit(out, ",");
    push_bytes(out, m.max_text[1].as_slice());
    push_lit(out, ",");
    push_bytes(out, m.max_text[2].as_slice());
    push_lit(out, "]}");
    proof {
        assert(out@ =~= old(out)@ + accessor_position_bounds(*m));
    }
}

fn push_accessor_position(out: &mut Vec<u8>, m: &GltfObject, i: usize)
    requires
        i <= 0xFFFF_FFFF,
    ensures
        final(out)@ == old(out)@ + accessor_position(*m, i as int),
{
    push_accessor_position_head(out, m, i);
    push_accessor_position_bounds(out, m);
    proof {
        assert(out@ =~= old(out)@ + accessor_position(*m, i as int));
    }
}

fn push_accessor_uv(out: &mut Vec<u8>, m: &GltfObject, i: usize)
    requires
        i <= 0xFFFF_FFFF,
    ensures
        final(out)@ == old(out)@ + accessor_uv(*m, i as int),
{
    push_lit(out, "{\"bufferView\":");
    push_dec(out, (i as u64) * 5 + 2);
    push_lit(out, ",\"componentType\":5126,\"count\":");
    push_dec(out, m.uvs.len() as u64);
    push_lit(out, ",\"type\":\"VEC2\"}");
    proof {
        assert(out@ =~= old(out)@ + accessor_uv(*m, i as int));
    }
}

fn push_accessor_index(out: &mut Vec<u8>, m: &GltfObject, i: usize)
    requires
        i <= 0xFFFF_FFFF,
    ensures
        final(out)@ == old(out)@ + accessor_index(*m, i as int),
{
    push_lit(out, "{\"bufferView\":");
    push_dec(out, (i as u64) * 5 + 3);
    push_lit(out, ",\"componentType\":5125,\"count\":");
    push_dec(out, m.indices.len() as u64);
    push_lit(out, ",\"type\":\"SCALAR\"}");
    proof {
        assert(out@ =~= old(out)@ + accessor_index(*m, i as int));
    }
}

fn push_accessor_item(out: &mut Vec<u8>, m: &GltfObject, i: usize)
    requires
        i <= 0xFFFF_FFFF,
    ensures
        final(out)@ == old(out)@ + accessor_item(*m, i as int),
{
    push_accessor_normal(out, m, i);
    push_lit(out, ",");
    push_accessor_position(out, m, i);
    push_lit(out, ",");
    push_accessor_uv(out, m, i);
    push_lit(out, ",");
    push_accessor_index(out, m, i);
    proof {
        assert(out@ =~= old(out)@ + accessor_item(*m, i as int));
    }
}

fn push_buffer_view(out: &mut Vec<u8>, off: u64, len: u64)
    ensures
        final(out)@ == old(out)@ + buffer_view(off as int, len as int),
{
    push_lit(out, "{\"buffer\":0,\"byteOffset\":");
    push_dec(out, off);
    push_lit(out, ",\"byteLength\":");
    push_dec(out, len);
    push_lit(out, "}");
    proof {
        assert(out@ =~= old(out)@ + buffer_view(off as int, len as int));
    }
}

#[verifier::rlimit(80)]
fn push_buffer_view_item(out: &mut Vec<u8>, m: &GltfObject, img: &Vec<u8>, off: u64)
    requires
        off + group_region_len(*m, img@) <= 0xFFFF_FFFF,
    ensures
        final(out)@ == old(out)@ + buffer_view_item(*m, img@, off as int),
{
    proof {
        assert(img@.len() <= spec_pad_length(img@.len() as int)) by (nonlinear_arith);
    }
    let n12: u64 = (m.normals.len() as u64) * 12;
    let v12: u64 = (m.vertexes.len() as u64) * 12;
    let u8l: u64 = (m.uvs.len() as u64) * 8;
    let i4: u64 = (m.indices.len() as u64) * 4;
    push_buffer_view(out, off, n12);
    push_lit(out, ",");
    push_buffer_view(out, off + n12, v12);
    push_lit(out, ",");
    push_buffer_view(out, off + n12 + v12, u8l);
    push_lit(out, ",");
    push_buffer_view(out, off + n12 + v12 + u8l, i4);
    push_lit(out, ",");
    push_buffer_view(out, off + n12 + v12 + u8l + i4, img.len() as u64);
    proof {
        assert(out@ =~= old(out)@ + buffer_view_item(*m, img@, off as int));
    }
}

/// Builds the JSON scene description for the meshes and their encoded
/// images.
#[verifier::rlimit(100)]
pub fn build_gltf_json(meshes: &[GltfObject], images: &[Vec<u8>]) -> (r: Vec<u8>)
    requires
        images@.len() == meshes@.len(),
        meshes@.len() <= 0xFFFF_FFFF,
        spec_buffer_len(meshes@, imgs_of(images@)) <= 0xFFFF_FFFF,
    ensures
        r@ == spec_json_doc(meshes@, imgs_of(images@)),
{
    let ghost ms = meshes@;
    let ghost gimgs = imgs_of(images@);
    let n = meshes.len();
    let mut out: Vec<u8> = Vec::new();
    push_lit(
        &mut out,
        "{\"asset\":{\"generator\":\"None\",\"version\":\"2.0\"},\"scene\":0,\"scenes\":[{\"name\":\"Scene0\",\"nodes\":[",
    );
    let ghost base1 = out@;
    let mut i: usize = 0;
    while i < n
        invariant
            i <= n,
            n == ms.len(),
            n <= 0xFFFF_FFFF,
            out@ == base1 + sec_scene_nodes(i as int),
        decreases n - i,
    {
        if i > 0 {
            push_lit(&mut out, ",");
        }
        push_dec(&mut out, i as u64);
        proof {
            assert(out@ =~= base1 + sec_scene_nodes(i + 1));
        }
        i = i + 1;
    }
    push_lit(&mut out, "]}],\"nodes\":[");
    let ghost base2 = out@;
    let mut i: usize = 0;
    while i < n
        invariant
            i <= n,
            n == ms.len(),
            n <= 0xFFFF_FFFF,
            ms == meshes@,
            out@ == base2 + sec_nodes(ms, i as int),
        decreases n - i,
    {
        if i > 0 {
            push_lit(&mut out, ",");
        }
        push_node_item(&mut out, &meshes[i], i);
        proof {
            assert(out@ =~= base2 + sec_nodes(ms, i + 1));
        }
        i = i + 1;
    }
    push_lit(&mut out, "],\"meshes\":[");
    let ghost base3 = out@;
    let mut i: usize = 0;
    while i < n
        invariant
            i <= n,
            n <= 0xFFFF_FFFF,
            out@ == base3 + sec_meshes(i as int),
        decreases n - i,
    {
        if i > 0 {
            push_lit(&mut out, ",");
        }
        push_mesh_item(&mut out, i);
        proof {
            assert(out@ =~= base3 + sec_meshes(i + 1));
        }
        i = i + 1;
    }
    push_lit(&mut out, "],\"textures\":[");
    let ghost base4 = out@;
    let mut i: usize = 0;
    while i < n
        invariant
            i <= n,
            n <= 0xFFFF_FFFF,
            out@ == base4 + sec_textures(i as int),
        decreases n - i,
    {
        if i > 0 {
            push_lit(&mut out, ",");
        }
        push_texture_item(&mut out, i);
        proof {
            assert(out@ =~= base4 + sec_textures(i + 1));
        }
        i = i + 1;
    }
    push_lit(&mut out, "],\"images\":[");
    let ghost base5 = out@;
    let mut i: usize = 0;
    while i < n
        invariant
            i <= n,
            n <= 0xFFFF_FFFF,
            out@ == base5 + sec_images(i as int),
        decreases n - i,
    {
        if i > 0 {
            push_lit(&mut out, ",");
        }
        push_image_item(&mut out, i);
        proof {
            assert(out@ =~= base5 + sec_images(i + 1));
        }
        i = i + 1;
    }
    push_lit(&mut out, "],\"materials\":[");
    let ghost base6 = out@;
    let mut i: usize = 0;
    while i < n
        invariant
            i <= n,
            n <= 0xFFFF_FFFF,
            out@ == base6 + sec_materials(i as int),
        decreases n - i,
    {
        if i > 0 {
            push_lit(&mut out, ",");
        }
        push_material_item(&mut out, i);
        proof {
            assert(out@ =~= base6 + sec_materials(i + 1));
        }
        i = i + 1;
    }
    push_lit(
        &mut out,
        "],\"samplers\":[{\"magFilter\":9728,\"minFilter\":9728}],\"accessors\":[",
    );
    let ghost base7 = out@;
    let mut i: usize = 0;
    while i < n
        invariant
            i <= n,
            n == ms.len(),
            n <= 0xFFFF_FFFF,
            ms == meshes@,
            out@ == base7 + sec_accessors(ms, i as int),
        decreases n - i,
    {
        if i > 0 {
            push_lit(&mut out, ",");
        }
        push_accessor_item(&mut out, &meshes[i], i);
        proof {
            assert(out@ =~= base7 + sec_accessors(ms, i + 1));
        }
        i = i + 1;
    }
    push_lit(&mut out, "],\"bufferViews\":[");
    let ghost base8 = out@;
    let mut cursor: u64 = 0;
    let mut i: usize = 0;
    while i < n
        invariant
            i <= n,
            n == ms.len(),
            n == images@.len(),
            n <= 0xFFFF_FFFF,
            ms == meshes@,
            gimgs == imgs_of(images@),
            spec_buffer_len(ms, gimgs) <= 0xFFFF_FFFF,
            cursor == buffer_offset(ms, gimgs, i as int),
            out@ == base8 + sec_buffer_views(ms, gimgs, i as int),
        decreases n - i,
    {
        proof {
            lemma_buffer_offset_mono(ms, gimgs, i + 1, n as int);
            lemma_buffer_offset_nonneg(ms, gimgs, i as int);
            assert(imgs_of(images@)[i as int] == images@[i as int]@);
            assert(images@[i as int]@.len() <= spec_pad_length(images@[i as int]@.len() as int))
                by (nonlinear_arith);
        }
        if i > 0 {
            push_lit(&mut out, ",");
        }
        push_buffer_view_item(&mut out, &meshes[i], &images[i], cursor);
        let m = &meshes[i];
        let blen: u64 = (m.normals.len() as u64) * 12 + (m.vertexes.len() as u64) * 12 + (m.uvs.len()
            as u64) * 8 + (m.indices.len() as u64) * 4;
        let pl: u64 = ((images[i].len() as u64) + 3) / 4 * 4;
        proof {
            assert(pl == spec_pad_length(images@[i as int]@.len() as int));
        }
        cursor = cursor + blen + pl;
        proof {
            assert(out@ =~= base8 + sec_buffer_views(ms, gimgs, i + 1));
        }
        i = i + 1;
    }
    push_lit(&mut out, "],\"buffers\":[{\"byteLength\":");
    push_dec(&mut out, cursor);
    push_lit(&mut out, "}]}");
    proof {
        reveal(spec_json_doc);
        assert(out@ =~= spec_json_doc(ms, gimgs));
    }
    out
}


/// Appends one mesh's region: its four packed arrays, image bytes, and zero
/// padding.
#[verifier::rlimit(60)]
fn push_group(out: &mut Vec<u8>, m: &GltfObject, img: &Vec<u8>)
    requires
        img@.len() <= 0xFFFF_FFFF,
    ensures
        final(out)@ == old(out)@ + group_bytes(*m, img@),
{
    push_vec3s(out, &m.normals);
    push_vec3s(out, &m.vertexes);
    push_vec2s(out, &m.uvs);
    push_u32s(out, &m.indices);
    push_bytes(out, img.as_slice());
    let ilen: u64 = img.len() as u64;
    let pl: u64 = (ilen + 3) / 4 * 4;
    proof {
        assert(pl == spec_pad_length(img@.len() as int));
        assert(ilen <= pl) by (nonlinear_arith)
            requires
                pl == ((ilen + 3) / 4) * 4,
        ;
    }
    push_zeros(out, (pl - ilen) as usize);
    proof {
        assert(out@ =~= old(out)@ + group_bytes(*m, img@));
    }
}

/// Computes one region's length when it can fit the container's 32-bit
/// fields; reports nothing when a component alone is already too large.
fn region_len_checked(m: &GltfObject, img: &Vec<u8>) -> (r: Option<u64>)
    ensures
        r matches Some(v) ==> v == group_region_len(*m, img@) && v <= 0x6_0000_0000 && img@.len()
            <= 0xFFFF_FFFF,
        r is None ==> group_region_len(*m, img@) > 0xFFFF_FFFF,
{
    if m.normals.len() > 357913941 || m.vertexes.len() > 357913941 || m.uvs.len() > 536870911
        || m.indices.len() > 1073741823 || img.len() > 0xFFFF_FFFF {
        proof {
            assert(img@.len() <= spec_pad_length(img@.len() as int)) by (nonlinear_arith);
            assert(spec_pad_length(img@.len() as int) >= 0) by (nonlinear_arith);
        }
        return None;
    }
    let blen: u64 = (m.normals.len() as u64) * 12 + (m.vertexes.len() as u64) * 12 + (m.uvs.len()
        as u64) * 8 + (m.indices.len() as u64) * 4;
    let ilen: u64 = img.len() as u64;
    let pl: u64 = (ilen + 3) / 4 * 4;
    proof {
        assert(pl == spec_pad_length(img@.len() as int));
        assert(pl <= ilen + 3) by (nonlinear_arith)
            requires
                pl == ((ilen + 3) / 4) * 4,
        ;
    }
    Some(blen + pl)
}

/// Packs the binary buffer: each mesh's four arrays, its image bytes, and
/// the zero padding to the next 4-byte boundary, region after region.
#[verifier::rlimit(100)]
pub fn build_buffer(meshes: &[GltfObject], images: &[Vec<u8>]) -> (r: Vec<u8>)
    requires
        images@.len() == meshes@.len(),
        spec_buffer_len(meshes@, imgs_of(images@)) <= 0xFFFF_FFFF,
    ensures
        r@ == groups_bytes(meshes@, imgs_of(images@), meshes@.len() as int),
        r@.len() == spec_buffer_len(meshes@, imgs_of(images@)),
{
    let ghost ms = meshes@;
    let ghost gimgs = imgs_of(images@);
    let n = meshes.len();
    let mut out: Vec<u8> = Vec::new();
    let mut i: usize = 0;
    while i < n
        invariant
            i <= n,
            n == ms.len(),
            n == images@.len(),
            ms == meshes@,
            gimgs == imgs_of(images@),
            spec_buffer_len(ms, gimgs) <= 0xFFFF_FFFF,
            out@ == groups_bytes(ms, gimgs, i as int),
        decreases n - i,
    {
        proof {
            lemma_buffer_offset_mono(ms, gimgs, i + 1, n as int);
            lemma_buffer_offset_nonneg(ms, gimgs, i as int);
            assert(imgs_of(images@)[i as int] == images@[i as int]@);
            assert(images@[i as int]@.len() <= spec_pad_length(images@[i as int]@.len() as int))
                by (nonlinear_arith);
        }
        proof {
            assert(group_region_len(ms[i as int], gimgs[i as int]) <= 0xFFFF_FFFF);
            assert(gimgs[i as int].len() <= spec_pad_length(gimgs[i as int].len() as int)) by (nonlinear_arith);
            assert(gimgs[i as int].len() <= 0xFFFF_FFFF);
        }
        push_group(&mut out, &meshes[i], &images[i]);
        proof {
            assert(out@ =~= groups_bytes(ms, gimgs, i + 1));
        }
        i = i + 1;
    }
    proof {
        lemma_groups_bytes_len(ms, gimgs, n as int);
    }
    out
}

/// Frames the JSON document and the packed buffer into the two-chunk
/// container, or reports that the file cannot fit its 32-bit length fields.
/// Succeeds exactly when the whole file fits.
#[verifier::rlimit(100)]
pub fn build_glb(meshes: &[GltfObject], images: &[Vec<u8>]) -> (r: Result<
    (Vec<u8>, Vec<u8>),
    SaveMeshError,
>)
    requires
        images@.len() == meshes@.len(),
        meshes@.len() <= 0xFFFF_FFFF,
    ensures
        r matches Ok(p) ==> {
            &&& spec_glb_len(meshes@, imgs_of(images@)) <= 0xFFFF_FFFF
            &&& p.0@ == spec_glb(meshes@, imgs_of(images@))
            &&& p.1@ == spec_json_doc(meshes@, imgs_of(images@))
        },
        spec_glb_len(meshes@, imgs_of(images@)) <= 0xFFFF_FFFF ==> r is Ok,
        r is Err ==> r == Err::<(Vec<u8>, Vec<u8>), SaveMeshError>(SaveMeshError::TooLarge),
{
    let ghost ms = meshes@;
    let ghost gimgs = imgs_of(images@);
    proof {
        lemma_json_len_nonneg(ms, gimgs);
    }
    let n = meshes.len();
    let mut cursor: u64 = 0;
    let mut i: usize = 0;
    while i < n
        invariant
            i <= n,
            n == ms.len(),
            n == images@.len(),
            ms == meshes@,
            gimgs == imgs_of(images@),
            cursor == buffer_offset(ms, gimgs, i as int),
            cursor <= 0xFFFF_FFFF,
        decreases n - i,
    {
        proof {
            lemma_buffer_offset_nonneg(ms, gimgs, i as int);
            lemma_buffer_offset_mono(ms, gimgs, i + 1, n as int);
            assert(imgs_of(images@)[i as int] == images@[i as int]@);
            assert(images@[i as int]@.len() <= spec_pad_length(images@[i as int]@.len() as int))
                by (nonlinear_arith);
        }
        let region: u64 = match region_len_checked(&meshes[i], &images[i]) {
            Some(v) => v,
            None => {
                proof {
                    lemma_json_len_nonneg(ms, gimgs);
                    assert(buffer_offset(ms, gimgs, i + 1) <= spec_buffer_len(ms, gimgs));
                    assert(spec_glb_len(ms, gimgs) > 0xFFFF_FFFF);
                }
                return Err(SaveMeshError::TooLarge);
            },
        };
        let next = cursor + region;
        if next > 0xFFFF_FFFF {
            proof {
                lemma_json_len_nonneg(ms, gimgs);
                assert(buffer_offset(ms, gimgs, i + 1) <= spec_buffer_len(ms, gimgs));
                assert(spec_glb_len(ms, gimgs) > 0xFFFF_FFFF);
            }
            return Err(SaveMeshError::TooLarge);
        }
        cursor = next;
        i = i + 1;
    }
    proof {
        assert(spec_buffer_len(ms, gimgs) == cursor);
    }
    let json = build_gltf_json(meshes, images);
    if json.len() > 0xFFFF_FFF0 {
        proof {
            assert(spec_json_doc(ms, gimgs).len() <= spec_pad_length(
                spec_json_doc(ms, gimgs).len() as int,
            )) by (nonlinear_arith);
            lemma_buffer_offset_nonneg(ms, gimgs, ms.len() as int);
        }
        return Err(SaveMeshError::TooLarge);
    }
    let jlen: u64 = json.len() as u64;
    let jp: u64 = (jlen + 3) / 4 * 4;
    proof {
        assert(jp == spec_pad_length(spec_json_doc(ms, gimgs).len() as int));
    }
    let total: u64 = 28 + jp + cursor;
    if total > 0xFFFF_FFFF {
        return Err(SaveMeshError::TooLarge);
    }
    let buffer = build_buffer(meshes, images);
    let mut out: Vec<u8> = Vec::new();
    push_lit(&mut out, "glTF");
    push_u32_le(&mut out, 2);
    push_u32_le(&mut out, total as u32);
    push_u32_le(&mut out, jp as u32);
    push_lit(&mut out, "JSON");
    push_bytes(&mut out, json.as_slice());
    push_spaces(&mut out, (jp - jlen) as usize);
    push_u32_le(&mut out, cursor as u32);
    push_lit(&mut out, "BIN");
    out.push(0u8);
    push_bytes(&mut out, buffer.as_slice());
    proof {
        reveal(spec_glb);
        assert(out@ =~= spec_glb(ms, gimgs));
    }
    Ok((out, json))
}

/// A JSON document and its padding never have negative length.
proof fn lemma_json_len_nonneg(ms: Seq<GltfObject>, imgs: Seq<Seq<u8>>)
    ensures
        0 <= spec_json_doc(ms, imgs).len(),
        0 <= spec_pad_length(spec_json_doc(ms, imgs).len() as int),
{
    assert(0 <= spec_pad_length(spec_json_doc(ms, imgs).len() as int)) by (nonlinear_arith);
}

/// Relies on `image::DynamicImage::write_to` with the PNG format: it encodes
/// the image's pixels as PNG bytes into the writer, or reports the codec's
/// error.
#[verifier::external_body]
fn encode_png(img: &image::DynamicImage) -> (r: Result<Vec<u8>, image::ImageError>) {
    let mut bytes: Vec<u8> = Vec::new();
    match img.write_to(&mut std::io::Cursor::new(&mut bytes), image::ImageFormat::Png) {
        Ok(()) => Ok(bytes),
        Err(e) => Err(e),
    }
}

/// A UTF-8 encoding never takes more than 4 bytes per character.
proof fn lemma_encode_utf8_len_le(chars: Seq<char>)
    ensures
        encode_utf8(chars).len() <= 4 * chars.len(),
    decreases chars.len(),
{
    if chars.len() > 0 {
        lemma_encode_utf8_len_le(chars.drop_first());
    }
}

/// An empty scene's container always fits the 32-bit length fields: its
/// JSON document is a fixed skeleton and its buffer is empty.
proof fn lemma_empty_scene_fits()
    ensures
        spec_glb_len(Seq::<GltfObject>::empty(), Seq::<Seq<u8>>::empty()) <= 0xFFFF_FFFF,
{
    reveal(spec_json_doc);
    let ms = Seq::<GltfObject>::empty();
    let imgs = Seq::<Seq<u8>>::empty();
    reveal_strlit(
        "{\"asset\":{\"generator\":\"None\",\"version\":\"2.0\"},\"scene\":0,\"scenes\":[{\"name\":\"Scene0\",\"nodes\":[",
    );
    reveal_strlit("]}],\"nodes\":[");
    reveal_strlit("],\"meshes\":[");
    reveal_strlit("],\"textures\":[");
    reveal_strlit("],\"images\":[");
    reveal_strlit("],\"materials\":[");
    reveal_strlit("],\"samplers\":[{\"magFilter\":9728,\"minFilter\":9728}],\"accessors\":[");
    reveal_strlit("],\"bufferViews\":[");
    reveal_strlit("],\"buffers\":[{\"byteLength\":");
    reveal_strlit("}]}");
    lemma_encode_utf8_len_le(
        "{\"asset\":{\"generator\":\"None\",\"version\":\"2.0\"},\"scene\":0,\"scenes\":[{\"name\":\"Scene0\",\"nodes\":["@,
    );
    lemma_encode_utf8_len_le("]}],\"nodes\":["@);
    lemma_encode_utf8_len_le("],\"meshes\":["@);
    lemma_encode_utf8_len_le("],\"textures\":["@);
    lemma_encode_utf8_len_le("],\"images\":["@);
    lemma_encode_utf8_len_le("],\"materials\":["@);
    lemma_encode_utf8_len_le(
        "],\"samplers\":[{\"magFilter\":9728,\"minFilter\":9728}],\"accessors\":["@,
    );
    lemma_encode_utf8_len_le("],\"bufferViews\":["@);
    lemma_encode_utf8_len_le("],\"buffers\":[{\"byteLength\":"@);
    lemma_encode_utf8_len_le("}]}"@);
    assert(spec_buffer_len(ms, imgs) == 0);
    assert(spec_dec(0).len() == 1);
    let jlen = spec_json_doc(ms, imgs).len() as int;
    assert(jlen <= 2000);
    assert(spec_pad_length(jlen) <= jlen + 3) by (nonlinear_arith)
        requires
            0 <= jlen,
    ;
}

/// Serializes the meshes into the container and the JSON document it embeds:
/// encodes each texture as PNG bytes, then lays out and frames both chunks.
/// The caller owns writing the two byte streams out.
pub fn save_mesh(meshes: &[GltfObject]) -> (r: Result<(Vec<u8>, Vec<u8>), SaveMeshError>)
    requires
        meshes@.len() <= 0xFFFF_FFFF,
    ensures
        r matches Ok(p) ==> exists|imgs: Seq<Seq<u8>>|
            {
                &&& imgs.len() == meshes@.len()
                &&& spec_glb_len(meshes@, imgs) <= 0xFFFF_FFFF
                &&& #[trigger] spec_glb(meshes@, imgs) == p.0@
                &&& spec_json_doc(meshes@, imgs) == p.1@
            },
        r == Err::<(Vec<u8>, Vec<u8>), SaveMeshError>(SaveMeshError::TooLarge)
            ==> exists|imgs: Seq<Seq<u8>>|
            {
                &&& imgs.len() == meshes@.len()
                &&& #[trigger] spec_glb_len(meshes@, imgs) > 0xFFFF_FFFF
            },
        r matches Err(e) && e is ImageError ==> meshes@.len() > 0,
        meshes@.len() == 0 ==> r is Ok,
{
    let n = meshes.len();
    let mut images: Vec<Vec<u8>> = Vec::new();
    let mut i: usize = 0;
    while i < n
        invariant
            i <= n,
            n == meshes@.len(),
            images@.len() == i,
        decreases n - i,
    {
        match encode_png(&meshes[i].texture) {
            Ok(bytes) => {
                images.push(bytes);
            },
            Err(e) => { return Err(SaveMeshError::ImageError(e)) },
        }
        i = i + 1;
    }
    proof {
        if meshes@.len() == 0 {
            lemma_empty_scene_fits();
            assert(meshes@ =~= Seq::<GltfObject>::empty());
            assert(imgs_of(images@) =~= Seq::<Seq<u8>>::empty());
        }
    }
    match build_glb(meshes, images.as_slice()) {
        Ok(p) => {
            proof {
                let w = imgs_of(images@);
                assert(spec_glb(meshes@, w) == p.0@);
            }
            Ok(p)
        },
        Err(e) => {
            proof {
                let w = imgs_of(images@);
                assert(w.len() == meshes@.len() && spec_glb_len(meshes@, w) > 0xFFFF_FFFF);
            }
            Err(e)
        },
    }
}

} // verus!
