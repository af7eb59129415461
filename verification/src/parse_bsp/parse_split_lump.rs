//! Extraction of a lump's logical byte stream: a plain slice of the file for
//! an uncompressed lump, or the transparently decompressed payload of a lump
//! that carries the fixed-format compression sub-header.

use crate::bytes::le_u32_at;
use crate::bytes::push_bytes;
use crate::bytes::push_u32_le;
use crate::bytes::read_u32_le;
use crate::bytes::u32_le_bytes;
use crate::error::BspError;
use crate::parse_bsp::Lump;
use vstd::prelude::*;

verus! {

/// 4-byte magic tag of a compressed lump's sub-header, read little-endian.
pub const LZMA_MAGIC: u32 = 0x414D_5A4C;

/// What the decompression codec yields for a raw byte stream consisting of a
/// 13-byte standard header (5 codec-properties bytes plus the little-endian
/// 64-bit decompressed size) followed by the compressed payload; `None` when
/// the codec rejects the stream. The result depends on the input bytes alone.
pub uninterp spec fn lzma_plain_of(input: Seq<u8>) -> Option<Seq<u8>>;

/// Relies on `lzma_rs::lzma_decompress`: decompression of an LZMA stream is a
/// deterministic function of the input bytes, and a rejected stream is
/// reported through the codec's error result.
#[verifier::external_body]
fn lzma_decode(input: &[u8]) -> (r: Option<Vec<u8>>)
    ensures
        r matches Some(v) ==> lzma_plain_of(input@) == Some(v@),
        r is None ==> lzma_plain_of(input@) is None,
{
    let mut reader = std::io::Cursor::new(input);
    let mut out: Vec<u8> = Vec::new();
    match lzma_rs::lzma_decompress(&mut reader, &mut out) {
        Ok(()) => Some(out),
        Err(_) => None,
    }
}

/// The byte stream handed to the decompression codec for a compressed lump:
/// the 5 properties bytes of the sub-header, the declared decompressed size
/// widened to 64 bits little-endian, then exactly `compressed size` payload
/// bytes.
pub open spec fn lzma_input_of(file: Seq<u8>, lump: Lump) -> Seq<u8> {
    let off = lump.offset as int;
    let csize = le_u32_at(file, off + 8);
    file.subrange(off + 12, off + 17) + u32_le_bytes(le_u32_at(file, off + 4)) + seq![
        0u8,
        0u8,
        0u8,
        0u8,
    ] + file.subrange(off + 17, off + 17 + csize)
}

/// The logical byte stream of a lump, or `None` when the file is corrupt at
/// this lump: region out of bounds, sub-header magic mismatch, payload
/// rejected by the codec, or a decompressed length other than the declared
/// one.
pub open spec fn lump_data_of(file: Seq<u8>, lump: Lump) -> Option<Seq<u8>> {
    let off = lump.offset as int;
    if !lump.spec_is_compressed() {
        if off + lump.length <= file.len() {
            Some(file.subrange(off, off + lump.length))
        } else {
            None
        }
    } else {
        if off + 17 <= file.len() && le_u32_at(file, off) == LZMA_MAGIC && off + 17 + le_u32_at(
            file,
            off + 8,
        ) <= file.len() {
            match lzma_plain_of(lzma_input_of(file, lump)) {
                Some(v) => if v.len() == le_u32_at(file, off + 4) {
                    Some(v)
                } else {
                    None
                },
                None => None,
            }
        } else {
            None
        }
    }
}

/// True when a compressed lump's sub-header and payload region lie inside
/// the file and carry the right magic tag.
pub open spec fn compressed_region_ok(file: Seq<u8>, lump: Lump) -> bool {
    let off = lump.offset as int;
    &&& lump.spec_is_compressed()
    &&& off + 17 <= file.len()
    &&& le_u32_at(file, off) == LZMA_MAGIC
    &&& off + 17 + le_u32_at(file, off + 8) <= file.len()
}

/// Produces the logical byte stream of `lump`: a copy of the lump region when
/// the compression tag is all zero, otherwise the decompressed payload, whose
/// length must equal the sub-header's declared decompressed size.
pub fn read_lump_data(file: &[u8], lump: Lump) -> (r: Result<Vec<u8>, BspError>)
    ensures
        r matches Ok(v) ==> lump_data_of(file@, lump) == Some(v@),
        r is Err ==> lump_data_of(file@, lump) is None,
        !lump.spec_is_compressed() && lump.offset + lump.length > file@.len() ==> r == Err::<
            Vec<u8>,
            BspError,
        >(BspError::Truncated),
        lump.spec_is_compressed() && lump.offset + 17 > file@.len() ==> r == Err::<
            Vec<u8>,
            BspError,
        >(BspError::Truncated),
        lump.spec_is_compressed() && lump.offset + 17 <= file@.len() && le_u32_at(
            file@,
            lump.offset as int,
        ) != LZMA_MAGIC ==> r == Err::<Vec<u8>, BspError>(BspError::BadLzmaMagic),
        compressed_region_ok(file@, lump) && lzma_plain_of(lzma_input_of(file@, lump)) is None
            ==> r == Err::<Vec<u8>, BspError>(BspError::Decompress),
        compressed_region_ok(file@, lump) && (lzma_plain_of(lzma_input_of(file@, lump)) matches
            Some(v) && v.len() != le_u32_at(file@, lump.offset + 4)) ==> r == Err::<
            Vec<u8>,
            BspError,
        >(BspError::DecompressedLength),
{
    let flen = file.len();
    let off = lump.offset as usize;
    if !lump.is_compressed() {
        let len = lump.length as usize;
        if off > flen || len > flen - off {
            return Err(BspError::Truncated);
        }
        let mut v: Vec<u8> = Vec::new();
        push_bytes(&mut v, &file[off..off + len]);
        Ok(v)
    } else {
        if off > flen || 17 > flen - off {
            return Err(BspError::Truncated);
        }
        let magic = read_u32_le(file, off);
        if magic != LZMA_MAGIC {
            return Err(BspError::BadLzmaMagic);
        }
        let actual_size = read_u32_le(file, off + 4);
        let compressed_size = read_u32_le(file, off + 8);
        if compressed_size as usize > flen - (off + 17) {
            return Err(BspError::Truncated);
        }
        let mut input: Vec<u8> = Vec::new();
        push_bytes(&mut input, &file[off + 12..off + 17]);
        push_u32_le(&mut input, actual_size);
        input.push(0u8);
        input.push(0u8);
        input.push(0u8);
        input.push(0u8);
        push_bytes(&mut input, &file[off + 17..off + 17 + compressed_size as usize]);
        proof {
            assert(input@ =~= lzma_input_of(file@, lump));
        }
        match lzma_decode(input.as_slice()) {
            None => Err(BspError::Decompress),
            Some(v) => {
                if v.len() == actual_size as usize {
                    Ok(v)
                } else {
                    Err(BspError::DecompressedLength)
                }
            },
        }
    }
}

} // verus!
