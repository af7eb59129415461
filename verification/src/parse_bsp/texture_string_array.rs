//! The texture-name lumps: a blob of zero-terminated strings plus a table of
//! byte offsets into it. Resolving a name is a two-step indexed lookup.

use crate::bytes::le_u32_at;
use crate::bytes::read_u32_le;
use crate::error::BspError;
use crate::parse_bsp::parse_split_lump::lump_data_of;
use crate::parse_bsp::parse_split_lump::read_lump_data;
use crate::parse_bsp::Lump;
use vstd::prelude::*;
use vstd::string::StringSliceAdditionalSpecFns;
use vstd::utf8::valid_utf8;

verus! {

/// The raw string blob of the texture-name lump.
#[derive(Debug)]
pub struct TextureDataStringArray(pub Vec<u8>);

/// Index of the first zero byte of `blob` at or after `i`, or `blob.len()`
/// when no terminator follows.
pub open spec fn terminator_of(blob: Seq<u8>, i: int) -> int
    decreases blob.len() - i,
{
    if i < 0 || i >= blob.len() {
        blob.len() as int
    } else if blob[i] == 0 {
        i
    } else {
        terminator_of(blob, i + 1)
    }
}

/// The bytes of the name that starts at byte offset `i` of the blob: all
/// bytes up to but excluding the first zero terminator.
pub open spec fn name_bytes_at(blob: Seq<u8>, i: int) -> Seq<u8> {
    blob.subrange(i, terminator_of(blob, i))
}

pub proof fn lemma_terminator_bounds(blob: Seq<u8>, i: int)
    requires
        0 <= i <= blob.len(),
    ensures
        i <= terminator_of(blob, i) <= blob.len(),
        terminator_of(blob, i) < blob.len() ==> blob[terminator_of(blob, i)] == 0,
        forall|j: int| i <= j < terminator_of(blob, i) ==> blob[j] != 0,
    decreases blob.len() - i,
{
    if i < blob.len() && blob[i] != 0 {
        lemma_terminator_bounds(blob, i + 1);
    }
}

/// Relies on `std::str::from_utf8`: it succeeds exactly on byte slices that
/// are valid UTF-8, and the resulting string view covers the input bytes
/// unchanged.
#[verifier::external_body]
fn utf8_from(b: &[u8]) -> (r: Option<&str>)
    ensures
        r matches Some(s) ==> valid_utf8(b@) && s.spec_bytes() == b@,
        r is None ==> !valid_utf8(b@),
{
    std::str::from_utf8(b).ok()
}

impl TextureDataStringArray {
    /// Resolves the name that starts at byte offset `index`: scans forward to
    /// the terminating zero byte and interprets the intervening bytes as
    /// text. Fails when the offset lies outside the blob, when no terminator
    /// follows, or when the bytes are not valid text.
    pub fn get_str(&self, index: usize) -> (r: Result<&str, BspError>)
        ensures
            index > self.0@.len() ==> r == Err::<&str, BspError>(BspError::IndexOutOfBounds),
            index <= self.0@.len() && terminator_of(self.0@, index as int) == self.0@.len()
                ==> r == Err::<&str, BspError>(BspError::UnterminatedName),
            index <= self.0@.len() && terminator_of(self.0@, index as int) < self.0@.len()
                && !valid_utf8(name_bytes_at(self.0@, index as int)) ==> r == Err::<
                &str,
                BspError,
            >(BspError::BadNameText),
            index <= self.0@.len() && terminator_of(self.0@, index as int) < self.0@.len()
                && valid_utf8(name_bytes_at(self.0@, index as int)) ==> r is Ok,
            r matches Ok(s) ==> {
                &&& index <= self.0@.len()
                &&& terminator_of(self.0@, index as int) < self.0@.len()
                &&& valid_utf8(name_bytes_at(self.0@, index as int))
                &&& s.spec_bytes() == name_bytes_at(self.0@, index as int)
            },
    {
        let blob_len = self.0.len();
        if index > blob_len {
            return Err(BspError::IndexOutOfBounds);
        }
        proof {
            lemma_terminator_bounds(self.0@, index as int);
        }
        let mut end = index;
        while end < blob_len && *self.0.get(end).unwrap() != 0
            invariant
                index <= end <= blob_len,
                blob_len == self.0@.len(),
                terminator_of(self.0@, index as int) == terminator_of(self.0@, end as int),
            decreases blob_len - end,
        {
            proof {
                assert(terminator_of(self.0@, end as int) == terminator_of(
                    self.0@,
                    end + 1,
                ));
            }
            end = end + 1;
        }
        proof {
            assert(terminator_of(self.0@, end as int) == end || terminator_of(
                self.0@,
                end as int,
            ) == self.0@.len());
        }
        if end == blob_len {
            return Err(BspError::UnterminatedName);
        }
        let name = &self.0.as_slice()[index..end];
        match utf8_from(name) {
            Some(s) => Ok(s),
            None => Err(BspError::BadNameText),
        }
    }
}

/// Decodes the string blob lump: the lump's logical stream, kept as raw
/// bytes.
pub fn parse_texture_data_string_array(file: &[u8], lump: Lump) -> (r: Result<
    TextureDataStringArray,
    BspError,
>)
    ensures
        r matches Ok(a) ==> lump_data_of(file@, lump) == Some(a.0@),
        r is Err ==> lump_data_of(file@, lump) is None,
{
    match read_lump_data(file, lump) {
        Ok(d) => Ok(TextureDataStringArray(d)),
        Err(e) => Err(e),
    }
}

/// One entry of the texture-name table: a byte offset into the string blob.
#[derive(Copy, Clone, Eq, PartialEq, Structural, Debug)]
pub struct TextureString(pub u32);

pub const TEXTURE_STRING_RECORD_SIZE: usize = 4;

/// The name-table record stored at byte offset `i`.
pub open spec fn spec_texture_string_at(b: Seq<u8>, i: int) -> TextureString {
    TextureString(le_u32_at(b, i))
}

/// Decodes the texture-name table lump; record `j` comes from bytes
/// `[4*j, 4*j+4)` of the lump's logical stream, whose length must be a
/// multiple of 4.
pub fn parse_texture_data_string_table(file: &[u8], lump: Lump) -> (r: Result<
    Vec<TextureString>,
    BspError,
>)
    ensures
        match lump_data_of(file@, lump) {
            Option::Some(d) => {
                if (d.len() as int) % (TEXTURE_STRING_RECORD_SIZE as int) == 0 {
                    &&& r matches Ok(v)
                    &&& v@.len() * (TEXTURE_STRING_RECORD_SIZE as int) == d.len()
                    &&& forall|j: int|
                        0 <= j < v@.len() ==> v@[j] == spec_texture_string_at(
                            d,
                            (TEXTURE_STRING_RECORD_SIZE as int) * j,
                        )
                } else {
                    r == Err::<Vec<TextureString>, BspError>(BspError::LumpSize)
                }
            },
            Option::None => r is Err,
        },
{
    let data = match read_lump_data(file, lump) {
        Ok(d) => d,
        Err(e) => { return Err(e) },
    };
    let dlen = data.len();
    if dlen % TEXTURE_STRING_RECORD_SIZE != 0 {
        return Err(BspError::LumpSize);
    }
    let mut out: Vec<TextureString> = Vec::new();
    let mut pos: usize = 0;
    while pos < dlen
        invariant
            pos <= dlen,
            dlen == data@.len(),
            (dlen as int) % (TEXTURE_STRING_RECORD_SIZE as int) == 0,
            (pos as int) % (TEXTURE_STRING_RECORD_SIZE as int) == 0,
            out@.len() * (TEXTURE_STRING_RECORD_SIZE as int) == pos as int,
            forall|j: int|
                0 <= j < out@.len() ==> out@[j] == spec_texture_string_at(
                    data@,
                    (TEXTURE_STRING_RECORD_SIZE as int) * j,
                ),
        decreases dlen - pos,
    {
        proof {
            assert(pos + TEXTURE_STRING_RECORD_SIZE <= dlen) by (nonlinear_arith)
                requires
                    pos < dlen && (pos as int) % 4 == 0 && (dlen as int) % 4 == 0,
            ;
        }
        out.push(TextureString(read_u32_le(data.as_slice(), pos)));
        pos = pos + TEXTURE_STRING_RECORD_SIZE;
    }
    Ok(out)
}

} // verus!
