use vstd::prelude::*;

verus! {

/// A fatal condition met while decoding a BSP container or rebuilding its
/// geometry. The input file is treated as wholly valid or wholly corrupt:
/// every variant aborts the run.
#[derive(Clone, Copy, Debug, PartialEq, Eq, Structural)]
pub enum BspError {
    /// The file is too short for the header, the directory, or a lump region.
    Truncated,
    /// The 4-byte magic tag of the file header did not match.
    BadMagic,
    /// The 4-byte magic tag of a compressed lump's sub-header did not match.
    BadLzmaMagic,
    /// The decompression codec rejected a compressed lump payload.
    Decompress,
    /// A decompressed lump did not have its declared decompressed length.
    DecompressedLength,
    /// A lump's byte length is not a multiple of its record size.
    LumpSize,
    /// A byte that should encode a boolean held a value other than 0 or 1.
    BadBool,
    /// A cross-lump reference (edge, vertex, plane, texture, ...) is out of range.
    IndexOutOfBounds,
    /// The brush-model lump holds no root model.
    NoBrushModel,
    /// A texture name in the string blob has no terminating zero byte.
    UnterminatedName,
    /// A texture name holds bytes that are not valid text.
    BadNameText,
    /// A texture name under the map prefix lacks the segment that names its category.
    BadCategory,
    /// An ordinary face's polygon loop is too short to reference any vertex.
    FaceEdgeCount,
    /// The reconstructed geometry would exceed the machine's addressable size.
    Overflow,
    /// A face marked as a displacement does not have exactly 4 edges.
    DisplacementEdgeCount,
    /// A displacement descriptor's power lies outside the valid range 1 to 4.
    DisplacementPower,
}

} // verus!
