//! Decoder for compiled BSP map containers and serializer for GLB triangle-mesh
//! scenes.
//!
//! The library decodes the lump directory and the typed record arrays of a BSP
//! file (decompressing LZMA-packed lumps), reconstructs triangle geometry from
//! the face/edge/plane/displacement topology grouped by material category, and
//! lays the resulting meshes out as a two-chunk binary GLB container.
//!
//! Floating-point samples (positions, normals, texture projections) are carried
//! as raw IEEE-754 bit patterns: the library owns the byte layout and the
//! topology, while numeric evaluation of the samples is left to the caller.

pub mod bytes;
pub mod comma_format;
pub mod error;
pub mod gltf_export;
pub mod parse_bsp;
