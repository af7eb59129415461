//! Indices of the lump kinds inside the 64-entry directory. The enumeration is
//! pure configuration: only a handful of kinds feed the geometry pipeline, but
//! the full table documents the container layout.

use vstd::prelude::*;

verus! {

pub const LUMP_ENTITIES: usize = 0;

pub const LUMP_PLANES: usize = 1;

pub const LUMP_TEXDATA: usize = 2;

pub const LUMP_VERTEXES: usize = 3;

pub const LUMP_VISIBILITY: usize = 4;

pub const LUMP_NODES: usize = 5;

pub const LUMP_TEXINFO: usize = 6;

pub const LUMP_FACES: usize = 7;

pub const LUMP_LIGHTING: usize = 8;

pub const LUMP_OCCLUSION: usize = 9;

pub const LUMP_LEAFS: usize = 10;

pub const LUMP_FACEIDS: usize = 11;

pub const LUMP_EDGES: usize = 12;

pub const LUMP_SURFEDGES: usize = 13;

pub const LUMP_MODELS: usize = 14;

pub const LUMP_WORLDLIGHTS: usize = 15;

pub const LUMP_LEAFFACES: usize = 16;

pub const LUMP_LEAFBRUSHES: usize = 17;

pub const LUMP_BRUSHES: usize = 18;

pub const LUMP_BRUSHSIDES: usize = 19;

pub const LUMP_AREAS: usize = 20;

pub const LUMP_AREAPORTALS: usize = 21;

pub const LUMP_PORTALS: usize = 22;

pub const LUMP_CLUSTERS: usize = 23;

pub const LUMP_PORTALVERTS: usize = 24;

pub const LUMP_CLUSTERPORTALS: usize = 25;

pub const LUMP_DISPINFO: usize = 26;

pub const LUMP_ORIGINALFACES: usize = 27;

pub const LUMP_PHYSDISP: usize = 28;

pub const LUMP_PHYSCOLLIDE: usize = 29;

pub const LUMP_VERTNORMALS: usize = 30;

pub const LUMP_VERTNORMALINDICES: usize = 31;

pub const LUMP_DISP_LIGHTMAP_ALPHAS: usize = 32;

pub const LUMP_DISP_VERTS: usize = 33;

pub const LUMP_DISP_LIGHTMAP_SAMPLE_POSITIONS: usize = 34;

pub const LUMP_GAME_LUMP: usize = 35;

pub const LUMP_LEAFWATERDATA: usize = 36;

pub const LUMP_PRIMITIVES: usize = 37;

pub const LUMP_PRIMVERTS: usize = 38;

pub const LUMP_PRIMINDICES: usize = 39;

pub const LUMP_PAKFILE: usize = 40;

pub const LUMP_CLIPPORTALVERTS: usize = 41;

pub const LUMP_CUBEMAPS: usize = 42;

pub const LUMP_TEXDATA_STRING_DATA: usize = 43;

pub const LUMP_TEXDATA_STRING_TABLE: usize = 44;

pub const LUMP_OVERLAYS: usize = 45;

pub const LUMP_LEAFMINDISTTOWATER: usize = 46;

pub const LUMP_FACE_MACRO_TEXTURE_INFO: usize = 47;

pub const LUMP_DISP_TRIS: usize = 48;

pub const LUMP_PHYSCOLLIDESURFACE: usize = 49;

pub const LUMP_WATEROVERLAYS: usize = 50;

pub const LUMP_LIGHTMAPPAGES: usize = 51;

pub const LUMP_LIGHTMAPPAGEINFOS: usize = 52;

pub const LUMP_LIGHTING_HDR: usize = 53;

pub const LUMP_WORLDLIGHTS_HDR: usize = 54;

pub const LUMP_LEAF_AMBIENT_LIGHTING_HDR: usize = 55;

pub const LUMP_LEAF_AMBIENT_LIGHTING: usize = 56;

pub const LUMP_XZIPPAKFILE: usize = 57;

pub const LUMP_FACES_HDR: usize = 58;

pub const LUMP_MAP_FLAGS: usize = 59;

pub const LUMP_OVERLAY_FADES: usize = 60;

pub const LUMP_OVERLAY_SYSTEM_LEVELS: usize = 61;

pub const LUMP_PHYSLEVEL: usize = 62;

pub const LUMP_DISP_MULTIBLEND: usize = 63;

} // verus!
