//! Turns voxel chunks into per-texture triangle meshes.
//!
//! Every block of a 16x16x16 chunk names the cube faces it shows and the
//! texture they carry. The builder walks the chunks in order, emits one unit
//! quad per shown face, and groups the quads by texture. Geometry is kept on
//! the integer lattice: a vertex is a lattice point plus the texture corner
//! it samples, so every position in a mesh is exact.

pub mod block_model;
pub mod builder;
pub mod chunk_model;
pub mod face;
pub mod group;
pub mod mesh;
pub mod pos;
pub mod texture;

pub use block_model::BlockModel;
pub use builder::{build_chunk_meshes, process_block_model};
pub use chunk_model::ChunkModel;
pub use face::{Face, Quad, Vertex};
pub use mesh::{Mesh, Meshes};
pub use pos::{BlockPos, ChunkPos, CHUNK_SIZE_16};
pub use texture::{Uv, UvCorner, UvTexture};
