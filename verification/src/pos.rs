//! Chunk and block coordinates.

use vstd::prelude::*;
use vstd::std_specs::convert::FromSpecImpl;

verus! {

/// Edge length of a chunk, in blocks.
pub const CHUNK_SIZE_16: usize = 16;

/// Grid cell of a chunk. One step along an axis is one whole chunk.
#[derive(Clone, Copy, Debug, PartialEq, Eq, Hash, Structural)]
pub struct ChunkPos {
    pub x: i32,
    pub y: i32,
    pub z: i32,
}

/// A point of the world lattice, in block units.
///
/// The coordinates are wider than those of a [`ChunkPos`], so the origin of
/// every chunk, and every block inside it, has a position.
#[derive(Clone, Copy, Debug, PartialEq, Eq, Hash, Structural)]
pub struct BlockPos {
    pub x: i64,
    pub y: i64,
    pub z: i64,
}

impl ChunkPos {
    /// World position of the chunk's block `(0, 0, 0)`.
    pub open spec fn origin(self) -> BlockPos {
        BlockPos {
            x: (self.x * CHUNK_SIZE_16) as i64,
            y: (self.y * CHUNK_SIZE_16) as i64,
            z: (self.z * CHUNK_SIZE_16) as i64,
        }
    }
}

impl BlockPos {
    /// The point `(dx, dy, dz)` away from `self`.
    pub open spec fn shifted(self, dx: int, dy: int, dz: int) -> BlockPos {
        BlockPos { x: (self.x + dx) as i64, y: (self.y + dy) as i64, z: (self.z + dz) as i64 }
    }

    /// The unit cube whose low corner is `self` lies inside the lattice.
    pub open spec fn has_unit_cube(self) -> bool {
        self.x < i64::MAX && self.y < i64::MAX && self.z < i64::MAX
    }
}

impl From<ChunkPos> for BlockPos {
    /// World position of the chunk's block `(0, 0, 0)`.
    fn from(chunk: ChunkPos) -> (origin: BlockPos) {
        BlockPos { x: chunk.x as i64 * 16, y: chunk.y as i64 * 16, z: chunk.z as i64 * 16 }
    }
}

impl FromSpecImpl<ChunkPos> for BlockPos {
    open spec fn obeys_from_spec() -> bool {
        true
    }

    open spec fn from_spec(chunk: ChunkPos) -> BlockPos {
        chunk.origin()
    }
}

} // verus!
