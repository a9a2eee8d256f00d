//! The block models of one chunk.

use vstd::prelude::*;
use crate::block_model::BlockModel;

verus! {

/// `(x, y, z)` names a cell of a chunk.
pub open spec fn in_chunk(x: int, y: int, z: int) -> bool {
    0 <= x < 16 && 0 <= y < 16 && 0 <= z < 16
}

/// A 16x16x16 grid of block models.
#[derive(Debug)]
pub struct ChunkModel {
    blocks: Vec<BlockModel>,
}

impl ChunkModel {
    #[verifier::type_invariant]
    spec fn full_grid(self) -> bool {
        self.blocks@.len() == 4096
    }

    /// The model in cell `(x, y, z)`.
    pub closed spec fn at(&self, x: int, y: int, z: int) -> BlockModel {
        self.blocks@[(y * 16 + x) * 16 + z]
    }

    /// No cell of the chunk holds a block.
    pub open spec fn is_empty_spec(&self) -> bool {
        forall|x: int, y: int, z: int| in_chunk(x, y, z) ==> #[trigger] self.at(x, y, z) is Empty
    }

    /// A chunk without blocks.
    pub fn new() -> (chunk: ChunkModel)
        ensures
            chunk.is_empty_spec(),
    {
        let mut blocks: Vec<BlockModel> = Vec::new();
        while blocks.len() < 4096
            invariant
                blocks@.len() <= 4096,
                forall|k: int| 0 <= k < blocks@.len() ==> blocks@[k] is Empty,
            decreases 4096 - blocks@.len(),
        {
            blocks.push(BlockModel::Empty);
        }
        ChunkModel { blocks }
    }

    /// Puts `model` in cell `(x, y, z)` and leaves every other cell as it is.
    pub fn set(&mut self, x: usize, y: usize, z: usize, model: BlockModel)
        requires
            x < 16,
            y < 16,
            z < 16,
        ensures
            final(self).at(x as int, y as int, z as int) == model,
            forall|a: int, b: int, c: int|
                in_chunk(a, b, c) && !(a == x && b == y && c == z) ==> #[trigger] final(self).at(
                    a,
                    b,
                    c,
                ) == old(self).at(a, b, c),
    {
        proof {
            use_type_invariant(&*self);
        }
        self.blocks[(y * 16 + x) * 16 + z] = model;
    }

    /// The model in cell `(x, y, z)`.
    pub fn get(&self, x: usize, y: usize, z: usize) -> (model: &BlockModel)
        requires
            x < 16,
            y < 16,
            z < 16,
        ensures
            *model == self.at(x as int, y as int, z as int),
    {
        proof {
            use_type_invariant(self);
        }
        &self.blocks[(y * 16 + x) * 16 + z]
    }

    /// Whether the chunk holds no block at all.
    pub fn is_empty(&self) -> (empty: bool)
        ensures
            empty == self.is_empty_spec(),
    {
        proof {
            use_type_invariant(self);
        }
        let mut k: usize = 0;
        while k < 4096
            invariant
                k <= 4096,
                self.blocks@.len() == 4096,
                forall|j: int| 0 <= j < k ==> self.blocks@[j] is Empty,
            decreases 4096 - k,
        {
            match self.blocks[k] {
                BlockModel::Empty => {},
                _ => {
                    proof {
                        let x: int = (k as int / 16) % 16;
                        let y: int = k as int / 256;
                        let z: int = k as int % 16;
                        assert((y * 16 + x) * 16 + z == k);
                        assert(in_chunk(x, y, z));
                        assert(!(self.at(x, y, z) is Empty));
                    }
                    return false;
                },
            }
            k += 1;
        }
        true
    }
}

impl Clone for ChunkModel {
    /// A chunk with the same model in every cell.
    fn clone(&self) -> (copy: ChunkModel)
        ensures
            forall|x: int, y: int, z: int|
                in_chunk(x, y, z) ==> #[trigger] copy.at(x, y, z) == self.at(x, y, z),
    {
        proof {
            use_type_invariant(self);
        }
        let mut blocks: Vec<BlockModel> = Vec::new();
        while blocks.len() < 4096
            invariant
                self.blocks@.len() == 4096,
                blocks@.len() <= 4096,
                forall|k: int| 0 <= k < blocks@.len() ==> blocks@[k] == self.blocks@[k],
            decreases 4096 - blocks@.len(),
        {
            blocks.push(self.blocks[blocks.len()]);
        }
        ChunkModel { blocks }
    }
}

} // verus!
