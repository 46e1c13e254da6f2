use vstd::prelude::*;
use crate::chunk::{CHUNK_VOLUME, cell_index};

verus! {

/// What the terrain generator puts in a cell before anything grows there.
#[derive(Clone, Copy, PartialEq, Eq, Debug, Structural)]
pub enum TerrainCell {
    Solid,
    Water,
    Empty,
}

/// The terrain generator's answer for every cell of one chunk: whether the cell is ground,
/// water or air, and which registered biome it lies in. Both lists are indexed like a chunk's
/// blocks.
pub struct TerrainSample {
    pub cells: Vec<TerrainCell>,
    pub biomes: Vec<usize>,
}

impl TerrainSample {
    /// Both lists cover the chunk, and every biome index names one of `biome_count` biomes.
    pub open spec fn wf(&self, biome_count: int) -> bool {
        &&& self.cells@.len() == CHUNK_VOLUME
        &&& self.biomes@.len() == CHUNK_VOLUME
        &&& forall|i: int| 0 <= i < CHUNK_VOLUME ==> #[trigger] self.biomes@[i] < biome_count
    }

    /// What the terrain holds at local coordinates.
    pub open spec fn cell_at(&self, x: int, y: int, z: int) -> TerrainCell {
        self.cells@[cell_index(x, y, z)]
    }

    /// The index of the biome at local coordinates.
    pub open spec fn biome_at(&self, x: int, y: int, z: int) -> int {
        self.biomes@[cell_index(x, y, z)] as int
    }
}

}
