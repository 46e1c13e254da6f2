use vstd::prelude::*;
use std::collections::HashMap;
use crate::block::BlockType;
use crate::command::{Rotation, no_rotation};
use crate::biome::{Biome, BiomeManager, generate_snow, generate_surface_variants, snow_applied, surface_varied};
use crate::decoration::{DecorationGenerator, decorations_applied};
use crate::tree_generator::{TreeGenerator, trees_spawned};
use crate::terrain::{TerrainCell, TerrainSample};

verus! {

broadcast use vstd::std_specs::hash::group_hash_axioms;

/// The width and depth of a chunk, in blocks.
pub const CHUNK_SIZE: i32 = 16;
/// The height of a chunk, in blocks.
pub const CHUNK_HEIGHT: i32 = 160;
/// How many chunks around the camera are kept loaded in each direction.
pub const RENDER_DISTANCE: i32 = 16;
/// The number of cells in a chunk.
pub const CHUNK_VOLUME: usize = 40960;

/// The largest chunk coordinate whose blocks' world coordinates fit in `i32`.
pub const MAX_CHUNK_COORD: i32 = 134217727;
/// The smallest chunk coordinate whose blocks' world coordinates fit in `i32`.
pub const MIN_CHUNK_COORD: i32 = -134217728;

/// The position of a chunk on the chunk grid.
#[derive(Clone, Copy, PartialEq, Eq, Hash, Debug, Structural)]
pub struct ChunkPos {
    pub x: i32,
    pub z: i32,
}

/// Whether local coordinates name a cell of a chunk.
pub open spec fn in_chunk(x: int, y: int, z: int) -> bool {
    0 <= x < CHUNK_SIZE && 0 <= y < CHUNK_HEIGHT && 0 <= z < CHUNK_SIZE
}

/// Where the cell `(x, y, z)` is stored: x varies fastest, then z, then y.
pub open spec fn cell_index(x: int, y: int, z: int) -> int {
    x + z * CHUNK_SIZE + y * CHUNK_SIZE * CHUNK_SIZE
}

/// Whether the world coordinates of every block of the chunk at `pos` fit in `i32`.
pub open spec fn pos_in_world(pos: ChunkPos) -> bool {
    MIN_CHUNK_COORD <= pos.x <= MAX_CHUNK_COORD && MIN_CHUNK_COORD <= pos.z <= MAX_CHUNK_COORD
}

/// Whether the snow hashes of every block of the chunk at `pos`, `x * 2345 + z * 5432 +
/// y * 3456` and `x * 9876 + z * 5432` over world coordinates, and each step of computing
/// them, fit in `i32`.
pub open spec fn snow_hashes_fit(pos: ChunkPos) -> bool {
    let lx = pos.x * CHUNK_SIZE;
    let hx = lx + 15;
    let lz = pos.z * CHUNK_SIZE;
    let hz = lz + 15;
    &&& i32::MIN <= 9876 * lx && 9876 * hx <= i32::MAX
    &&& i32::MIN <= 5432 * lz && 5432 * hz <= i32::MAX
    &&& i32::MIN <= 2345 * lx + 5432 * lz && 2345 * hx + 5432 * hz + 3456 * 159 <= i32::MAX
    &&& i32::MIN <= 9876 * lx + 5432 * lz && 9876 * hx + 5432 * hz <= i32::MAX
}

impl ChunkPos {
    /// Whether the world generator can build the chunk at this position.
    pub fn in_world(&self) -> (r: bool)
        ensures
            r == pos_in_world(*self),
    {
        MIN_CHUNK_COORD <= self.x && self.x <= MAX_CHUNK_COORD && MIN_CHUNK_COORD <= self.z && self.z
            <= MAX_CHUNK_COORD
    }

    /// Whether snow can be laid on the chunk at this position without its hashes overflowing.
    pub fn snow_fits(&self) -> (r: bool)
        ensures
            r == (pos_in_world(*self) && snow_hashes_fit(*self)),
    {
        if !self.in_world() {
            return false;
        }
        let lx: i64 = self.x as i64 * 16;
        let hx: i64 = lx + 15;
        let lz: i64 = self.z as i64 * 16;
        let hz: i64 = lz + 15;
        let min: i64 = i32::MIN as i64;
        let max: i64 = i32::MAX as i64;
        min <= 9876 * lx && 9876 * hx <= max && min <= 5432 * lz && 5432 * hz <= max && min <= 2345 * lx + 5432
            * lz && 2345 * hx + 5432 * hz + 3456 * 159 <= max && min <= 9876 * lx + 5432 * lz && 9876 * hx + 5432
            * hz <= max
    }
}

/// Distinct cells are stored at distinct places inside the chunk's storage.
pub proof fn lemma_cell_index(x: int, y: int, z: int)
    requires
        in_chunk(x, y, z),
    ensures
        0 <= cell_index(x, y, z) < CHUNK_VOLUME,
        forall|a: int, b: int, c: int|
            in_chunk(a, b, c) && #[trigger] cell_index(a, b, c) == cell_index(x, y, z) ==> a == x
                && b == y && c == z,
{
}

/// A 16 x 160 x 16 column of blocks, with the rotation of each rotated block.
pub struct Chunk {
    pub blocks: Vec<BlockType>,
    pub rotations: HashMap<usize, Rotation>,
    pub pos: ChunkPos,
    /// Whether the chunk changed since its mesh was last built.
    pub needs_mesh: bool,
}

impl Chunk {
    /// The chunk's storage has one block per cell.
    pub open spec fn wf(&self) -> bool {
        &&& self.blocks@.len() == CHUNK_VOLUME
    }

    /// The block at local coordinates; outside the chunk every cell is air.
    pub open spec fn block_at(&self, x: int, y: int, z: int) -> BlockType {
        if in_chunk(x, y, z) {
            self.blocks@[cell_index(x, y, z)]
        } else {
            BlockType::Air
        }
    }

    /// The rotation at local coordinates; cells with none stored are unrotated.
    pub open spec fn rotation_at(&self, x: int, y: int, z: int) -> Rotation {
        if in_chunk(x, y, z) && self.rotations@.contains_key(cell_index(x, y, z) as usize) {
            self.rotations@[cell_index(x, y, z) as usize]
        } else {
            no_rotation()
        }
    }

    /// A chunk of air at `pos`.
    pub fn empty(pos: ChunkPos) -> (r: Chunk)
        ensures
            r.wf(),
            r.pos == pos,
            r.needs_mesh,
            r.rotations@ == Map::<usize, Rotation>::empty(),
            forall|x: int, y: int, z: int| #[trigger] r.block_at(x, y, z) == BlockType::Air,
            forall|x: int, y: int, z: int| #[trigger] r.rotation_at(x, y, z) == no_rotation(),
    {
        let blocks = vec![BlockType::Air; CHUNK_VOLUME];
        let r = Chunk { blocks, rotations: HashMap::new(), pos, needs_mesh: true };
        assert forall|x: int, y: int, z: int| #[trigger] r.block_at(x, y, z) == BlockType::Air by {
            if in_chunk(x, y, z) {
                lemma_cell_index(x, y, z);
            }
        }
        r
    }

    /// Where the cell `(x, y, z)` is stored.
    fn get_index(x: i32, y: i32, z: i32) -> (r: usize)
        requires
            in_chunk(x as int, y as int, z as int),
        ensures
            r == cell_index(x as int, y as int, z as int),
            r < CHUNK_VOLUME,
    {
        proof {
            lemma_cell_index(x as int, y as int, z as int);
        }
        (x + z * CHUNK_SIZE + y * CHUNK_SIZE * CHUNK_SIZE) as usize
    }

    /// The block at local coordinates, air outside the chunk.
    pub fn get_block(&self, x: i32, y: i32, z: i32) -> (r: BlockType)
        requires
            self.wf(),
        ensures
            r == self.block_at(x as int, y as int, z as int),
    {
        if x < 0 || x >= CHUNK_SIZE || y < 0 || y >= CHUNK_HEIGHT || z < 0 || z >= CHUNK_SIZE {
            return BlockType::Air;
        }
        self.blocks[Self::get_index(x, y, z)]
    }

    /// The rotation at local coordinates, none outside the chunk.
    pub fn get_rotation(&self, x: i32, y: i32, z: i32) -> (r: Rotation)
        requires
            self.wf(),
        ensures
            r == self.rotation_at(x as int, y as int, z as int),
    {
        if x < 0 || x >= CHUNK_SIZE || y < 0 || y >= CHUNK_HEIGHT || z < 0 || z >= CHUNK_SIZE {
            return Rotation::none();
        }
        match self.rotations.get(&Self::get_index(x, y, z)) {
            Some(r) => *r,
            None => Rotation::none(),
        }
    }

    /// Puts `block` at local coordinates with the given rotation; air and unrotated blocks keep
    /// no rotation. Coordinates outside the chunk are ignored.
    pub fn set_block(&mut self, x: i32, y: i32, z: i32, block: BlockType, rotation: Rotation)
        requires
            old(self).wf(),
        ensures
            final(self).wf(),
            final(self).pos == old(self).pos,
            forall|i: int, j: int, k: int| #[trigger] final(self).block_at(i, j, k) == if i == x && j == y && k == z
                && in_chunk(i, j, k) {
                block
            } else {
                old(self).block_at(i, j, k)
            },
            forall|i: int, j: int, k: int| #[trigger] final(self).rotation_at(i, j, k) == if i == x && j == y && k == z
                && in_chunk(i, j, k) {
                if block == BlockType::Air { no_rotation() } else { rotation }
            } else {
                old(self).rotation_at(i, j, k)
            },
            final(self).needs_mesh == (old(self).needs_mesh || in_chunk(x as int, y as int, z as int)),
    {
        if x < 0 || x >= CHUNK_SIZE || y < 0 || y >= CHUNK_HEIGHT || z < 0 || z >= CHUNK_SIZE {
            return;
        }
        let index = Self::get_index(x, y, z);
        self.blocks.set(index, block);
        if block == BlockType::Air {
            self.rotations.remove(&index);
        } else if rotation != Rotation::none() {
            self.rotations.insert(index, rotation);
        } else {
            self.rotations.remove(&index);
        }
        self.needs_mesh = true;
        proof {
            assert forall|i: int, j: int, k: int| #[trigger] self.block_at(i, j, k) == if i == x && j == y && k == z
                && in_chunk(i, j, k) {
                block
            } else {
                old(self).block_at(i, j, k)
            } by {
                if in_chunk(i, j, k) {
                    lemma_cell_index(i, j, k);
                }
            }
            assert forall|i: int, j: int, k: int| #[trigger] self.rotation_at(i, j, k) == if i == x && j == y && k == z
                && in_chunk(i, j, k) {
                if block == BlockType::Air { no_rotation() } else { rotation }
            } else {
                old(self).rotation_at(i, j, k)
            } by {
                if in_chunk(i, j, k) {
                    lemma_cell_index(i, j, k);
                    lemma_cell_index(x as int, y as int, z as int);
                }
            }
        }
    }
}


/// Whether a block counts as open space when looking for the ground of a column.
pub open spec fn is_open(b: BlockType) -> bool {
    b == BlockType::Air || b == BlockType::Water
}

/// The highest layer at or below `y` of the column `(x, z)` that holds neither air nor water,
/// or -1 when there is none.
pub open spec fn ground_from(chunk: Chunk, x: int, z: int, y: int) -> int
    decreases y + 1,
{
    if y < 0 {
        -1
    } else if !is_open(chunk.block_at(x, y, z)) {
        y
    } else {
        ground_from(chunk, x, z, y - 1)
    }
}

/// The ground layer of the column `(x, z)`: its highest block that is neither air nor water,
/// or -1 when the column holds none.
pub open spec fn ground(chunk: Chunk, x: int, z: int) -> int {
    ground_from(chunk, x, z, CHUNK_HEIGHT - 1)
}

/// Whether two chunks hold the same blocks in the column `(x, z)`.
pub open spec fn same_column(a: Chunk, b: Chunk, x: int, z: int) -> bool {
    forall|y: int| #[trigger] a.block_at(x, y, z) == b.block_at(x, y, z)
}

/// The ground of a column depends on that column alone.
pub proof fn lemma_ground_same(a: Chunk, b: Chunk, x: int, z: int, y: int)
    requires
        same_column(a, b, x, z),
    ensures
        ground_from(a, x, z, y) == ground_from(b, x, z, y),
    decreases y + 1,
{
    if y >= 0 {
        assert(a.block_at(x, y, z) == b.block_at(x, y, z));
        lemma_ground_same(a, b, x, z, y - 1);
    }
}

/// The ground of a column is a layer of the chunk, or -1.
pub proof fn lemma_ground_range(c: Chunk, x: int, z: int, y: int)
    requires
        -1 <= y < CHUNK_HEIGHT,
    ensures
        -1 <= ground_from(c, x, z, y) <= y,
    decreases y + 1,
{
    if y >= 0 {
        lemma_ground_range(c, x, z, y - 1);
    }
}

/// What the ground of a column tells about its blocks.
pub proof fn lemma_ground_bounds(c: Chunk, x: int, z: int, y: int)
    requires
        -1 <= y < CHUNK_HEIGHT,
    ensures
        -1 <= ground_from(c, x, z, y) <= y,
        ground_from(c, x, z, y) >= 0 ==> !is_open(c.block_at(x, ground_from(c, x, z, y), z)),
        forall|t: int| ground_from(c, x, z, y) < t <= y ==> is_open(#[trigger] c.block_at(x, t, z)),
    decreases y + 1,
{
    if y >= 0 {
        lemma_ground_bounds(c, x, z, y - 1);
    }
}

impl Chunk {
    /// The ground layer of the column `(x, z)`, or -1 when it holds only air and water.
    pub fn ground_level(&self, x: i32, z: i32) -> (r: i32)
        requires
            self.wf(),
        ensures
            r == ground(*self, x as int, z as int),
    {
        let mut y: i32 = CHUNK_HEIGHT - 1;
        while y >= 0
            invariant
                self.wf(),
                -1 <= y < CHUNK_HEIGHT,
                ground(*self, x as int, z as int) == ground_from(*self, x as int, z as int, y as int),
            decreases y + 1,
        {
            let b = self.get_block(x, y, z);
            if !(b == BlockType::Air || b == BlockType::Water) {
                return y;
            }
            y = y - 1;
        }
        -1
    }
}


/// The depth counter of the terrain scan of column `(x, z)` once it has passed layer `y` on
/// its way down: ground cells count up, water resets it, air leaves it.
pub open spec fn fill_depth(t: TerrainSample, x: int, z: int, y: int) -> int
    decreases CHUNK_HEIGHT - y,
{
    if y >= CHUNK_HEIGHT {
        0
    } else {
        let above = fill_depth(t, x, z, y + 1);
        match t.cell_at(x, y, z) {
            TerrainCell::Solid => above + 1,
            TerrainCell::Water => 0,
            TerrainCell::Empty => above,
        }
    }
}

/// The block the terrain puts at `(x, y, z)`: on ground cells, the biome's top block on the
/// first ground cell below open sky or water when it is at or above the water level, its
/// filler for the next cells down to its top and filler depths, and stone below; on water
/// cells, the biome's water; air elsewhere.
pub open spec fn filled_block(t: TerrainSample, biomes: Seq<Biome>, water_level: int, x: int, y: int, z: int) -> BlockType {
    if !in_chunk(x, y, z) {
        BlockType::Air
    } else {
        let b = biomes[t.biome_at(x, y, z)];
        match t.cell_at(x, y, z) {
            TerrainCell::Solid => {
                let d = fill_depth(t, x, z, y);
                if d == 1 && y >= water_level {
                    b.c_top
                } else if d <= b.depth_top + b.depth_filler {
                    b.c_filler
                } else {
                    b.c_stone
                }
            },
            TerrainCell::Water => b.c_water,
            TerrainCell::Empty => BlockType::Air,
        }
    }
}

impl Chunk {
    /// A chunk at `pos` holding the terrain of `terrain`, with no rotations.
    pub fn from_terrain(pos: ChunkPos, terrain: &TerrainSample, biomes: &BiomeManager, water_level: i32) -> (r: Chunk)
        requires
            terrain.wf(biomes.biomes().len() as int),
        ensures
            r.wf(),
            r.pos == pos,
            r.needs_mesh,
            forall|x: int, y: int, z: int| #[trigger] r.block_at(x, y, z) == filled_block(*terrain, biomes.biomes(), water_level as int, x, y, z),
            forall|x: int, y: int, z: int| #[trigger] r.rotation_at(x, y, z) == no_rotation(),
    {
        let mut chunk = Chunk::empty(pos);
        let ghost bs = biomes.biomes();
        for x in 0..CHUNK_SIZE
            invariant
                chunk.wf(),
                chunk.pos == pos,
                chunk.needs_mesh,
                chunk.rotations@ == Map::<usize, Rotation>::empty(),
                bs == biomes.biomes(),
                terrain.wf(bs.len() as int),
                forall|i: int, j: int, k: int| #[trigger] chunk.block_at(i, j, k) == if 0 <= i < x {
                    filled_block(*terrain, bs, water_level as int, i, j, k)
                } else {
                    BlockType::Air
                },
        {
            for z in 0..CHUNK_SIZE
                invariant
                    chunk.wf(),
                    chunk.pos == pos,
                    chunk.needs_mesh,
                    chunk.rotations@ == Map::<usize, Rotation>::empty(),
                    0 <= x < CHUNK_SIZE,
                    bs == biomes.biomes(),
                    terrain.wf(bs.len() as int),
                    forall|i: int, j: int, k: int| #[trigger] chunk.block_at(i, j, k) == if 0 <= i < x || (i == x && 0 <= k < z) {
                        filled_block(*terrain, bs, water_level as int, i, j, k)
                    } else {
                        BlockType::Air
                    },
            {
                let mut depth_count: i64 = 0;
                let mut y: i32 = CHUNK_HEIGHT - 1;
                while y >= 0
                    invariant
                        chunk.wf(),
                        chunk.pos == pos,
                        chunk.needs_mesh,
                        chunk.rotations@ == Map::<usize, Rotation>::empty(),
                        0 <= x < CHUNK_SIZE,
                        0 <= z < CHUNK_SIZE,
                        -1 <= y < CHUNK_HEIGHT,
                        bs == biomes.biomes(),
                        terrain.wf(bs.len() as int),
                        depth_count == fill_depth(*terrain, x as int, z as int, y + 1),
                        0 <= depth_count <= CHUNK_HEIGHT - 1 - y,
                        forall|i: int, j: int, k: int| #[trigger] chunk.block_at(i, j, k) == if 0 <= i < x || (i == x && 0 <= k < z) || (i == x && k == z && j > y) {
                            filled_block(*terrain, bs, water_level as int, i, j, k)
                        } else {
                            BlockType::Air
                        },
                    decreases y + 1,
                {
                    let idx = Self::get_index(x, y, z);
                    proof {
                        lemma_cell_index(x as int, y as int, z as int);
                    }
                    let biome = biomes.get(terrain.biomes[idx]);
                    let ghost before = chunk;
                    match terrain.cells[idx] {
                        TerrainCell::Solid => {
                            depth_count = depth_count + 1;
                            let b = if depth_count == 1 && y >= water_level {
                                biome.c_top
                            } else if depth_count <= biome.depth_top as i64 + biome.depth_filler as i64 {
                                biome.c_filler
                            } else {
                                biome.c_stone
                            };
                            chunk.blocks.set(idx, b);
                        },
                        TerrainCell::Water => {
                            chunk.blocks.set(idx, biome.c_water);
                            depth_count = 0;
                        },
                        TerrainCell::Empty => {},
                    }
                    proof {
                        assert(depth_count == fill_depth(*terrain, x as int, z as int, y as int));
                        assert(chunk.block_at(x as int, y as int, z as int) == filled_block(*terrain, bs, water_level as int, x as int, y as int, z as int));
                        assert forall|i: int, j: int, k: int| #[trigger] chunk.block_at(i, j, k) == if 0 <= i < x || (i == x && 0 <= k < z) || (i == x && k == z && j > y - 1) {
                            filled_block(*terrain, bs, water_level as int, i, j, k)
                        } else {
                            BlockType::Air
                        } by {
                            if in_chunk(i, j, k) {
                                lemma_cell_index(i, j, k);
                                if !(i == x && j == y && k == z) {
                                    assert(cell_index(i, j, k) != cell_index(x as int, y as int, z as int));
                                    assert(chunk.blocks@[cell_index(i, j, k)] == before.blocks@[cell_index(i, j, k)]);
                                    assert(chunk.block_at(i, j, k) == before.block_at(i, j, k));
                                }
                            } else {
                                assert(chunk.block_at(i, j, k) == BlockType::Air);
                                assert(filled_block(*terrain, bs, water_level as int, i, j, k) == BlockType::Air);
                            }
                        }
                    }
                    y = y - 1;
                }
            }
        }
        proof {
            assert forall|x: int, y: int, z: int| #[trigger] chunk.rotation_at(x, y, z) == no_rotation() by {}
        }
        chunk
    }
}


/// The highest layer at or below `y` of the column `(x, z)` that is not air, or -1.
pub open spec fn surface_from(chunk: Chunk, x: int, z: int, y: int) -> int
    decreases y + 1,
{
    if y < 0 {
        -1
    } else if chunk.block_at(x, y, z) != BlockType::Air {
        y
    } else {
        surface_from(chunk, x, z, y - 1)
    }
}

/// The surface layer of the column `(x, z)`: its highest block that is not air, or -1.
pub open spec fn surface(chunk: Chunk, x: int, z: int) -> int {
    surface_from(chunk, x, z, CHUNK_HEIGHT - 1)
}

proof fn lemma_surface_bounds(c: Chunk, x: int, z: int, y: int)
    requires
        -1 <= y < CHUNK_HEIGHT,
    ensures
        -1 <= surface_from(c, x, z, y) <= y,
    decreases y + 1,
{
    if y >= 0 {
        lemma_surface_bounds(c, x, z, y - 1);
    }
}

impl Chunk {
    /// The surface layer of the column `(x, z)`, or -1 when it holds only air.
    pub fn surface_level(&self, x: i32, z: i32) -> (r: i32)
        requires
            self.wf(),
        ensures
            r == surface(*self, x as int, z as int),
            -1 <= r < CHUNK_HEIGHT,
    {
        proof {
            lemma_surface_bounds(*self, x as int, z as int, CHUNK_HEIGHT - 1);
        }
        let mut y: i32 = CHUNK_HEIGHT - 1;
        while y >= 0
            invariant
                self.wf(),
                -1 <= y < CHUNK_HEIGHT,
                surface(*self, x as int, z as int) == surface_from(*self, x as int, z as int, y as int),
            decreases y + 1,
        {
            if self.get_block(x, y, z) != BlockType::Air {
                return y;
            }
            y = y - 1;
        }
        -1
    }
}


/// Whether `c` is the chunk at `pos` holding the terrain of `terrain` and nothing else.
pub open spec fn terrain_filled(c: Chunk, pos: ChunkPos, terrain: TerrainSample, biomes: Seq<Biome>, water_level: int) -> bool {
    &&& c.wf()
    &&& c.pos == pos
    &&& c.needs_mesh
    &&& forall|x: int, y: int, z: int| #[trigger] c.block_at(x, y, z) == filled_block(terrain, biomes, water_level, x, y, z)
    &&& forall|x: int, y: int, z: int| #[trigger] c.rotation_at(x, y, z) == no_rotation()
}

/// Whether `filled`, `varied`, `treed`, `snowed` and `done` are the stages of generating the
/// chunk at `pos`: the terrain, the surface variant patches, the trees (taking the known tree
/// columns from `known_before` to `known_after`), the snow, and the plants of the biome at the
/// chunk's first column on layer 32.
pub open spec fn generation_stages(
    pos: ChunkPos,
    terrain: TerrainSample,
    biomes: Seq<Biome>,
    water_level: int,
    known_before: Set<(i32, i32)>,
    known_after: Set<(i32, i32)>,
    filled: Chunk,
    varied: Chunk,
    treed: Chunk,
    snowed: Chunk,
    done: Chunk,
) -> bool {
    &&& terrain_filled(filled, pos, terrain, biomes, water_level)
    &&& surface_varied(filled, varied, terrain, biomes)
    &&& trees_spawned(varied, treed, known_before, known_after, terrain, biomes, water_level)
    &&& snow_applied(treed, snowed, SNOW_START_ALTITUDE as int, SNOW_FULL_ALTITUDE as int)
    &&& decorations_applied(snowed, done, biomes[terrain.biome_at(0, 32, 0)].name@)
}

/// The altitude from which snow may lie on the ground.
pub const SNOW_START_ALTITUDE: i32 = 80;
/// The altitude from which snow always lies on the ground.
pub const SNOW_FULL_ALTITUDE: i32 = 95;

impl Chunk {
    /// Generates the chunk at `pos`: the terrain of `terrain`, then the surface variant
    /// patches, the trees, the snow and the plants, in that order. The plants are those of the
    /// biome at the chunk's first column on layer 32.
    pub fn new(
        pos: ChunkPos,
        terrain: &TerrainSample,
        biomes: &BiomeManager,
        water_level: i32,
        tree_generator: &mut TreeGenerator,
    ) -> (r: Chunk)
        requires
            pos_in_world(pos),
            snow_hashes_fit(pos),
            terrain.wf(biomes.biomes().len() as int),
            crate::tree_generator::trees_within_reach(old(tree_generator).positions(), pos),
        ensures
            r.wf(),
            r.pos == pos,
            exists|filled: Chunk, varied: Chunk, treed: Chunk, snowed: Chunk|
                #[trigger] generation_stages(pos, *terrain, biomes.biomes(), water_level as int, old(tree_generator).positions(),
                    final(tree_generator).positions(), filled, varied, treed, snowed, r),
    {
        let mut chunk = Chunk::from_terrain(pos, terrain, biomes, water_level);
        let ghost filled = chunk;
        proof {
            lemma_cell_index(0, 32, 0);
        }
        let test_biome = biomes.get(terrain.biomes[Self::get_index(0, 32, 0)]);
        generate_surface_variants(&mut chunk, terrain, biomes);
        let ghost varied = chunk;
        tree_generator.spawn_trees_for_chunk(&mut chunk, terrain, biomes, water_level);
        let ghost treed = chunk;
        generate_snow(&mut chunk, SNOW_START_ALTITUDE, SNOW_FULL_ALTITUDE, test_biome.name.as_str());
        let ghost snowed = chunk;
        DecorationGenerator::generate_decorations(&mut chunk, test_biome.name.as_str());
        proof {
            assert(generation_stages(pos, *terrain, biomes.biomes(), water_level as int, old(tree_generator).positions(),
                tree_generator.positions(), filled, varied, treed, snowed, chunk));
        }
        chunk
    }
}

}
