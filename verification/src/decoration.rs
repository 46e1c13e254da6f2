use vstd::prelude::*;
use crate::block::BlockType;
use crate::chunk::{CHUNK_HEIGHT, CHUNK_SIZE, Chunk, ground, lemma_ground_bounds, lemma_ground_same, same_column};
use crate::command::{Rotation, no_rotation};
use crate::lexing::{chars_equal, str_chars};
use crate::rng::{SeededRng, column_seed, plant_selector};

verus! {

/// How often a kind of plant grows, relative to the biome's base rate.
#[derive(Debug, Clone, Copy, PartialEq, Eq, Structural)]
pub enum FrequencyTier {
    Frequent,
    Moderate,
    Rare,
}

/// The noise a plant must exceed to grow, in ten-thousandths: the base for frequent plants,
/// halfway from the base to certainty for moderate ones, three quarters of the way for rare
/// ones.
pub open spec fn frequency_threshold(base: int, tier: FrequencyTier) -> int {
    match tier {
        FrequencyTier::Frequent => base,
        FrequencyTier::Moderate => base + (10000 - base) / 2,
        FrequencyTier::Rare => base + (10000 - base) * 3 / 4,
    }
}

/// Whether the noise drawn from `seed`, in thousandths, exceeds `threshold`, in ten-thousandths.
pub open spec fn noise_exceeds(seed: u32, threshold: int) -> bool {
    (seed % 1000) * 10 > threshold
}

/// The plant (and the plant above it) a grassland grows from `seed`.
pub open spec fn grassland_plants(seed: u32) -> (Option<BlockType>, Option<BlockType>) {
    let p = plant_selector(seed);
    if p < 25 {
        if noise_exceeds(seed, frequency_threshold(9600, FrequencyTier::Frequent)) {
            (Some(BlockType::ShortGrass), None)
        } else {
            (None, None)
        }
    } else if p < 45 {
        if noise_exceeds(seed, frequency_threshold(9600, FrequencyTier::Moderate)) {
            (Some(BlockType::TallGrassBottom), Some(BlockType::TallGrassTop))
        } else {
            (None, None)
        }
    } else if p < 65 {
        if noise_exceeds(seed, frequency_threshold(9600, FrequencyTier::Moderate)) {
            (Some(BlockType::Poppy), None)
        } else {
            (None, None)
        }
    } else if p < 80 {
        if noise_exceeds(seed, frequency_threshold(9600, FrequencyTier::Moderate)) {
            (Some(BlockType::PinkTulip), None)
        } else {
            (None, None)
        }
    } else {
        if noise_exceeds(seed, frequency_threshold(9600, FrequencyTier::Rare)) {
            (Some(BlockType::TorchFlower), None)
        } else {
            (None, None)
        }
    }
}

/// The plants an oak or birch forest grows from `seed`.
pub open spec fn forest_plants(seed: u32) -> (Option<BlockType>, Option<BlockType>) {
    let p = plant_selector(seed);
    if p < 30 {
        if noise_exceeds(seed, frequency_threshold(9300, FrequencyTier::Frequent)) {
            (Some(BlockType::ShortGrass), None)
        } else {
            (None, None)
        }
    } else if p < 50 {
        if noise_exceeds(seed, frequency_threshold(9300, FrequencyTier::Moderate)) {
            (Some(BlockType::TallGrassBottom), Some(BlockType::TallGrassTop))
        } else {
            (None, None)
        }
    } else if p < 70 {
        if noise_exceeds(seed, frequency_threshold(9300, FrequencyTier::Moderate)) {
            (Some(BlockType::Poppy), None)
        } else {
            (None, None)
        }
    } else {
        if noise_exceeds(seed, frequency_threshold(9300, FrequencyTier::Moderate)) {
            (Some(BlockType::PinkTulip), None)
        } else {
            (None, None)
        }
    }
}

/// The plants a taiga grows on grass from `seed`.
pub open spec fn taiga_plants(seed: u32) -> (Option<BlockType>, Option<BlockType>) {
    let p = plant_selector(seed);
    if p < 30 {
        if noise_exceeds(seed, frequency_threshold(9400, FrequencyTier::Frequent)) {
            (Some(BlockType::ShortGrass), None)
        } else {
            (None, None)
        }
    } else if p < 50 {
        if noise_exceeds(seed, frequency_threshold(9400, FrequencyTier::Moderate)) {
            (Some(BlockType::Fern), None)
        } else {
            (None, None)
        }
    } else if p < 70 {
        if noise_exceeds(seed, frequency_threshold(9400, FrequencyTier::Moderate)) {
            (Some(BlockType::LargeFernBottom), Some(BlockType::LargeFernTop))
        } else {
            (None, None)
        }
    } else {
        if noise_exceeds(seed, frequency_threshold(9400, FrequencyTier::Rare)) {
            (Some(BlockType::SweetBerryBushStage1), None)
        } else {
            (None, None)
        }
    }
}

/// The plants a taiga grows on podzol from `seed`.
pub open spec fn podzol_plants(seed: u32) -> (Option<BlockType>, Option<BlockType>) {
    if noise_exceeds(seed, 9200) {
        (Some(BlockType::BrownMushroom), None)
    } else {
        (None, None)
    }
}

/// The plants a desert grows from `seed`.
pub open spec fn desert_plants(seed: u32) -> (Option<BlockType>, Option<BlockType>) {
    let p = plant_selector(seed);
    if p < 35 {
        if noise_exceeds(seed, frequency_threshold(9900, FrequencyTier::Frequent)) {
            (Some(BlockType::ShortDryGrass), None)
        } else {
            (None, None)
        }
    } else if p < 65 {
        if noise_exceeds(seed, frequency_threshold(9900, FrequencyTier::Moderate)) {
            (Some(BlockType::TallDryGrass), None)
        } else {
            (None, None)
        }
    } else {
        if noise_exceeds(seed, frequency_threshold(9900, FrequencyTier::Rare)) {
            (Some(BlockType::DeadBush), None)
        } else {
            (None, None)
        }
    }
}

/// The plants the biome named `biome` grows on `ground` from `seed`.
pub open spec fn decoration_plants(biome: Seq<char>, ground: BlockType, seed: u32) -> (Option<BlockType>, Option<BlockType>) {
    if biome == "grassland"@ && ground == BlockType::GrassBlock {
        grassland_plants(seed)
    } else if (biome == "oak_forest"@ || biome == "birch_forest"@) && ground == BlockType::GrassBlock {
        forest_plants(seed)
    } else if biome == "taiga"@ && ground == BlockType::GrassBlock {
        taiga_plants(seed)
    } else if biome == "taiga"@ && ground == BlockType::Podzol {
        podzol_plants(seed)
    } else if biome == "desert"@ && ground == BlockType::Sand {
        desert_plants(seed)
    } else {
        (None, None)
    }
}

/// The plants that grow on the column `(x, z)` of `chunk`: those of its ground block, when the
/// cell above the ground is air.
pub open spec fn column_plants(chunk: Chunk, biome: Seq<char>, x: int, z: int) -> (Option<BlockType>, Option<BlockType>) {
    let g = ground(chunk, x, z);
    if 0 <= x < CHUNK_SIZE && 0 <= z < CHUNK_SIZE && g >= 0 && g + 1 < CHUNK_HEIGHT && chunk.block_at(x, g + 1, z) == BlockType::Air {
        decoration_plants(
            biome,
            chunk.block_at(x, g, z),
            column_seed(chunk.pos.x * CHUNK_SIZE + x, chunk.pos.z * CHUNK_SIZE + z),
        )
    } else {
        (None, None)
    }
}

/// Whether decorating writes the cell `(i, j, k)`.
pub open spec fn decoration_writes(chunk: Chunk, biome: Seq<char>, i: int, j: int, k: int) -> bool {
    let (lower, upper) = column_plants(chunk, biome, i, k);
    let g = ground(chunk, i, k);
    ||| j == g + 1 && lower is Some
    ||| j == g + 2 && upper is Some && g + 2 < CHUNK_HEIGHT
}

/// The block at `(i, j, k)` after decorating.
pub open spec fn decorated_block(chunk: Chunk, biome: Seq<char>, i: int, j: int, k: int) -> BlockType {
    let (lower, upper) = column_plants(chunk, biome, i, k);
    let g = ground(chunk, i, k);
    if j == g + 1 && lower is Some {
        lower->0
    } else if j == g + 2 && upper is Some && g + 2 < CHUNK_HEIGHT {
        upper->0
    } else {
        chunk.block_at(i, j, k)
    }
}

/// Whether `after` is `before` with the plants of the biome named `biome` grown on it.
pub open spec fn decorations_applied(before: Chunk, after: Chunk, biome: Seq<char>) -> bool {
    &&& after.wf()
    &&& after.pos == before.pos
    &&& forall|i: int, j: int, k: int| #[trigger] after.block_at(i, j, k) == decorated_block(before, biome, i, j, k)
    &&& forall|i: int, j: int, k: int| #[trigger] after.rotation_at(i, j, k) == if decoration_writes(before, biome, i, j, k) {
        no_rotation()
    } else {
        before.rotation_at(i, j, k)
    }
    &&& after.needs_mesh == (before.needs_mesh || exists|i: int, j: int, k: int| #[trigger] decoration_writes(before, biome, i, j, k))
}

/// Decorating a column depends only on that column and the chunk's position.
proof fn lemma_decoration_same(a: Chunk, b: Chunk, biome: Seq<char>, x: int, z: int)
    requires
        same_column(a, b, x, z),
        a.pos == b.pos,
    ensures
        column_plants(a, biome, x, z) == column_plants(b, biome, x, z),
        ground(a, x, z) == ground(b, x, z),
        forall|j: int| #[trigger] decorated_block(a, biome, x, j, z) == decorated_block(b, biome, x, j, z),
        forall|j: int| #[trigger] decoration_writes(a, biome, x, j, z) == decoration_writes(b, biome, x, j, z),
{
    lemma_ground_same(a, b, x, z, CHUNK_HEIGHT - 1);
    let g = ground(a, x, z);
    assert(a.block_at(x, g, z) == b.block_at(x, g, z));
    assert(a.block_at(x, g + 1, z) == b.block_at(x, g + 1, z));
    assert forall|j: int| #[trigger] decorated_block(a, biome, x, j, z) == decorated_block(b, biome, x, j, z) by {
        assert(a.block_at(x, j, z) == b.block_at(x, j, z));
    }
}

/// Whether the characters `name` spell `lit`.
fn named(name: &Vec<char>, lit: &str) -> (r: bool)
    ensures
        r == (name@ == lit@),
{
    chars_equal(name, &str_chars(lit))
}

/// Grows the plants of the world generator on the ground of each column.
pub struct DecorationGenerator;

impl DecorationGenerator {
    /// The noise a plant of `tier` must exceed, in ten-thousandths, for a biome whose base
    /// threshold is `base_threshold`.
    pub fn get_frequency_threshold(base_threshold: u32, tier: FrequencyTier) -> (r: u32)
        requires
            base_threshold <= 10000,
        ensures
            r == frequency_threshold(base_threshold as int, tier),
    {
        match tier {
            FrequencyTier::Frequent => base_threshold,
            FrequencyTier::Moderate => base_threshold + (10000 - base_threshold) / 2,
            FrequencyTier::Rare => base_threshold + (10000 - base_threshold) * 3 / 4,
        }
    }

    /// Whether the noise of `rng` exceeds `threshold`.
    fn passes(rng: &SeededRng, threshold: u32) -> (r: bool)
        requires
            threshold <= 10000,
        ensures
            r == noise_exceeds(rng.seed, threshold as int),
    {
        (rng.seed % 1000) * 10 > threshold
    }

    fn grassland_decoration(rng: &SeededRng) -> (r: (Option<BlockType>, Option<BlockType>))
        ensures
            r == grassland_plants(rng.seed),
    {
        let p = rng.plant_type_seed();
        if p < 25 {
            if Self::passes(rng, Self::get_frequency_threshold(9600, FrequencyTier::Frequent)) {
                return (Some(BlockType::ShortGrass), None);
            }
        } else if p < 45 {
            if Self::passes(rng, Self::get_frequency_threshold(9600, FrequencyTier::Moderate)) {
                return (Some(BlockType::TallGrassBottom), Some(BlockType::TallGrassTop));
            }
        } else if p < 65 {
            if Self::passes(rng, Self::get_frequency_threshold(9600, FrequencyTier::Moderate)) {
                return (Some(BlockType::Poppy), None);
            }
        } else if p < 80 {
            if Self::passes(rng, Self::get_frequency_threshold(9600, FrequencyTier::Moderate)) {
                return (Some(BlockType::PinkTulip), None);
            }
        } else {
            if Self::passes(rng, Self::get_frequency_threshold(9600, FrequencyTier::Rare)) {
                return (Some(BlockType::TorchFlower), None);
            }
        }
        (None, None)
    }

    fn forest_decoration(rng: &SeededRng) -> (r: (Option<BlockType>, Option<BlockType>))
        ensures
            r == forest_plants(rng.seed),
    {
        let p = rng.plant_type_seed();
        if p < 30 {
            if Self::passes(rng, Self::get_frequency_threshold(9300, FrequencyTier::Frequent)) {
                return (Some(BlockType::ShortGrass), None);
            }
        } else if p < 50 {
            if Self::passes(rng, Self::get_frequency_threshold(9300, FrequencyTier::Moderate)) {
                return (Some(BlockType::TallGrassBottom), Some(BlockType::TallGrassTop));
            }
        } else if p < 70 {
            if Self::passes(rng, Self::get_frequency_threshold(9300, FrequencyTier::Moderate)) {
                return (Some(BlockType::Poppy), None);
            }
        } else {
            if Self::passes(rng, Self::get_frequency_threshold(9300, FrequencyTier::Moderate)) {
                return (Some(BlockType::PinkTulip), None);
            }
        }
        (None, None)
    }

    fn taiga_decoration(rng: &SeededRng) -> (r: (Option<BlockType>, Option<BlockType>))
        ensures
            r == taiga_plants(rng.seed),
    {
        let p = rng.plant_type_seed();
        if p < 30 {
            if Self::passes(rng, Self::get_frequency_threshold(9400, FrequencyTier::Frequent)) {
                return (Some(BlockType::ShortGrass), None);
            }
        } else if p < 50 {
            if Self::passes(rng, Self::get_frequency_threshold(9400, FrequencyTier::Moderate)) {
                return (Some(BlockType::Fern), None);
            }
        } else if p < 70 {
            if Self::passes(rng, Self::get_frequency_threshold(9400, FrequencyTier::Moderate)) {
                return (Some(BlockType::LargeFernBottom), Some(BlockType::LargeFernTop));
            }
        } else {
            if Self::passes(rng, Self::get_frequency_threshold(9400, FrequencyTier::Rare)) {
                return (Some(BlockType::SweetBerryBushStage1), None);
            }
        }
        (None, None)
    }

    fn podzol_decoration(rng: &SeededRng) -> (r: (Option<BlockType>, Option<BlockType>))
        ensures
            r == podzol_plants(rng.seed),
    {
        if Self::passes(rng, 9200) {
            (Some(BlockType::BrownMushroom), None)
        } else {
            (None, None)
        }
    }

    fn desert_decoration(rng: &SeededRng) -> (r: (Option<BlockType>, Option<BlockType>))
        ensures
            r == desert_plants(rng.seed),
    {
        let p = rng.plant_type_seed();
        if p < 35 {
            if Self::passes(rng, Self::get_frequency_threshold(9900, FrequencyTier::Frequent)) {
                return (Some(BlockType::ShortDryGrass), None);
            }
        } else if p < 65 {
            if Self::passes(rng, Self::get_frequency_threshold(9900, FrequencyTier::Moderate)) {
                return (Some(BlockType::TallDryGrass), None);
            }
        } else {
            if Self::passes(rng, Self::get_frequency_threshold(9900, FrequencyTier::Rare)) {
                return (Some(BlockType::DeadBush), None);
            }
        }
        (None, None)
    }

    /// The plants the biome named `biome` grows on `ground` in the world column `(world_x, world_z)`.
    fn plants_for(biome: &Vec<char>, ground_block: BlockType, world_x: i32, world_z: i32) -> (r: (Option<BlockType>, Option<BlockType>))
        ensures
            r == decoration_plants(biome@, ground_block, column_seed(world_x as int, world_z as int)),
    {
        let rng = SeededRng::new(world_x, world_z);
        if named(biome, "grassland") && ground_block == BlockType::GrassBlock {
            Self::grassland_decoration(&rng)
        } else if (named(biome, "oak_forest") || named(biome, "birch_forest")) && ground_block == BlockType::GrassBlock {
            Self::forest_decoration(&rng)
        } else if named(biome, "taiga") && ground_block == BlockType::GrassBlock {
            Self::taiga_decoration(&rng)
        } else if named(biome, "taiga") && ground_block == BlockType::Podzol {
            Self::podzol_decoration(&rng)
        } else if named(biome, "desert") && ground_block == BlockType::Sand {
            Self::desert_decoration(&rng)
        } else {
            (None, None)
        }
    }

    /// Grows the plants of the column `(x, z)`.
    fn decorate_column(chunk: &mut Chunk, x: i32, z: i32, biome: &Vec<char>)
        requires
            old(chunk).wf(),
            crate::chunk::pos_in_world(old(chunk).pos),
            0 <= x < CHUNK_SIZE,
            0 <= z < CHUNK_SIZE,
        ensures
            final(chunk).wf(),
            final(chunk).pos == old(chunk).pos,
            forall|i: int, j: int, k: int| #[trigger] final(chunk).block_at(i, j, k) == if i == x && k == z {
                decorated_block(*old(chunk), biome@, i, j, k)
            } else {
                old(chunk).block_at(i, j, k)
            },
            forall|i: int, j: int, k: int| #[trigger] final(chunk).rotation_at(i, j, k) == if i == x && k == z
                && decoration_writes(*old(chunk), biome@, i, j, k) {
                no_rotation()
            } else {
                old(chunk).rotation_at(i, j, k)
            },
            final(chunk).needs_mesh == (old(chunk).needs_mesh || exists|j: int| #[trigger] decoration_writes(*old(chunk), biome@, x as int, j, z as int)),
    {
        let ghost start = *chunk;
        let g = chunk.ground_level(x, z);
        proof {
            lemma_ground_bounds(start, x as int, z as int, CHUNK_HEIGHT - 1);
        }
        if g < 0 || g + 1 >= CHUNK_HEIGHT || chunk.get_block(x, g + 1, z) != BlockType::Air {
            assert(column_plants(start, biome@, x as int, z as int) == (None::<BlockType>, None::<BlockType>));
            assert forall|j: int| !#[trigger] decoration_writes(start, biome@, x as int, j, z as int) by {}
            return;
        }
        let world_x = chunk.pos.x * CHUNK_SIZE + x;
        let world_z = chunk.pos.z * CHUNK_SIZE + z;
        let (lower, upper) = Self::plants_for(biome, chunk.get_block(x, g, z), world_x, world_z);
        let surface_y = g + 1;
        match lower {
            Some(b) => {
                chunk.set_block(x, surface_y, z, b, Rotation::none());
                proof {
                    assert(decoration_writes(start, biome@, x as int, surface_y as int, z as int));
                }
            },
            None => {},
        }
        let ghost mid = *chunk;
        match upper {
            Some(b) => {
                if surface_y + 1 < CHUNK_HEIGHT {
                    chunk.set_block(x, surface_y + 1, z, b, Rotation::none());
                    proof {
                        assert(decoration_writes(start, biome@, x as int, surface_y + 1, z as int));
                    }
                }
            },
            None => {},
        }
        proof {
            if chunk.needs_mesh && !start.needs_mesh {
                if lower is Some {
                    assert(decoration_writes(start, biome@, x as int, surface_y as int, z as int));
                } else {
                    assert(decoration_writes(start, biome@, x as int, surface_y + 1, z as int));
                }
            }
        }
    }

    /// Grows plants on the ground of every column of `chunk`, as the biome named `biome_name`
    /// does.
    pub fn generate_decorations(chunk: &mut Chunk, biome_name: &str)
        requires
            old(chunk).wf(),
            crate::chunk::pos_in_world(old(chunk).pos),
        ensures
            decorations_applied(*old(chunk), *final(chunk), biome_name@),
    {
        let biome = str_chars(biome_name);
        let ghost start = *chunk;
        for x in 0..CHUNK_SIZE
            invariant
                chunk.wf(),
                chunk.pos == start.pos,
                crate::chunk::pos_in_world(start.pos),
                biome@ == biome_name@,
                forall|i: int, j: int, k: int| #[trigger] chunk.block_at(i, j, k) == if 0 <= i < x && 0 <= k < CHUNK_SIZE {
                    decorated_block(start, biome@, i, j, k)
                } else {
                    start.block_at(i, j, k)
                },
                forall|i: int, j: int, k: int| #[trigger] chunk.rotation_at(i, j, k) == if 0 <= i < x && 0 <= k < CHUNK_SIZE
                    && decoration_writes(start, biome@, i, j, k) {
                    no_rotation()
                } else {
                    start.rotation_at(i, j, k)
                },
                chunk.needs_mesh == (start.needs_mesh || exists|i: int, j: int, k: int|
                    0 <= i < x && 0 <= k < CHUNK_SIZE && #[trigger] decoration_writes(start, biome@, i, j, k)),
        {
            for z in 0..CHUNK_SIZE
                invariant
                    chunk.wf(),
                    chunk.pos == start.pos,
                    crate::chunk::pos_in_world(start.pos),
                    0 <= x < CHUNK_SIZE,
                    forall|i: int, j: int, k: int| #[trigger] chunk.block_at(i, j, k) == if (0 <= i < x && 0 <= k < CHUNK_SIZE) || (i == x && 0 <= k < z) {
                        decorated_block(start, biome@, i, j, k)
                    } else {
                        start.block_at(i, j, k)
                    },
                    forall|i: int, j: int, k: int| #[trigger] chunk.rotation_at(i, j, k) == if ((0 <= i < x && 0 <= k < CHUNK_SIZE) || (i == x && 0 <= k < z))
                        && decoration_writes(start, biome@, i, j, k) {
                        no_rotation()
                    } else {
                        start.rotation_at(i, j, k)
                    },
                    chunk.needs_mesh == (start.needs_mesh || exists|i: int, j: int, k: int|
                        ((0 <= i < x && 0 <= k < CHUNK_SIZE) || (i == x && 0 <= k < z)) && #[trigger] decoration_writes(start, biome@, i, j, k)),
            {
                let ghost before = *chunk;
                proof {
                    assert(same_column(before, start, x as int, z as int));
                    lemma_decoration_same(before, start, biome@, x as int, z as int);
                }
                Self::decorate_column(chunk, x, z, &biome);
                proof {
                    let ghost after = *chunk;
                    if after.needs_mesh != (start.needs_mesh || exists|i: int, j: int, k: int|
                        ((0 <= i < x && 0 <= k < CHUNK_SIZE) || (i == x && 0 <= k < z + 1)) && #[trigger] decoration_writes(start, biome@, i, j, k)) {
                        if after.needs_mesh {
                            if before.needs_mesh {
                                let (i, j, k) = choose|i: int, j: int, k: int|
                                    ((0 <= i < x && 0 <= k < CHUNK_SIZE) || (i == x && 0 <= k < z)) && #[trigger] decoration_writes(start, biome@, i, j, k);
                                assert(decoration_writes(start, biome@, i, j, k));
                            } else {
                                let j = choose|j: int| #[trigger] decoration_writes(before, biome@, x as int, j, z as int);
                                assert(decoration_writes(start, biome@, x as int, j, z as int));
                            }
                        } else {
                            let (i, j, k) = choose|i: int, j: int, k: int|
                                ((0 <= i < x && 0 <= k < CHUNK_SIZE) || (i == x && 0 <= k < z + 1)) && #[trigger] decoration_writes(start, biome@, i, j, k);
                            if i == x && k == z {
                                assert(decoration_writes(before, biome@, x as int, j, z as int));
                            } else {
                                assert(decoration_writes(start, biome@, i, j, k));
                            }
                        }
                    }
                }
            }
        }
        proof {
            assert forall|i: int, j: int, k: int| !(0 <= i < CHUNK_SIZE && 0 <= k < CHUNK_SIZE) implies
                decorated_block(start, biome@, i, j, k) == start.block_at(i, j, k)
                && !decoration_writes(start, biome@, i, j, k) by {}
            if chunk.needs_mesh && !start.needs_mesh {
                let (i, j, k) = choose|i: int, j: int, k: int|
                    0 <= i < CHUNK_SIZE && 0 <= k < CHUNK_SIZE && #[trigger] decoration_writes(start, biome@, i, j, k);
                assert(decoration_writes(start, biome@, i, j, k));
            }
            if !chunk.needs_mesh && exists|i: int, j: int, k: int| #[trigger] decoration_writes(start, biome_name@, i, j, k) {
                let (i, j, k) = choose|i: int, j: int, k: int| #[trigger] decoration_writes(start, biome_name@, i, j, k);
                assert(0 <= i < CHUNK_SIZE && 0 <= k < CHUNK_SIZE);
            }
        }
    }
}


/// A plant grows on a column only when the column's noise, the last three digits of its seed
/// in ten-thousandths, exceeds the rate of the most frequent plant of the biome: 0.96 in a
/// grassland, 0.93 in the forests, 0.92 in a taiga (mushrooms on podzol) and 0.99 in a desert.
/// Every other biome grows nothing.
pub proof fn law_plants_need_noise(before: Chunk, after: Chunk, biome: Seq<char>, i: int, j: int, k: int)
    requires
        decorations_applied(before, after, biome),
    ensures
        after.block_at(i, j, k) != before.block_at(i, j, k) ==> ({
            let n = (column_seed(before.pos.x * CHUNK_SIZE + i, before.pos.z * CHUNK_SIZE + k) % 1000) * 10;
            ||| biome == "grassland"@ && n > 9600
            ||| (biome == "oak_forest"@ || biome == "birch_forest"@) && n > 9300
            ||| biome == "taiga"@ && n > 9200
            ||| biome == "desert"@ && n > 9900
        }),
{
    assert(after.block_at(i, j, k) == decorated_block(before, biome, i, j, k));
    let (lower, upper) = column_plants(before, biome, i, k);
    if after.block_at(i, j, k) != before.block_at(i, j, k) {
        assert(lower is Some || upper is Some);
    }
}


/// The plants the biome named `biome` may grow: grasses and flowers in a grassland (poppies,
/// pink tulips, torchflowers), grasses, poppies and pink tulips in the forests, grass, ferns,
/// berry bushes and brown mushrooms in a taiga, and dry grass and dead bushes in a desert;
/// nothing anywhere else.
pub open spec fn biome_grows(biome: Seq<char>, b: BlockType) -> bool {
    if biome == "grassland"@ {
        b == BlockType::ShortGrass || b == BlockType::TallGrassBottom || b == BlockType::TallGrassTop
            || b == BlockType::Poppy || b == BlockType::PinkTulip || b == BlockType::TorchFlower
    } else if biome == "oak_forest"@ || biome == "birch_forest"@ {
        b == BlockType::ShortGrass || b == BlockType::TallGrassBottom || b == BlockType::TallGrassTop
            || b == BlockType::Poppy || b == BlockType::PinkTulip
    } else if biome == "taiga"@ {
        b == BlockType::ShortGrass || b == BlockType::Fern || b == BlockType::LargeFernBottom
            || b == BlockType::LargeFernTop || b == BlockType::SweetBerryBushStage1 || b == BlockType::BrownMushroom
    } else if biome == "desert"@ {
        b == BlockType::ShortDryGrass || b == BlockType::TallDryGrass || b == BlockType::DeadBush
    } else {
        false
    }
}

/// Decorating grows only the biome's own plants (`biome_grows`), and nothing in any other
/// biome. A plant grows on the cell just above the ground, which held air, and the top half of a tall
/// plant stands on its own bottom half.
pub proof fn law_plants_belong_to_their_biome(before: Chunk, after: Chunk, biome: Seq<char>, i: int, j: int, k: int)
    requires
        decorations_applied(before, after, biome),
    ensures
        after.block_at(i, j, k) != before.block_at(i, j, k) ==> ({
            let b = after.block_at(i, j, k);
            &&& biome_grows(biome, b)
            &&& (b == BlockType::TallGrassTop || b == BlockType::LargeFernTop) ==> j >= 1 && after.block_at(i, j - 1, k)
                == if b == BlockType::TallGrassTop { BlockType::TallGrassBottom } else { BlockType::LargeFernBottom }
            &&& !(b == BlockType::TallGrassTop || b == BlockType::LargeFernTop) ==> before.block_at(i, j, k) == BlockType::Air
        }),
{
    let g = ground(before, i, k);
    assert(after.block_at(i, j, k) == decorated_block(before, biome, i, j, k));
    assert(after.block_at(i, j - 1, k) == decorated_block(before, biome, i, j - 1, k));
    let (lower, upper) = column_plants(before, biome, i, k);
    if after.block_at(i, j, k) != before.block_at(i, j, k) {
        if 0 <= i < CHUNK_SIZE && 0 <= k < CHUNK_SIZE && g >= 0 && g + 1 < CHUNK_HEIGHT
            && before.block_at(i, g + 1, k) == BlockType::Air {
            lemma_plants_of_biome(
                biome,
                before.block_at(i, g, k),
                column_seed(before.pos.x * CHUNK_SIZE + i, before.pos.z * CHUNK_SIZE + k),
            );
        }
    }
}

proof fn lemma_plants_of_biome(biome: Seq<char>, ground_block: BlockType, seed: u32)
    ensures
        ({
            let (lower, upper) = decoration_plants(biome, ground_block, seed);
            &&& upper is Some ==> lower is Some && ((lower->0 == BlockType::TallGrassBottom && upper->0 == BlockType::TallGrassTop)
                || (lower->0 == BlockType::LargeFernBottom && upper->0 == BlockType::LargeFernTop))
            &&& lower is Some ==> {
                let b = lower->0;
                &&& b != BlockType::TallGrassTop && b != BlockType::LargeFernTop
                &&& biome_grows(biome, b)
            }
            &&& upper is Some ==> biome_grows(biome, upper->0)
        }),
{
    lemma_biome_names_differ();
    lemma_grassland_plants(seed);
    lemma_forest_plants(seed);
    lemma_taiga_plants(seed);
    lemma_desert_plants(seed);
}

proof fn lemma_biome_names_differ()
    ensures
        "grassland"@ != "oak_forest"@,
        "grassland"@ != "birch_forest"@,
        "grassland"@ != "taiga"@,
        "grassland"@ != "desert"@,
        "oak_forest"@ != "birch_forest"@,
        "oak_forest"@ != "taiga"@,
        "oak_forest"@ != "desert"@,
        "birch_forest"@ != "taiga"@,
        "birch_forest"@ != "desert"@,
        "taiga"@ != "desert"@,
{
    reveal_strlit("grassland");
    reveal_strlit("oak_forest");
    reveal_strlit("birch_forest");
    reveal_strlit("taiga");
    reveal_strlit("desert");
    assert("grassland"@.len() == 9);
    assert("oak_forest"@.len() == 10);
    assert("birch_forest"@.len() == 12);
    assert("taiga"@.len() == 5);
    assert("desert"@.len() == 6);
}

proof fn lemma_grassland_plants(seed: u32)
    ensures
        ({
            let (lower, upper) = grassland_plants(seed);
            &&& upper is Some ==> lower == Some(BlockType::TallGrassBottom) && upper == Some(BlockType::TallGrassTop)
            &&& lower is Some ==> (lower->0 == BlockType::ShortGrass || lower->0 == BlockType::TallGrassBottom
                || lower->0 == BlockType::Poppy || lower->0 == BlockType::PinkTulip || lower->0 == BlockType::TorchFlower)
        }),
{
}

proof fn lemma_forest_plants(seed: u32)
    ensures
        ({
            let (lower, upper) = forest_plants(seed);
            &&& upper is Some ==> lower == Some(BlockType::TallGrassBottom) && upper == Some(BlockType::TallGrassTop)
            &&& lower is Some ==> (lower->0 == BlockType::ShortGrass || lower->0 == BlockType::TallGrassBottom
                || lower->0 == BlockType::Poppy || lower->0 == BlockType::PinkTulip)
        }),
{
}

proof fn lemma_taiga_plants(seed: u32)
    ensures
        ({
            let (lower, upper) = taiga_plants(seed);
            &&& upper is Some ==> lower == Some(BlockType::LargeFernBottom) && upper == Some(BlockType::LargeFernTop)
            &&& lower is Some ==> (lower->0 == BlockType::ShortGrass || lower->0 == BlockType::Fern
                || lower->0 == BlockType::LargeFernBottom || lower->0 == BlockType::SweetBerryBushStage1)
        }),
        podzol_plants(seed).1 is None,
        podzol_plants(seed).0 is Some ==> podzol_plants(seed).0 == Some(BlockType::BrownMushroom),
{
}

proof fn lemma_desert_plants(seed: u32)
    ensures
        desert_plants(seed).1 is None,
        desert_plants(seed).0 is Some ==> (desert_plants(seed).0->0 == BlockType::ShortDryGrass
            || desert_plants(seed).0->0 == BlockType::TallDryGrass || desert_plants(seed).0->0 == BlockType::DeadBush),
{
}

}
