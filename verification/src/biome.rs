use vstd::prelude::*;
use crate::block::{BlockType, RenderType, kind_render_type};
use crate::chunk::{CHUNK_HEIGHT, CHUNK_SIZE, Chunk, ground, lemma_ground_bounds, lemma_ground_same, same_column};
use crate::command::{Rotation, no_rotation};
use crate::rng::wrap32;
use crate::rounding::{f32_value, f32_value_of, round_units, round_units_of, round_units_signed};
use crate::terrain::TerrainSample;

verus! {

/// A biome: the blocks its ground is made of and where on the climate map it lies.
pub struct Biome {
    pub name: String,
    pub c_top: BlockType,
    pub c_filler: BlockType,
    pub c_stone: BlockType,
    pub c_water: BlockType,
    pub c_river_water: BlockType,
    pub depth_top: i32,
    pub depth_filler: i32,
    /// The temperature the biome is centred on.
    pub heat_point: i32,
    /// The humidity the biome is centred on.
    pub humidity_point: i32,
    pub min_y: i32,
    pub max_y: i32,
    pub vertical_blend: i32,
    /// How strongly the biome claims the climate map, in hundredths.
    pub weight: u32,
    /// A block that replaces the top block in patches.
    pub surface_variant: Option<BlockType>,
    /// How often a patch starts, in thousandths of the ground columns.
    pub surface_variant_frequency: u32,
}

impl Biome {
    /// A biome of weight one with no surface variant.
    pub fn new(
        name: &str,
        c_top: BlockType,
        c_filler: BlockType,
        c_stone: BlockType,
        c_water: BlockType,
        c_river_water: BlockType,
        depth_top: i32,
        depth_filler: i32,
        heat_point: i32,
        humidity_point: i32,
        min_y: i32,
        max_y: i32,
        vertical_blend: i32,
    ) -> (r: Biome)
        ensures
            r.name@ == name@,
            r.c_top == c_top,
            r.c_filler == c_filler,
            r.c_stone == c_stone,
            r.c_water == c_water,
            r.c_river_water == c_river_water,
            r.depth_top == depth_top,
            r.depth_filler == depth_filler,
            r.heat_point == heat_point,
            r.humidity_point == humidity_point,
            r.min_y == min_y,
            r.max_y == max_y,
            r.vertical_blend == vertical_blend,
            r.weight == 100,
            r.surface_variant is None,
            r.surface_variant_frequency == 0,
    {
        Biome {
            name: String::from_str(name),
            c_top,
            c_filler,
            c_stone,
            c_water,
            c_river_water,
            depth_top,
            depth_filler,
            heat_point,
            humidity_point,
            min_y,
            max_y,
            vertical_blend,
            weight: 100,
            surface_variant: None,
            surface_variant_frequency: 0,
        }
    }

    /// The same biome with patches of `variant` starting on `frequency` thousandths of its
    /// ground columns.
    pub fn with_surface_variant(self, variant: BlockType, frequency: u32) -> (r: Biome)
        ensures
            r == (Biome { surface_variant: Some(variant), surface_variant_frequency: frequency, ..self }),
    {
        let mut b = self;
        b.surface_variant = Some(variant);
        b.surface_variant_frequency = frequency;
        b
    }
}

/// Whether `b` has the given name, ground blocks, depths, climate point and height range, with
/// weight one.
pub open spec fn biome_is(
    b: Biome,
    name: Seq<char>,
    top: BlockType,
    filler: BlockType,
    depth_top: int,
    depth_filler: int,
    heat: int,
    humidity: int,
    max_y: int,
    blend: int,
) -> bool {
    &&& b.name@ == name
    &&& b.c_top == top
    &&& b.c_filler == filler
    &&& b.c_stone == BlockType::Stone
    &&& b.c_water == BlockType::Water
    &&& b.c_river_water == BlockType::Water
    &&& b.depth_top == depth_top
    &&& b.depth_filler == depth_filler
    &&& b.heat_point == heat
    &&& b.humidity_point == humidity
    &&& b.min_y == 0
    &&& b.max_y == max_y
    &&& b.vertical_blend == blend
    &&& b.weight == 100
}

/// The biomes the world starts with, in the order they are registered.
pub open spec fn default_biomes(s: Seq<Biome>) -> bool {
    &&& s.len() == 7
    &&& biome_is(s[0], "grassland"@, BlockType::GrassBlock, BlockType::Dirt, 1, 2, 50, 50, 40, 16)
    &&& s[0].surface_variant is None
    &&& biome_is(s[1], "desert"@, BlockType::Sand, BlockType::Sand, 1, 1, 60, 10, 40, 8)
    &&& s[1].surface_variant is None
    &&& biome_is(s[2], "taiga"@, BlockType::GrassBlock, BlockType::Dirt, 1, 3, 20, 70, 60, 16)
    &&& s[2].surface_variant == Some(BlockType::Podzol) && s[2].surface_variant_frequency == 10
    &&& biome_is(s[3], "snowy_taiga"@, BlockType::SnowyGrassBlock, BlockType::Dirt, 1, 3, -10, 70, 255, 16)
    &&& s[3].surface_variant is None
    &&& biome_is(s[4], "tundra"@, BlockType::Snow, BlockType::Snow, 1, 2, -20, 40, 40, 16)
    &&& s[4].surface_variant is None
    &&& biome_is(s[5], "oak_forest"@, BlockType::GrassBlock, BlockType::Dirt, 1, 3, 40, 75, 60, 16)
    &&& s[5].surface_variant is None
    &&& biome_is(s[6], "birch_forest"@, BlockType::GrassBlock, BlockType::Dirt, 1, 3, 35, 80, 60, 16)
    &&& s[6].surface_variant is None
}

/// The registered biomes.
pub struct BiomeManager {
    biomes: Vec<Biome>,
}

impl BiomeManager {
    /// The registered biomes, in registration order.
    pub closed spec fn biomes(&self) -> Seq<Biome> {
        self.biomes@
    }

    /// The manager holding the world's biomes.
    pub fn new() -> (r: BiomeManager)
        ensures
            default_biomes(r.biomes()),
    {
        let mut manager = BiomeManager { biomes: Vec::new() };
        manager.register_default_biomes();
        manager
    }

    fn register_default_biomes(&mut self)
        requires
            old(self).biomes().len() == 0,
        ensures
            default_biomes(final(self).biomes()),
    {
        self.register(
            Biome::new(
                "grassland",
                BlockType::GrassBlock,
                BlockType::Dirt,
                BlockType::Stone,
                BlockType::Water,
                BlockType::Water,
                1,
                2,
                50,
                50,
                0,
                40,
                16,
            ),
        );
        self.register(
            Biome::new(
                "desert",
                BlockType::Sand,
                BlockType::Sand,
                BlockType::Stone,
                BlockType::Water,
                BlockType::Water,
                1,
                1,
                60,
                10,
                0,
                40,
                8,
            ),
        );
        self.register(
            Biome::new(
                "taiga",
                BlockType::GrassBlock,
                BlockType::Dirt,
                BlockType::Stone,
                BlockType::Water,
                BlockType::Water,
                1,
                3,
                20,
                70,
                0,
                60,
                16,
            ).with_surface_variant(BlockType::Podzol, 10),
        );
        self.register(
            Biome::new(
                "snowy_taiga",
                BlockType::SnowyGrassBlock,
                BlockType::Dirt,
                BlockType::Stone,
                BlockType::Water,
                BlockType::Water,
                1,
                3,
                -10,
                70,
                0,
                255,
                16,
            ),
        );
        self.register(
            Biome::new(
                "tundra",
                BlockType::Snow,
                BlockType::Snow,
                BlockType::Stone,
                BlockType::Water,
                BlockType::Water,
                1,
                2,
                -20,
                40,
                0,
                40,
                16,
            ),
        );
        self.register(
            Biome::new(
                "oak_forest",
                BlockType::GrassBlock,
                BlockType::Dirt,
                BlockType::Stone,
                BlockType::Water,
                BlockType::Water,
                1,
                3,
                40,
                75,
                0,
                60,
                16,
            ),
        );
        self.register(
            Biome::new(
                "birch_forest",
                BlockType::GrassBlock,
                BlockType::Dirt,
                BlockType::Stone,
                BlockType::Water,
                BlockType::Water,
                1,
                3,
                35,
                80,
                0,
                60,
                16,
            ),
        );
    }

    /// Adds a biome after the registered ones.
    pub fn register(&mut self, biome: Biome)
        ensures
            final(self).biomes() == old(self).biomes().push(biome),
    {
        self.biomes.push(biome);
    }

    /// The number of registered biomes.
    pub fn len(&self) -> (r: usize)
        ensures
            r == self.biomes().len(),
    {
        self.biomes.len()
    }

    /// The `i`-th registered biome.
    pub fn get(&self, i: usize) -> (r: &Biome)
        requires
            i < self.biomes().len(),
        ensures
            *r == self.biomes()[i as int],
    {
        &self.biomes[i]
    }
}


/// How snowy the altitude `y` is, as the single-precision game computes it, counted in units
/// of 2^-60: nothing below `start`, all from `full` on, and in between `(y - start) / (full -
/// start)` with both sides and the quotient rounded to single precision.
pub open spec fn snow_share(y: int, start: int, full: int) -> int {
    if y >= full {
        0x1000_0000_0000_0000
    } else if y >= start {
        round_units(f32_value(y - start) * 0x1000_0000_0000_0000, f32_value(full - start))
    } else {
        0
    }
}

/// How far the noise `noise` (in `0..1000`) moves the snow line, counted in units of 2^-60:
/// `(noise / 1000 - 0.5) * 0.3`, each step rounded to single precision.
pub open spec fn snow_shift(noise: int) -> int {
    let b = round_units(noise * 0x1000_0000_0000_0000, 1000);
    let c = round_units_signed(b - 0x800_0000_0000_0000, 1);
    round_units_signed(c * 10066330, 0x200_0000)
}

/// Whether the snow share of `y` shifted by the noise, summed in single precision, exceeds
/// one half (`level` 5000) or the single-precision seven tenths (`level` 7000). The rounded
/// sum exceeds one half exactly when the exact sum exceeds it by more than half a step
/// (2^-25), and exceeds the float just below seven tenths exactly when the exact sum is at
/// least half a step above that float.
pub open spec fn snow_exceeds(y: int, noise: int, start: int, full: int, level: int) -> bool {
    let t = snow_share(y, start, full) + snow_shift(noise);
    if level == 5000 {
        t > 0x800_0000_0000_0000 + 0x8_0000_0000
    } else {
        t >= 11744051 * 0x10_0000_0000 + 0x8_0000_0000
    }
}

/// Whether the snow share's `full - start` (and so `y - start`) fits in `i32` wherever it is
/// computed: for some layer `y` of a chunk with `start <= y < full`.
pub open spec fn snow_range_fits(start: int, full: int) -> bool {
    (start < CHUNK_HEIGHT && 0 < full && start < full) ==> full - start <= i32::MAX
}

/// The noise in `0..1000` that shifts the snow line at the block `(wx, y, wz)`.
pub open spec fn snow_noise(wx: int, wz: int, y: int) -> int {
    (wrap32(wx * 2345 + wz * 5432 + y * 3456) % 1000) as int
}

/// The draw in `0..100` that decides whether snowy grass becomes a snow block.
pub open spec fn snow_pick(wx: int, wz: int) -> int {
    (wrap32(wx * 9876 + wz * 5432) % 100) as int
}

/// Whether the ground of column `(x, z)` of `chunk` is snowy enough for snow.
pub open spec fn column_snowy(chunk: Chunk, start: int, full: int, x: int, z: int, level: int) -> bool {
    let g = ground(chunk, x, z);
    let wx = chunk.pos.x * CHUNK_SIZE + x;
    let wz = chunk.pos.z * CHUNK_SIZE + z;
    0 <= x < CHUNK_SIZE && 0 <= z < CHUNK_SIZE && g >= 0 && snow_exceeds(g, snow_noise(wx, wz, g), start, full, level)
}

/// The block that replaces the grass on top of column `(x, z)`, if snow turns it.
pub open spec fn snow_top(chunk: Chunk, start: int, full: int, x: int, z: int) -> Option<BlockType> {
    let g = ground(chunk, x, z);
    if column_snowy(chunk, start, full, x, z, 5000) && chunk.block_at(x, g, z) == BlockType::GrassBlock {
        if snow_pick(chunk.pos.x * CHUNK_SIZE + x, chunk.pos.z * CHUNK_SIZE + z) < 30 && column_snowy(chunk, start, full, x, z, 7000) {
            Some(BlockType::Snow)
        } else {
            Some(BlockType::SnowyGrassBlock)
        }
    } else {
        None
    }
}

/// Whether a snow layer settles on the ground of column `(x, z)`.
pub open spec fn snow_capped(chunk: Chunk, start: int, full: int, x: int, z: int) -> bool {
    let g = ground(chunk, x, z);
    let b = chunk.block_at(x, g, z);
    &&& column_snowy(chunk, start, full, x, z, 5000)
    &&& (b == BlockType::GrassBlock || kind_render_type(b) == RenderType::FullCube)
    &&& g + 1 < CHUNK_HEIGHT
    &&& chunk.block_at(x, g + 1, z) == BlockType::Air
}

/// Whether snowing writes the cell `(i, j, k)`.
pub open spec fn snow_writes(chunk: Chunk, start: int, full: int, i: int, j: int, k: int) -> bool {
    let g = ground(chunk, i, k);
    ||| j == g && snow_top(chunk, start, full, i, k) is Some
    ||| j == g + 1 && snow_capped(chunk, start, full, i, k)
}

/// The block at `(i, j, k)` after snowing.
pub open spec fn snowed_block(chunk: Chunk, start: int, full: int, i: int, j: int, k: int) -> BlockType {
    let g = ground(chunk, i, k);
    if j == g && snow_top(chunk, start, full, i, k) is Some {
        snow_top(chunk, start, full, i, k)->0
    } else if j == g + 1 && snow_capped(chunk, start, full, i, k) {
        BlockType::SnowLayer
    } else {
        chunk.block_at(i, j, k)
    }
}

proof fn lemma_snow_same(a: Chunk, b: Chunk, start: int, full: int, x: int, z: int)
    requires
        same_column(a, b, x, z),
        a.pos == b.pos,
    ensures
        forall|j: int| #[trigger] snowed_block(a, start, full, x, j, z) == snowed_block(b, start, full, x, j, z),
        forall|j: int| #[trigger] snow_writes(a, start, full, x, j, z) == snow_writes(b, start, full, x, j, z),
{
    lemma_ground_same(a, b, x, z, CHUNK_HEIGHT - 1);
    let g = ground(a, x, z);
    assert(a.block_at(x, g, z) == b.block_at(x, g, z));
    assert(a.block_at(x, g + 1, z) == b.block_at(x, g + 1, z));
    assert forall|j: int| #[trigger] snowed_block(a, start, full, x, j, z) == snowed_block(b, start, full, x, j, z) by {
        assert(a.block_at(x, j, z) == b.block_at(x, j, z));
    }
}

/// Whether the snow share of `y` shifted by `noise` exceeds one half (`level` 5000) or
/// seven tenths (`level` 7000), in single precision.
fn snow_exceeds_at(y: i32, noise: u32, start: i32, full: i32, level: i64) -> (r: bool)
    requires
        0 <= y < CHUNK_HEIGHT,
        noise < 1000,
        level == 5000 || level == 7000,
        snow_range_fits(start as int, full as int),
    ensures
        r == snow_exceeds(y as int, noise as int, start as int, full as int, level as int),
{
    let a: u128 = if y >= full {
        0x1000_0000_0000_0000
    } else if y >= start {
        let n = f32_value_of(y - start);
        let m = f32_value_of(full - start);
        assert(0 <= n < 2 * m) by {
            if full - start < 0x100_0000 {
                assert(n == y - start && m == full - start);
            }
        }
        assert((n as u128) * 0x1000_0000_0000_0000 < (m as u128) * 0x2000_0000_0000_0000);
        round_units_of((n as u128) * 0x1000_0000_0000_0000, m as u128)
    } else {
        0
    };
    assert(a == snow_share(y as int, start as int, full as int));
    let b = round_units_of((noise as u128) * 0x1000_0000_0000_0000, 1000);
    assert(b <= 0x1000_0000_0000_0000) by (nonlinear_arith)
        requires
            b * 1000 * 8388608 <= noise * 0x1000_0000_0000_0000 * 8388609 + 1000 * 8388608,
            noise < 1000,
    ;
    let diff: i128 = b as i128 - 0x800_0000_0000_0000;
    let c: i128 = if diff >= 0 {
        round_units_of(diff as u128, 1) as i128
    } else {
        -(round_units_of((-diff) as u128, 1) as i128)
    };
    assert(c == round_units_signed(diff as int, 1));
    assert(-0x1000_0000_0000_0000 <= c <= 0x1000_0000_0000_0000) by (nonlinear_arith)
        requires
            -0x800_0000_0000_0000 <= diff <= 0x800_0000_0000_0000,
            diff >= 0 ==> c * 8388608 <= diff * 8388609 + 8388608 && c >= 0,
            diff < 0 ==> -c * 8388608 <= -diff * 8388609 + 8388608 && c <= 0,
    ;
    let d: i128 = if c >= 0 {
        round_units_of((c as u128) * 10066330, 0x200_0000) as i128
    } else {
        -(round_units_of(((-c) as u128) * 10066330, 0x200_0000) as i128)
    };
    assert(d == round_units_signed(c * 10066330, 0x200_0000));
    let t: i128 = a as i128 + d;
    if level == 5000 {
        t > 0x800_0000_0000_0000 + 0x8_0000_0000
    } else {
        t >= 11744051 * 0x10_0000_0000 + 0x8_0000_0000
    }
}

/// Lays snow on the column `(x, z)`.
fn snow_column(chunk: &mut Chunk, x: i32, z: i32, start: i32, full: i32)
    requires
        old(chunk).wf(),
        crate::chunk::pos_in_world(old(chunk).pos),
        crate::chunk::snow_hashes_fit(old(chunk).pos),
        snow_range_fits(start as int, full as int),
        0 <= x < CHUNK_SIZE,
        0 <= z < CHUNK_SIZE,
    ensures
        final(chunk).wf(),
        final(chunk).pos == old(chunk).pos,
        forall|i: int, j: int, k: int| #[trigger] final(chunk).block_at(i, j, k) == if i == x && k == z {
            snowed_block(*old(chunk), start as int, full as int, i, j, k)
        } else {
            old(chunk).block_at(i, j, k)
        },
        forall|i: int, j: int, k: int| #[trigger] final(chunk).rotation_at(i, j, k) == if i == x && k == z
            && snow_writes(*old(chunk), start as int, full as int, i, j, k) {
            no_rotation()
        } else {
            old(chunk).rotation_at(i, j, k)
        },
        final(chunk).needs_mesh == (old(chunk).needs_mesh || exists|j: int| #[trigger] snow_writes(*old(chunk), start as int, full as int, x as int, j, z as int)),
{
    let ghost c0 = *chunk;
    let y = chunk.ground_level(x, z);
    proof {
        lemma_ground_bounds(c0, x as int, z as int, CHUNK_HEIGHT - 1);
    }
    if y < 0 {
        assert forall|j: int| !#[trigger] snow_writes(c0, start as int, full as int, x as int, j, z as int) by {}
        return;
    }
    let block = chunk.get_block(x, y, z);
    let world_x = chunk.pos.x * CHUNK_SIZE + x;
    let world_z = chunk.pos.z * CHUNK_SIZE + z;
    assert(0 <= y < 160);
    let variation = crate::rng::i32_bits(world_x * 2345 + world_z * 5432 + y * 3456) % 1000;
    let hot = snow_exceeds_at(y, variation, start, full, 5000);
    let deep = snow_exceeds_at(y, variation, start, full, 7000);
    let snow_y = y + 1;
    if hot {
        if block == BlockType::GrassBlock {
            let replace_seed = crate::rng::i32_bits(world_x * 9876 + world_z * 5432) % 100;
            if replace_seed < 30 && deep {
                chunk.set_block(x, y, z, BlockType::Snow, Rotation::none());
            } else {
                chunk.set_block(x, y, z, BlockType::SnowyGrassBlock, Rotation::none());
            }
            proof {
                assert(snow_writes(c0, start as int, full as int, x as int, y as int, z as int));
            }
            if snow_y < CHUNK_HEIGHT && chunk.get_block(x, snow_y, z) == BlockType::Air {
                chunk.set_block(x, snow_y, z, BlockType::SnowLayer, Rotation::none());
            }
        } else if block.is_full_block() {
            if snow_y < CHUNK_HEIGHT && chunk.get_block(x, snow_y, z) == BlockType::Air {
                chunk.set_block(x, snow_y, z, BlockType::SnowLayer, Rotation::none());
                proof {
                    assert(snow_writes(c0, start as int, full as int, x as int, snow_y as int, z as int));
                }
            }
        }
    }
    proof {
        if !hot {
            assert forall|j: int| !#[trigger] snow_writes(c0, start as int, full as int, x as int, j, z as int) by {}
        }
    }
}

/// Lays snow on the ground of every column of `chunk` whose ground is high enough: none below
/// `snow_start_altitude`, everywhere from `snow_full_altitude` on, in between with a chance
/// that grows with altitude and a noisy edge.
pub fn generate_snow(chunk: &mut Chunk, snow_start_altitude: i32, snow_full_altitude: i32, _biome_name: &str)
    requires
        old(chunk).wf(),
        crate::chunk::pos_in_world(old(chunk).pos),
        crate::chunk::snow_hashes_fit(old(chunk).pos),
        snow_range_fits(snow_start_altitude as int, snow_full_altitude as int),
    ensures
        snow_applied(*old(chunk), *final(chunk), snow_start_altitude as int, snow_full_altitude as int),
{
    let ghost start = *chunk;
    let ghost (s0, f0) = (snow_start_altitude as int, snow_full_altitude as int);
    for x in 0..CHUNK_SIZE
        invariant
            chunk.wf(),
            chunk.pos == start.pos,
            crate::chunk::pos_in_world(start.pos),
                crate::chunk::snow_hashes_fit(start.pos),
                snow_range_fits(s0, f0),
            s0 == snow_start_altitude && f0 == snow_full_altitude,
            forall|i: int, j: int, k: int| #[trigger] chunk.block_at(i, j, k) == if 0 <= i < x && 0 <= k < CHUNK_SIZE {
                snowed_block(start, s0, f0, i, j, k)
            } else {
                start.block_at(i, j, k)
            },
            forall|i: int, j: int, k: int| #[trigger] chunk.rotation_at(i, j, k) == if 0 <= i < x && 0 <= k < CHUNK_SIZE
                && snow_writes(start, s0, f0, i, j, k) {
                no_rotation()
            } else {
                start.rotation_at(i, j, k)
            },
            chunk.needs_mesh == (start.needs_mesh || exists|i: int, j: int, k: int|
                0 <= i < x && 0 <= k < CHUNK_SIZE && #[trigger] snow_writes(start, s0, f0, i, j, k)),
    {
        for z in 0..CHUNK_SIZE
            invariant
                chunk.wf(),
                chunk.pos == start.pos,
                crate::chunk::pos_in_world(start.pos),
                crate::chunk::snow_hashes_fit(start.pos),
                snow_range_fits(s0, f0),
                0 <= x < CHUNK_SIZE,
                s0 == snow_start_altitude && f0 == snow_full_altitude,
                forall|i: int, j: int, k: int| #[trigger] chunk.block_at(i, j, k) == if (0 <= i < x && 0 <= k < CHUNK_SIZE) || (i == x && 0 <= k < z) {
                    snowed_block(start, s0, f0, i, j, k)
                } else {
                    start.block_at(i, j, k)
                },
                forall|i: int, j: int, k: int| #[trigger] chunk.rotation_at(i, j, k) == if ((0 <= i < x && 0 <= k < CHUNK_SIZE) || (i == x && 0 <= k < z))
                    && snow_writes(start, s0, f0, i, j, k) {
                    no_rotation()
                } else {
                    start.rotation_at(i, j, k)
                },
                chunk.needs_mesh == (start.needs_mesh || exists|i: int, j: int, k: int|
                    ((0 <= i < x && 0 <= k < CHUNK_SIZE) || (i == x && 0 <= k < z)) && #[trigger] snow_writes(start, s0, f0, i, j, k)),
        {
            let ghost before = *chunk;
            proof {
                assert(same_column(before, start, x as int, z as int));
                lemma_snow_same(before, start, s0, f0, x as int, z as int);
            }
            snow_column(chunk, x, z, snow_start_altitude, snow_full_altitude);
            proof {
                let ghost after = *chunk;
                if after.needs_mesh != (start.needs_mesh || exists|i: int, j: int, k: int|
                    ((0 <= i < x && 0 <= k < CHUNK_SIZE) || (i == x && 0 <= k < z + 1)) && #[trigger] snow_writes(start, s0, f0, i, j, k)) {
                    if after.needs_mesh {
                        if before.needs_mesh {
                            let (i, j, k) = choose|i: int, j: int, k: int|
                                ((0 <= i < x && 0 <= k < CHUNK_SIZE) || (i == x && 0 <= k < z)) && #[trigger] snow_writes(start, s0, f0, i, j, k);
                            assert(snow_writes(start, s0, f0, i, j, k));
                        } else {
                            let j = choose|j: int| #[trigger] snow_writes(before, s0, f0, x as int, j, z as int);
                            assert(snow_writes(start, s0, f0, x as int, j, z as int));
                        }
                    } else {
                        let (i, j, k) = choose|i: int, j: int, k: int|
                            ((0 <= i < x && 0 <= k < CHUNK_SIZE) || (i == x && 0 <= k < z + 1)) && #[trigger] snow_writes(start, s0, f0, i, j, k);
                        if i == x && k == z {
                            assert(snow_writes(before, s0, f0, x as int, j, z as int));
                        } else {
                            assert(snow_writes(start, s0, f0, i, j, k));
                        }
                    }
                }
            }
        }
    }
    proof {
        assert forall|i: int, j: int, k: int| !(0 <= i < CHUNK_SIZE && 0 <= k < CHUNK_SIZE) implies
            snowed_block(start, s0, f0, i, j, k) == start.block_at(i, j, k)
            && !snow_writes(start, s0, f0, i, j, k) by {}
        if chunk.needs_mesh && !start.needs_mesh {
            let (i, j, k) = choose|i: int, j: int, k: int|
                0 <= i < CHUNK_SIZE && 0 <= k < CHUNK_SIZE && #[trigger] snow_writes(start, s0, f0, i, j, k);
            assert(snow_writes(start, s0, f0, i, j, k));
        }
        if !chunk.needs_mesh && exists|i: int, j: int, k: int| #[trigger] snow_writes(start, s0, f0, i, j, k) {
            let (i, j, k) = choose|i: int, j: int, k: int| #[trigger] snow_writes(start, s0, f0, i, j, k);
            assert(0 <= i < CHUNK_SIZE && 0 <= k < CHUNK_SIZE);
        }
    }
}


/// The hash of the world column `(wx, wz)` before reduction to 32 bits.
pub open spec fn column_hash(wx: int, wz: int) -> int {
    wx * 374761393 + wz * 668265263
}

/// The noise in `0..1000` that decides whether a patch starts on the ground `y` of the world
/// column `(wx, wz)`.
pub open spec fn variant_noise(wx: int, wz: int, y: int) -> int {
    (wrap32((column_hash(wx, wz) + y) * 715827883) % 1000) as int
}

/// The noise in `0..1000` of the cell at offset `(px, pz)` of a patch started in the world
/// column `(wx, wz)`.
pub open spec fn patch_noise(wx: int, wz: int, px: int, pz: int) -> int {
    (wrap32(((column_hash(wx, wz) + px) * 109739919 + pz) * 715827883) % 1000) as int
}

/// The squared distances at which the patch rule's single-precision sum, landing exactly on
/// the threshold, rounds above it.
pub open spec fn patch_tie(d: int) -> bool {
    ||| d == 45 || d == 50 || d == 52 || d == 53 || d == 58 || d == 64 || d == 65 || d == 68
    ||| d == 72 || d == 73 || d == 74 || d == 80 || d == 82 || d == 89 || d == 90 || d == 98
    ||| d == 104
}

/// Whether the cell at squared distance `d > 0` from a patch's centre joins the patch:
/// `(100 - d) / 100 * 0.6 + noise / 1000 * 0.4 > 0.35`, with the ties the game's
/// single-precision arithmetic resolves upward.
pub open spec fn patch_joins(d: int, noise: int) -> bool {
    d > 0 && (15 * d - noise < 625 || (15 * d - noise == 625 && patch_tie(d)))
}

/// Whether a patch may turn `b`.
pub open spec fn patchable(b: BlockType) -> bool {
    b == BlockType::GrassBlock || b == BlockType::Dirt || b == BlockType::SnowyGrassBlock
}

/// The variant block and the centre layer of the patch that the column `(x, z)` of `chunk`
/// starts, if it starts one: its ground must be the top block of its biome, the biome must
/// have a variant with a positive frequency, and the column's noise must fall below it.
pub open spec fn patch_start(chunk: Chunk, terrain: TerrainSample, biomes: Seq<Biome>, x: int, z: int) -> Option<(BlockType, int)> {
    let g = ground(chunk, x, z);
    let wx = chunk.pos.x * CHUNK_SIZE + x;
    let wz = chunk.pos.z * CHUNK_SIZE + z;
    if 0 <= x < CHUNK_SIZE && 0 <= z < CHUNK_SIZE && g >= 0 {
        let b = biomes[terrain.biome_at(x, g, z)];
        match b.surface_variant {
            Some(v) => if chunk.block_at(x, g, z) == b.c_top && b.surface_variant_frequency > 0
                && variant_noise(wx, wz, g) < b.surface_variant_frequency {
                Some((v, g))
            } else {
                None
            },
            None => None,
        }
    } else {
        None
    }
}

/// Whether the patch centred on layer `g` of column `(x, z)` of `chunk` turns the cell
/// `(i, j, k)`: within 10 columns on both axes and one layer of the centre, inside the chunk,
/// joining the patch, and holding a patchable block.
pub open spec fn in_patch(chunk: Chunk, x: int, g: int, z: int, i: int, j: int, k: int) -> bool {
    let wx = chunk.pos.x * CHUNK_SIZE + x;
    let wz = chunk.pos.z * CHUNK_SIZE + z;
    let px = i - x;
    let pz = k - z;
    &&& -10 <= px <= 10
    &&& -10 <= pz <= 10
    &&& -1 <= j - g <= 1
    &&& crate::chunk::in_chunk(i, j, k)
    &&& patch_joins(px * px + pz * pz, patch_noise(wx, wz, px, pz))
    &&& patchable(chunk.block_at(i, j, k))
}

/// Whether `after` is `before` with the patch centred on layer `g` of column `(x, z)` turned
/// into `v`: the patch's cells hold `v` and lose their rotation, the chunk needs a new mesh
/// when a cell turned, and nothing else changes.
pub open spec fn patch_applied(before: Chunk, after: Chunk, x: int, g: int, z: int, v: BlockType) -> bool {
    &&& after.wf()
    &&& after.pos == before.pos
    &&& forall|i: int, j: int, k: int| #[trigger] after.block_at(i, j, k) == if in_patch(before, x, g, z, i, j, k) {
        v
    } else {
        before.block_at(i, j, k)
    }
    &&& forall|i: int, j: int, k: int| #[trigger] after.rotation_at(i, j, k) == if in_patch(before, x, g, z, i, j, k) {
        no_rotation()
    } else {
        before.rotation_at(i, j, k)
    }
    &&& after.needs_mesh == (before.needs_mesh || exists|i: int, j: int, k: int| #[trigger] in_patch(before, x, g, z, i, j, k))
}

/// Whether `after` follows from `before` by the patch step of the column `(x, z)`.
pub open spec fn variant_step(before: Chunk, after: Chunk, terrain: TerrainSample, biomes: Seq<Biome>, x: int, z: int) -> bool {
    match patch_start(before, terrain, biomes, x, z) {
        None => after == before,
        Some((v, g)) => patch_applied(before, after, x, g, z, v),
    }
}

/// Whether `states` runs through the patch steps of the 256 columns of a chunk, in order of x
/// and then z.
pub open spec fn variant_steps(states: Seq<Chunk>, terrain: TerrainSample, biomes: Seq<Biome>, n: int) -> bool {
    &&& states.len() == n + 1
    &&& forall|c: int| 0 <= c < n ==> #[trigger] variant_step(states[c], states[c + 1], terrain, biomes, c / 16, c % 16)
}

/// The order in which the patch visits the cell at offset `(px, dy, pz)`.
spec fn patch_order(px: int, dy: int, pz: int) -> int {
    (px + 10) * 63 + (pz + 10) * 3 + (dy + 1)
}

/// The noise of a patch cell, as `patch_noise` defines it.
fn patch_noise_at(seed: u32, px: i32, pz: i32, wx: Ghost<int>, wz: Ghost<int>) -> (r: u32)
    requires
        seed == wrap32(column_hash(wx@, wz@)),
    ensures
        r == patch_noise(wx@, wz@, px as int, pz as int),
{
    let a = crate::rng::add32(seed, crate::rng::i32_bits(px));
    let b = crate::rng::mul32(a, 109739919);
    let c = crate::rng::add32(b, crate::rng::i32_bits(pz));
    let d = crate::rng::mul32(c, 715827883);
    proof {
        let h = column_hash(wx@, wz@);
        crate::rng::lemma_wrap32_add(h, px as int);
        crate::rng::lemma_wrap32_mul(h + px, 109739919);
        crate::rng::lemma_wrap32_add((h + px) * 109739919, pz as int);
        crate::rng::lemma_wrap32_mul((h + px) * 109739919 + pz, 715827883);
    }
    d % 1000
}

/// Whether a cell at squared distance `d` with noise `noise` joins a patch.
fn patch_joins_at(d: i32, noise: u32) -> (r: bool)
    requires
        0 <= d <= 200,
        noise < 1000,
    ensures
        r == patch_joins(d as int, noise as int),
{
    let v = 15 * d - noise as i32;
    d > 0 && (v < 625 || (v == 625 && (d == 45 || d == 50 || d == 52 || d == 53 || d == 58 || d == 64 || d == 65 || d == 68
        || d == 72 || d == 73 || d == 74 || d == 80 || d == 82 || d == 89 || d == 90 || d == 98 || d == 104)))
}

/// Turns the patch centred on layer `y` of column `(x, z)` into `variant`.
#[verifier::rlimit(60)]
fn apply_patch(chunk: &mut Chunk, x: i32, y: i32, z: i32, variant: BlockType)
    requires
        old(chunk).wf(),
        crate::chunk::pos_in_world(old(chunk).pos),
        0 <= x < CHUNK_SIZE,
        0 <= z < CHUNK_SIZE,
        0 <= y < CHUNK_HEIGHT,
    ensures
        patch_applied(*old(chunk), *final(chunk), x as int, y as int, z as int, variant),
{
    let ghost start = *chunk;
    let world_x = chunk.pos.x * CHUNK_SIZE + x;
    let world_z = chunk.pos.z * CHUNK_SIZE + z;
    let seed = crate::rng::SeededRng::new(world_x, world_z).seed;
    let ghost (gx, gz) = (world_x as int, world_z as int);
    assert(seed == wrap32(column_hash(gx, gz)));
    for t in 0..1323i32
        invariant
            chunk.wf(),
            chunk.pos == start.pos,
            crate::chunk::pos_in_world(start.pos),
            0 <= x < CHUNK_SIZE && 0 <= z < CHUNK_SIZE && 0 <= y < CHUNK_HEIGHT,
            gx == start.pos.x * CHUNK_SIZE + x && gz == start.pos.z * CHUNK_SIZE + z,
            seed == wrap32(column_hash(gx, gz)),
            forall|i: int, j: int, k: int| #[trigger] chunk.block_at(i, j, k) == if in_patch(start, x as int, y as int, z as int, i, j, k)
                && patch_order(i - x, j - y, k - z) < t {
                variant
            } else {
                start.block_at(i, j, k)
            },
            forall|i: int, j: int, k: int| #[trigger] chunk.rotation_at(i, j, k) == if in_patch(start, x as int, y as int, z as int, i, j, k)
                && patch_order(i - x, j - y, k - z) < t {
                no_rotation()
            } else {
                start.rotation_at(i, j, k)
            },
            chunk.needs_mesh == (start.needs_mesh || exists|i: int, j: int, k: int| #[trigger] in_patch(start, x as int, y as int, z as int, i, j, k)
                && patch_order(i - x, j - y, k - z) < t),
    {
        let px = t / 63 - 10;
        let pz = (t / 3) % 21 - 10;
        let dy = t % 3 - 1;
        assert(patch_order(px as int, dy as int, pz as int) == t);
        assert(-10 <= px <= 10 && -10 <= pz <= 10 && -1 <= dy <= 1);
        assert(0 <= px * px <= 100 && 0 <= pz * pz <= 100) by (nonlinear_arith)
            requires
                -10 <= px <= 10 && -10 <= pz <= 10,
        ;
        let dist_sq = px * px + pz * pz;
        let noise = patch_noise_at(seed, px, pz, Ghost(gx), Ghost(gz));
        let target_y = y + dy;
        let ghost before = *chunk;
        let ghost (ci, cj, ck) = ((x + px) as int, target_y as int, (z + pz) as int);
        if patch_joins_at(dist_sq, noise) && target_y >= 0 && target_y < CHUNK_HEIGHT {
            let block_at = chunk.get_block(x + px, target_y, z + pz);
            if block_at == BlockType::GrassBlock || block_at == BlockType::Dirt || block_at == BlockType::SnowyGrassBlock {
                chunk.set_block(x + px, target_y, z + pz, variant, crate::command::Rotation::none());
            }
        }
        proof {
            assert(before.block_at(ci, cj, ck) == start.block_at(ci, cj, ck));
            assert forall|i: int, j: int, k: int| #[trigger] in_patch(start, x as int, y as int, z as int, i, j, k)
                && patch_order(i - x, j - y, k - z) < t + 1 <==> (in_patch(start, x as int, y as int, z as int, i, j, k)
                && patch_order(i - x, j - y, k - z) < t) || (i == ci && j == cj && k == ck && in_patch(start, x as int, y as int, z as int, ci, cj, ck)) by {
                if patch_order(i - x, j - y, k - z) == t && -10 <= i - x <= 10 && -10 <= k - z <= 10 && -1 <= j - y <= 1 {
                    assert(i == ci && j == cj && k == ck);
                }
            }
            if chunk.needs_mesh != (start.needs_mesh || exists|i: int, j: int, k: int| #[trigger] in_patch(start, x as int, y as int, z as int, i, j, k)
                && patch_order(i - x, j - y, k - z) < t + 1) {
                if chunk.needs_mesh {
                    if before.needs_mesh {
                        let (i, j, k) = choose|i: int, j: int, k: int| #[trigger] in_patch(start, x as int, y as int, z as int, i, j, k)
                            && patch_order(i - x, j - y, k - z) < t;
                        assert(in_patch(start, x as int, y as int, z as int, i, j, k));
                    } else {
                        assert(in_patch(start, x as int, y as int, z as int, ci, cj, ck));
                    }
                } else {
                    let (i, j, k) = choose|i: int, j: int, k: int| #[trigger] in_patch(start, x as int, y as int, z as int, i, j, k)
                        && patch_order(i - x, j - y, k - z) < t + 1;
                    assert(in_patch(start, x as int, y as int, z as int, i, j, k));
                }
            }
        }
    }
    proof {
        assert forall|i: int, j: int, k: int| #[trigger] in_patch(start, x as int, y as int, z as int, i, j, k) implies patch_order(i - x, j - y, k - z) < 1323 by {}
        if chunk.needs_mesh && !start.needs_mesh {
            let (i, j, k) = choose|i: int, j: int, k: int| #[trigger] in_patch(start, x as int, y as int, z as int, i, j, k)
                && patch_order(i - x, j - y, k - z) < 1323;
            assert(in_patch(start, x as int, y as int, z as int, i, j, k));
        }
        if !chunk.needs_mesh && exists|i: int, j: int, k: int| #[trigger] in_patch(start, x as int, y as int, z as int, i, j, k) {
            let (i, j, k) = choose|i: int, j: int, k: int| #[trigger] in_patch(start, x as int, y as int, z as int, i, j, k);
            assert(in_patch(start, x as int, y as int, z as int, i, j, k) && patch_order(i - x, j - y, k - z) < 1323);
        }
    }
}


/// The noise that decides whether a patch starts on layer `y` of the world column whose hash
/// seed is `seed`.
fn variant_noise_at(seed: u32, y: i32, wx: Ghost<int>, wz: Ghost<int>) -> (r: u32)
    requires
        seed == wrap32(column_hash(wx@, wz@)),
    ensures
        r == variant_noise(wx@, wz@, y as int),
{
    let a = crate::rng::add32(seed, crate::rng::i32_bits(y));
    let b = crate::rng::mul32(a, 715827883);
    proof {
        let h = column_hash(wx@, wz@);
        crate::rng::lemma_wrap32_add(h, y as int);
        crate::rng::lemma_wrap32_mul(h + y, 715827883);
    }
    b % 1000
}

/// Runs the patch step of the column `(x, z)`.
#[verifier::rlimit(60)]
fn vary_column(chunk: &mut Chunk, terrain: &TerrainSample, biomes: &BiomeManager, x: i32, z: i32)
    requires
        old(chunk).wf(),
        crate::chunk::pos_in_world(old(chunk).pos),
        terrain.wf(biomes.biomes().len() as int),
        0 <= x < CHUNK_SIZE,
        0 <= z < CHUNK_SIZE,
    ensures
        final(chunk).wf(),
        final(chunk).pos == old(chunk).pos,
        variant_step(*old(chunk), *final(chunk), *terrain, biomes.biomes(), x as int, z as int),
{
    let ghost start = *chunk;
    let y = chunk.ground_level(x, z);
    proof {
        crate::chunk::lemma_ground_range(start, x as int, z as int, CHUNK_HEIGHT - 1);
    }
    if y < 0 {
        return;
    }
    let block = chunk.get_block(x, y, z);
    proof {
        crate::chunk::lemma_cell_index(x as int, y as int, z as int);
    }
    let idx = (x + z * CHUNK_SIZE + y * CHUNK_SIZE * CHUNK_SIZE) as usize;
    let biome = biomes.get(terrain.biomes[idx]);
    let ghost pstart = patch_start(start, *terrain, biomes.biomes(), x as int, z as int);
    assert(*biome == biomes.biomes()[terrain.biome_at(x as int, y as int, z as int)]);
    let ghost wx = start.pos.x * CHUNK_SIZE + x;
    let ghost wz = start.pos.z * CHUNK_SIZE + z;
    match biome.surface_variant {
        Some(variant) => {
            if block == biome.c_top && biome.surface_variant_frequency > 0 {
                let world_x = chunk.pos.x * CHUNK_SIZE + x;
                let world_z = chunk.pos.z * CHUNK_SIZE + z;
                let seed = crate::rng::SeededRng::new(world_x, world_z).seed;
                let noise_val = variant_noise_at(seed, y, Ghost(world_x as int), Ghost(world_z as int));
                if noise_val < biome.surface_variant_frequency {
                    assert(pstart == Some((variant, y as int)));
                    apply_patch(chunk, x, y, z, variant);
                } else {
                    assert(pstart is None);
                }
            } else {
                assert(pstart is None);
            }
        },
        None => {
            assert(pstart is None);
        },
    }
}


/// Whether `after` follows from `before` by the patch steps of all 256 columns.
pub open spec fn surface_varied(before: Chunk, after: Chunk, terrain: TerrainSample, biomes: Seq<Biome>) -> bool {
    exists|states: Seq<Chunk>|
        #[trigger] variant_steps(states, terrain, biomes, 256) && states[0] == before && states[256] == after
}

/// Grows patches of each biome's surface variant over the ground of `chunk`, column by column
/// in order of x and then z: a column whose ground is its biome's top block starts a patch
/// when its noise falls below the biome's variant frequency.
pub fn generate_surface_variants(chunk: &mut Chunk, terrain: &TerrainSample, biomes: &BiomeManager)
    requires
        old(chunk).wf(),
        crate::chunk::pos_in_world(old(chunk).pos),
        terrain.wf(biomes.biomes().len() as int),
    ensures
        final(chunk).wf(),
        final(chunk).pos == old(chunk).pos,
        surface_varied(*old(chunk), *final(chunk), *terrain, biomes.biomes()),
{
    let ghost mut states: Seq<Chunk> = seq![*chunk];
    let ghost start = *chunk;
    for x in 0..CHUNK_SIZE
        invariant
            chunk.wf(),
            chunk.pos == start.pos,
            crate::chunk::pos_in_world(start.pos),
            terrain.wf(biomes.biomes().len() as int),
            variant_steps(states, *terrain, biomes.biomes(), x * CHUNK_SIZE),
            states[0] == start,
            states.last() == *chunk,
    {
        for z in 0..CHUNK_SIZE
            invariant
                chunk.wf(),
                chunk.pos == start.pos,
                crate::chunk::pos_in_world(start.pos),
                0 <= x < CHUNK_SIZE,
                terrain.wf(biomes.biomes().len() as int),
                variant_steps(states, *terrain, biomes.biomes(), x * CHUNK_SIZE + z),
                states[0] == start,
                states.last() == *chunk,
        {
            let ghost before = *chunk;
            vary_column(chunk, terrain, biomes, x, z);
            proof {
                let n = x * CHUNK_SIZE + z;
                let old_states = states;
                states = states.push(*chunk);
                assert(n / 16 == x && n % 16 == z);
                assert forall|c: int| 0 <= c < n + 1 implies #[trigger] variant_step(states[c], states[c + 1], *terrain, biomes.biomes(), c / 16, c % 16) by {
                    if c < n {
                        assert(states[c] == old_states[c] && states[c + 1] == old_states[c + 1]);
                    } else {
                        assert(states[c] == before);
                    }
                }
            }
        }
    }
    proof {
        assert(variant_steps(states, *terrain, biomes.biomes(), 256));
    }
}

/// Whether `after` is `before` with snow laid as `generate_snow` lays it.
pub open spec fn snow_applied(before: Chunk, after: Chunk, start: int, full: int) -> bool {
    &&& after.wf()
    &&& after.pos == before.pos
    &&& forall|i: int, j: int, k: int| #[trigger] after.block_at(i, j, k) == snowed_block(before, start, full, i, j, k)
    &&& forall|i: int, j: int, k: int| #[trigger] after.rotation_at(i, j, k) == if snow_writes(before, start, full, i, j, k) {
        no_rotation()
    } else {
        before.rotation_at(i, j, k)
    }
    &&& after.needs_mesh == (before.needs_mesh || exists|i: int, j: int, k: int| #[trigger] snow_writes(before, start, full, i, j, k))
}


/// Snow turns a grass top into a full snow block only on columns whose replace draw, the world
/// column's hash modulo 100, is below 30; on every other column snowed grass becomes snowy
/// grass.
pub proof fn law_snow_blocks_need_a_low_draw(before: Chunk, after: Chunk, start: int, full: int, i: int, j: int, k: int)
    requires
        snow_applied(before, after, start, full),
    ensures
        ({
            let wx = before.pos.x * CHUNK_SIZE + i;
            let wz = before.pos.z * CHUNK_SIZE + k;
            let draw = (wrap32(wx * 9876 + wz * 5432) % 100) as int;
            &&& after.block_at(i, j, k) == BlockType::Snow && before.block_at(i, j, k) != BlockType::Snow ==> draw < 30
            &&& before.block_at(i, j, k) == BlockType::GrassBlock && after.block_at(i, j, k) != BlockType::GrassBlock
                && draw >= 30 ==> after.block_at(i, j, k) == BlockType::SnowyGrassBlock
        }),
{
    assert(after.block_at(i, j, k) == snowed_block(before, start, full, i, j, k));
}

}
