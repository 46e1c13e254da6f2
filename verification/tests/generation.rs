use minecrust::biome::{generate_snow, generate_surface_variants, BiomeManager};
use minecrust::block::BlockType;
use minecrust::chunk::{Chunk, ChunkPos, CHUNK_VOLUME};
use minecrust::command::Rotation;
use minecrust::decoration::{DecorationGenerator, FrequencyTier};
use minecrust::terrain::{TerrainCell, TerrainSample};
use minecrust::tree_generator::{generate_tree, TreeGenerator, TreeType};

fn count(c: &Chunk, t: BlockType) -> usize {
    c.blocks.iter().filter(|b| **b == t).count()
}

fn origin() -> ChunkPos {
    ChunkPos { x: 0, z: 0 }
}

#[test]
fn oak_tree_grows_in_open_air() {
    let mut c = Chunk::empty(origin());
    assert!(generate_tree(&mut c, 8, 10, 8, 12345, TreeType::Oak));
    for y in 10..14 {
        assert_eq!(c.get_block(8, y, 8), BlockType::OakLog);
    }
    assert_eq!(c.get_block(8, 14, 8), BlockType::OakLeaves);
    assert_eq!(count(&c, BlockType::OakLog), 4);
    assert_eq!(count(&c, BlockType::OakLeaves), 33);
}

#[test]
fn oak_crown_depends_on_the_seed() {
    let mut c = Chunk::empty(origin());
    assert!(generate_tree(&mut c, 8, 10, 8, 7, TreeType::Oak));
    assert_eq!(count(&c, BlockType::OakLog), 4);
    assert_eq!(count(&c, BlockType::OakLeaves), 40);
    assert_eq!(c.get_block(6, 12, 6), BlockType::OakLeaves);
}

#[test]
fn spruce_tree_grows_in_open_air() {
    let mut c = Chunk::empty(origin());
    assert!(generate_tree(&mut c, 8, 10, 8, 12345, TreeType::Spruce));
    assert_eq!(count(&c, BlockType::SpruceLog), 12);
    assert_eq!(count(&c, BlockType::SpruceLeaves), 104);
    assert_eq!(c.get_block(8, 21, 8), BlockType::SpruceLog);
    assert_eq!(c.get_block(8, 22, 8), BlockType::SpruceLeaves);
}

#[test]
fn blocked_tree_leaves_the_chunk_alone() {
    let mut c = Chunk::empty(origin());
    c.set_block(8, 12, 8, BlockType::Stone, Rotation::none());
    let before = c.blocks.clone();
    assert!(!generate_tree(&mut c, 8, 10, 8, 12345, TreeType::Oak));
    assert_eq!(c.blocks, before);
}

#[test]
fn trees_keep_their_distance() {
    let mut g = TreeGenerator::new();
    assert!(g.can_place_tree(8, 8));
    assert!(!g.can_place_tree(1, 8));
    assert!(!g.can_place_tree(8, 13));
    g.register_tree(20, 8);
    assert!(!g.can_place_tree(25, 8));
    assert!(g.can_place_tree(26, 8));
    assert!(!g.can_place_tree(22, 12));
    assert!(g.can_place_tree(8, 8));
}

#[test]
fn default_biomes() {
    let m = BiomeManager::new();
    assert_eq!(m.len(), 7);
    let names: Vec<String> = (0..m.len()).map(|i| m.get(i).name.clone()).collect();
    assert_eq!(names, vec!["grassland", "desert", "taiga", "snowy_taiga", "tundra", "oak_forest", "birch_forest"]);
    assert_eq!(m.get(2).surface_variant, Some(BlockType::Podzol));
    assert_eq!(m.get(2).surface_variant_frequency, 10);
    assert_eq!(m.get(1).c_top, BlockType::Sand);
    assert_eq!(m.get(3).c_top, BlockType::SnowyGrassBlock);
}

#[test]
fn frequency_tiers() {
    assert_eq!(DecorationGenerator::get_frequency_threshold(9600, FrequencyTier::Frequent), 9600);
    assert_eq!(DecorationGenerator::get_frequency_threshold(9600, FrequencyTier::Moderate), 9800);
    assert_eq!(DecorationGenerator::get_frequency_threshold(9600, FrequencyTier::Rare), 9900);
    assert_eq!(DecorationGenerator::get_frequency_threshold(9300, FrequencyTier::Rare), 9825);
}

#[test]
fn high_ground_gets_snow() {
    let mut c = Chunk::empty(origin());
    c.set_block(5, 100, 5, BlockType::Stone, Rotation::none());
    c.set_block(6, 10, 6, BlockType::Stone, Rotation::none());
    generate_snow(&mut c, 80, 95, "grassland");
    assert_eq!(c.get_block(5, 101, 5), BlockType::SnowLayer);
    assert_eq!(c.get_block(5, 100, 5), BlockType::Stone);
    assert_eq!(c.get_block(6, 11, 6), BlockType::Air);
}

fn flat_terrain(height: usize) -> TerrainSample {
    let mut cells = Vec::with_capacity(CHUNK_VOLUME);
    for i in 0..CHUNK_VOLUME {
        let y = i / 256;
        cells.push(if y < height { TerrainCell::Solid } else { TerrainCell::Empty });
    }
    TerrainSample { cells, biomes: vec![0; CHUNK_VOLUME] }
}

#[test]
fn flat_grassland_chunk() {
    let biomes = BiomeManager::new();
    let terrain = flat_terrain(40);
    let mut trees = TreeGenerator::new();
    let c = Chunk::new(origin(), &terrain, &biomes, 32, &mut trees);
    for x in 0..16 {
        for z in 0..16 {
            assert_eq!(c.get_block(x, 39, z), BlockType::GrassBlock);
            assert_eq!(c.get_block(x, 38, z), BlockType::Dirt);
            assert_eq!(c.get_block(x, 37, z), BlockType::Dirt);
            assert_eq!(c.get_block(x, 36, z), BlockType::Stone);
            let plant = c.get_block(x, 40, z);
            assert!(matches!(
                plant,
                BlockType::Air
                    | BlockType::ShortGrass
                    | BlockType::TallGrassBottom
                    | BlockType::Poppy
                    | BlockType::PinkTulip
                    | BlockType::TorchFlower
            ));
            let above = c.get_block(x, 41, z);
            assert!(above == BlockType::Air || (above == BlockType::TallGrassTop && plant == BlockType::TallGrassBottom));
            assert_eq!(c.get_block(x, 42, z), BlockType::Air);
        }
    }
    assert_eq!(count(&c, BlockType::OakLog), 0);
}

#[test]
fn water_below_the_water_level() {
    let biomes = BiomeManager::new();
    let mut terrain = flat_terrain(20);
    for i in 20 * 256..30 * 256 {
        terrain.cells[i] = TerrainCell::Water;
    }
    let c = Chunk::from_terrain(origin(), &terrain, &biomes, 32);
    assert_eq!(c.get_block(3, 25, 3), BlockType::Water);
    assert_eq!(c.get_block(3, 19, 3), BlockType::Dirt);
    assert_eq!(c.get_block(3, 30, 3), BlockType::Air);
}

#[test]
fn oak_forest_grows_spaced_trees() {
    let biomes = BiomeManager::new();
    let mut terrain = flat_terrain(40);
    terrain.biomes = vec![5; CHUNK_VOLUME];
    let mut trees = TreeGenerator::new();
    let c = Chunk::new(origin(), &terrain, &biomes, 32, &mut trees);
    let mut trunks = Vec::new();
    for x in 0..16 {
        for z in 0..16 {
            if c.get_block(x, 40, z) == BlockType::OakLog {
                trunks.push((x, z));
            }
        }
    }
    assert_eq!(trunks, vec![(3, 8), (9, 8)]);
    for (i, a) in trunks.iter().enumerate() {
        for b in trunks.iter().skip(i + 1) {
            assert!((a.0 - b.0).abs() >= 6 || (a.1 - b.1).abs() >= 6);
        }
    }
    assert!(!trees.can_place_tree(6, 12));
    assert!(!trees.can_place_tree(11, 4));
}

#[test]
fn trees_far_above_the_chunk_touch_nothing() {
    let mut c = Chunk::empty(origin());
    let before = c.blocks.clone();
    assert!(generate_tree(&mut c, 8, i32::MAX - 40, 8, 7, TreeType::Oak));
    assert!(generate_tree(&mut c, 8, i32::MIN + 40, 8, 12345, TreeType::Spruce));
    assert_eq!(c.blocks, before);
}

#[test]
fn tree_positions_anywhere_in_i32() {
    let mut g = TreeGenerator::new();
    assert!(g.can_place_tree(i32::MIN + 8, 8));
    assert!(!g.can_place_tree(i32::MAX, 8));
    g.register_tree(i32::MAX, i32::MAX);
    assert!(g.can_place_tree(8, 8));
    assert!(!g.within_reach(ChunkPos { x: -1000, z: 0 }));
    assert!(g.within_reach(ChunkPos { x: 1000, z: 1000 }));
    let far = ChunkPos { x: 20000, z: -20000 };
    assert!(Chunk::empty(far).get_block(0, 0, 0) == BlockType::Air);
}

#[test]
fn spawned_trees_stay_inside_the_chunk() {
    let biomes = BiomeManager::new();
    let mut terrain = flat_terrain(40);
    terrain.biomes = vec![5; CHUNK_VOLUME];
    let mut trees = TreeGenerator::new();
    let pos = ChunkPos { x: 2, z: 3 };
    let c = Chunk::new(pos, &terrain, &biomes, 32, &mut trees);
    let mut trunks = Vec::new();
    for x in 0..16 {
        for z in 0..16 {
            if c.get_block(x, 40, z) == BlockType::OakLog {
                trunks.push((pos.x * 16 + x, pos.z * 16 + z));
            }
        }
    }
    assert_eq!(trunks, vec![(36, 59), (37, 51), (43, 58)]);
    for t in trunks.iter() {
        assert!((3..=12).contains(&(t.0 - 32)) && (3..=12).contains(&(t.1 - 48)));
    }
}

#[test]
fn chunks_far_from_the_origin_are_generated() {
    let biomes = BiomeManager::new();
    let terrain = flat_terrain(40);
    let mut trees = TreeGenerator::new();
    let pos = ChunkPos { x: 10000, z: 0 };
    assert!(pos.snow_fits());
    let c = Chunk::new(pos, &terrain, &biomes, 32, &mut trees);
    assert_eq!(c.pos, pos);
    for x in 0..16 {
        for z in 0..16 {
            assert_eq!(c.get_block(x, 39, z), BlockType::GrassBlock);
            assert_eq!(c.get_block(x, 36, z), BlockType::Stone);
            assert_eq!(c.get_block(x, 42, z), BlockType::Air);
        }
    }
}

#[test]
fn decorations_and_trees_beyond_the_snow_range() {
    let biomes = BiomeManager::new();
    let mut terrain = flat_terrain(40);
    terrain.biomes = vec![5; CHUNK_VOLUME];
    let pos = ChunkPos { x: 100000, z: -100000 };
    assert!(pos.in_world());
    assert!(!pos.snow_fits());
    let mut c = Chunk::from_terrain(pos, &terrain, &biomes, 32);
    generate_surface_variants(&mut c, &terrain, &biomes);
    let mut trees = TreeGenerator::new();
    assert!(trees.within_reach(pos));
    trees.spawn_trees_for_chunk(&mut c, &terrain, &biomes, 32);
    let mut trunks = Vec::new();
    for x in 0..16 {
        for z in 0..16 {
            if c.get_block(x, 40, z) == BlockType::OakLog {
                assert!((3..=12).contains(&x) && (3..=12).contains(&z));
                trunks.push((x, z));
            }
        }
    }
    for (i, a) in trunks.iter().enumerate() {
        for b in trunks.iter().skip(i + 1) {
            assert!((a.0 - b.0).abs() >= 6 || (a.1 - b.1).abs() >= 6);
        }
    }
    let before = c.blocks.clone();
    DecorationGenerator::generate_decorations(&mut c, "tundra");
    assert_eq!(c.blocks, before);
    DecorationGenerator::generate_decorations(&mut c, "oak_forest");
    for i in 0..CHUNK_VOLUME {
        if c.blocks[i] != before[i] {
            let y = i / 256;
            assert!(y == 40 || y == 41);
            assert_eq!(before[i], BlockType::Air);
        }
    }
}

#[test]
fn snow_level_rounds_in_single_precision() {
    // Ground at 97 between altitudes 80 and 100 with noise 0: the single-precision sum reaches
    // the single-precision seven tenths, so the grass becomes a snow block.
    let mut c = Chunk::empty(ChunkPos { x: 0, z: 2 });
    c.set_block(8, 97, 12, BlockType::GrassBlock, Rotation::none());
    generate_snow(&mut c, 80, 100, "grassland");
    assert_eq!(c.get_block(8, 97, 12), BlockType::Snow);
    assert_eq!(c.get_block(8, 98, 12), BlockType::SnowLayer);
}
