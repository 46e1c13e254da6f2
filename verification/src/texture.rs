use vstd::prelude::*;
use crate::block::{BlockType, FaceDirection, kind_texture, pattern_texture};

verus! {

/// The width and height of one texture tile, in pixels.
pub const TEXTURE_SIZE: usize = 16;
/// How many tiles a row of the atlas holds.
pub const ATLAS_COLUMNS: usize = 16;
/// How many rows of tiles the atlas holds.
pub const ATLAS_ROWS: usize = 8;
/// The width of the atlas, in pixels.
pub const ATLAS_WIDTH: usize = 256;
/// The height of the atlas, in pixels.
pub const ATLAS_HEIGHT: usize = 128;
/// The number of bytes of one RGBA tile.
pub const TILE_BYTES: usize = 1024;
/// The number of bytes of the RGBA atlas.
pub const ATLAS_BYTES: usize = 131072;

/// The row and column of the atlas that tile `index` occupies: tiles fill the atlas row by
/// row.
pub open spec fn tile_cell(index: int) -> (int, int) {
    (index / ATLAS_COLUMNS as int, index % ATLAS_COLUMNS as int)
}

/// The row and column of the atlas that tile `index` occupies.
pub fn tile_position(index: usize) -> (r: (usize, usize))
    ensures
        r.0 == tile_cell(index as int).0,
        r.1 == tile_cell(index as int).1,
{
    (index / ATLAS_COLUMNS, index % ATLAS_COLUMNS)
}

/// Byte `k` of the atlas made of `tiles`: pixel `(x, y)` of the atlas shows pixel
/// `(x % 16, y % 16)` of the tile in row `y / 16` and column `x / 16`; where no tile was
/// given the atlas stays zero (transparent black).
pub open spec fn atlas_byte(tiles: Seq<Seq<u8>>, k: int) -> u8 {
    let pixel = k / 4;
    let channel = k % 4;
    let x = pixel % (ATLAS_WIDTH as int);
    let y = pixel / (ATLAS_WIDTH as int);
    let tile = (y / 16) * 16 + x / 16;
    if tile < tiles.len() {
        tiles[tile][((y % 16) * 16 + x % 16) * 4 + channel]
    } else {
        0
    }
}

/// Whether every tile is a 16 x 16 RGBA image and all of them fit in the atlas.
pub open spec fn tiles_fit(tiles: Seq<Seq<u8>>) -> bool {
    &&& tiles.len() <= ATLAS_COLUMNS * ATLAS_ROWS
    &&& forall|i: int| 0 <= i < tiles.len() ==> #[trigger] tiles[i].len() == TILE_BYTES
}

/// The views of a list of byte buffers.
pub open spec fn byte_views(v: Seq<Vec<u8>>) -> Seq<Seq<u8>> {
    v.map_values(|b: Vec<u8>| b@)
}

proof fn lemma_atlas_index(k: int)
    requires
        0 <= k < ATLAS_BYTES,
    ensures
        ({
            let pixel = k / 4;
            let channel = k % 4;
            let x = pixel % 256;
            let y = pixel / 256;
            &&& 0 <= x < 256
            &&& 0 <= y < 128
            &&& 0 <= channel < 4
            &&& 0 <= ((y % 16) * 16 + x % 16) * 4 + channel < TILE_BYTES
        }),
{
    let pixel = k / 4;
    let x = pixel % 256;
    let y = pixel / 256;
    assert(0 <= pixel < 32768);
    assert(0 <= y < 128);
    assert(0 <= (y % 16) * 16 + x % 16 < 256) by (nonlinear_arith)
        requires
            0 <= x < 256,
            0 <= y,
    ;
}

/// Every pixel of every tile shows in the atlas at its place within the tile's cell.
pub proof fn law_tiles_land_in_their_cells(tiles: Seq<Seq<u8>>, t: int, px: int, py: int, c: int)
    requires
        tiles_fit(tiles),
        0 <= t < tiles.len(),
        0 <= px < 16,
        0 <= py < 16,
        0 <= c < 4,
    ensures
        ({
            let (row, col) = tile_cell(t);
            let k = ((row * 16 + py) * (ATLAS_WIDTH as int) + col * 16 + px) * 4 + c;
            &&& 0 <= k < ATLAS_BYTES
            &&& atlas_byte(tiles, k) == tiles[t][(py * 16 + px) * 4 + c]
        }),
{
    let row = t / 16;
    let col = t % 16;
    let x = col * 16 + px;
    let y = row * 16 + py;
    let pixel = y * 256 + x;
    let k = pixel * 4 + c;
    assert(0 <= row < 8 && 0 <= col < 16 && t == row * 16 + col) by (nonlinear_arith)
        requires
            0 <= t < 128,
            row == t / 16,
            col == t % 16,
    ;
    assert(0 <= x < 256 && 0 <= y < 128) by (nonlinear_arith)
        requires
            0 <= row < 8,
            0 <= col < 16,
            0 <= px < 16,
            0 <= py < 16,
            x == col * 16 + px,
            y == row * 16 + py,
    ;
    assert(k / 4 == pixel && k % 4 == c) by (nonlinear_arith)
        requires
            k == pixel * 4 + c,
            0 <= c < 4,
    ;
    assert(pixel % 256 == x && pixel / 256 == y) by (nonlinear_arith)
        requires
            pixel == y * 256 + x,
            0 <= x < 256,
    ;
    assert(y / 16 == row && y % 16 == py && x / 16 == col && x % 16 == px) by (nonlinear_arith)
        requires
            x == col * 16 + px,
            y == row * 16 + py,
            0 <= px < 16,
            0 <= py < 16,
    ;
    assert(0 <= k < ATLAS_BYTES) by (nonlinear_arith)
        requires
            k == pixel * 4 + c,
            pixel == y * 256 + x,
            0 <= x < 256,
            0 <= y < 128,
            0 <= c < 4,
    ;
}

/// The RGBA atlas holding `tiles` in row order, 16 tiles to a row.
pub fn compose_atlas(tiles: &Vec<Vec<u8>>) -> (r: Vec<u8>)
    requires
        tiles_fit(byte_views(tiles@)),
    ensures
        r@.len() == ATLAS_BYTES,
        forall|k: int| 0 <= k < ATLAS_BYTES ==> #[trigger] r@[k] == atlas_byte(byte_views(tiles@), k),
{
    let ghost views = byte_views(tiles@);
    let mut r: Vec<u8> = Vec::new();
    let mut k: usize = 0;
    while k < ATLAS_BYTES
        invariant
            k <= ATLAS_BYTES,
            views == byte_views(tiles@),
            tiles_fit(views),
            r@.len() == k,
            forall|j: int| 0 <= j < k ==> #[trigger] r@[j] == atlas_byte(views, j),
        decreases ATLAS_BYTES - k,
    {
        proof {
            lemma_atlas_index(k as int);
        }
        let pixel = k / 4;
        let channel = k % 4;
        let x = pixel % ATLAS_WIDTH;
        let y = pixel / ATLAS_WIDTH;
        let tile = (y / 16) * 16 + x / 16;
        let byte = if tile < tiles.len() {
            let src = &tiles[tile];
            assert(views[tile as int] == src@);
            src[((y % 16) * 16 + x % 16) * 4 + channel]
        } else {
            0u8
        };
        r.push(byte);
        k = k + 1;
    }
    r
}

/// A tile that shows where a texture could not be loaded: opaque magenta.
pub fn fallback_tile() -> (r: Vec<u8>)
    ensures
        r@.len() == TILE_BYTES,
        forall|k: int| 0 <= k < TILE_BYTES ==> #[trigger] r@[k] == (if k % 4 == 1 { 0u8 } else { 255u8 }),
{
    let mut r: Vec<u8> = Vec::new();
    let mut k: usize = 0;
    while k < TILE_BYTES
        invariant
            k <= TILE_BYTES,
            r@.len() == k,
            forall|j: int| 0 <= j < k ==> #[trigger] r@[j] == (if j % 4 == 1 { 0u8 } else { 255u8 }),
        decreases TILE_BYTES - k,
    {
        if k % 4 == 1 {
            r.push(0u8);
        } else {
            r.push(255u8);
        }
        k = k + 1;
    }
    r
}

/// The corners of a tile that the six vertices of a face take, each as (right edge, bottom
/// edge): on top and bottom faces the tile is laid with its top-left corner first; on front and
/// right faces it stands upright from its bottom-left corner; on back and left faces it stands
/// upright mirrored, from its bottom-right corner.
pub open spec fn face_corners(face: FaceDirection) -> Seq<(bool, bool)> {
    match face {
        FaceDirection::Top | FaceDirection::Bottom => seq![
            (false, false),
            (false, true),
            (true, true),
            (false, false),
            (true, true),
            (true, false),
        ],
        FaceDirection::Front | FaceDirection::Right => seq![
            (false, true),
            (false, false),
            (true, false),
            (false, true),
            (true, false),
            (true, true),
        ],
        FaceDirection::Back | FaceDirection::Left => seq![
            (true, true),
            (false, true),
            (false, false),
            (true, true),
            (false, false),
            (true, false),
        ],
    }
}

/// The two triangles of every face together show the whole tile: each of its four corners is
/// taken by some vertex.
pub proof fn law_faces_show_whole_tiles(face: FaceDirection, right: bool, bottom: bool)
    ensures
        exists|i: int| 0 <= i < 6 && #[trigger] face_corners(face)[i] == (right, bottom),
{
    let c = face_corners(face);
    if c[0] == (right, bottom) {
    } else if c[1] == (right, bottom) {
    } else if c[2] == (right, bottom) {
    } else {
        assert(c[5] == (right, bottom));
    }
}

/// The corners of a tile that the six vertices of `face` take, each as (right edge, bottom
/// edge).
pub fn uv_corners(face: FaceDirection) -> (r: [(bool, bool); 6])
    ensures
        r@ == face_corners(face),
{
    let r = match face {
        FaceDirection::Top | FaceDirection::Bottom => [
            (false, false),
            (false, true),
            (true, true),
            (false, false),
            (true, true),
            (true, false),
        ],
        FaceDirection::Front | FaceDirection::Right => [
            (false, true),
            (false, false),
            (true, false),
            (false, true),
            (true, false),
            (true, true),
        ],
        FaceDirection::Back | FaceDirection::Left => [
            (true, true),
            (false, true),
            (false, false),
            (true, true),
            (false, false),
            (true, false),
        ],
    };
    assert(r@ =~= face_corners(face));
    r
}

/// Which colour a block is tinted with.
#[derive(Clone, Copy, Debug, PartialEq, Eq, Structural)]
pub enum TintSource {
    /// The grass colour map.
    Grass,
    /// The foliage colour map.
    Foliage,
    /// The fixed blue of water.
    Water,
    /// No tint: white.
    Untinted,
}

/// The tint of a block kind: grasses take the grass colour, leaves and ferns the foliage
/// colour, water its blue, and every other kind none.
pub open spec fn kind_tint(block: BlockType) -> TintSource {
    match block {
        BlockType::GrassBlock | BlockType::ShortGrass | BlockType::TallGrassTop
        | BlockType::TallGrassBottom => TintSource::Grass,
        BlockType::OakLeaves | BlockType::SpruceLeaves | BlockType::BirchLeaves
        | BlockType::JungleLeaves | BlockType::Fern | BlockType::LargeFernBottom
        | BlockType::LargeFernTop => TintSource::Foliage,
        BlockType::Water => TintSource::Water,
        _ => TintSource::Untinted,
    }
}

/// The tint of a face of a full cube: grass blocks tint their top only.
pub open spec fn face_tint(block: BlockType, face: FaceDirection) -> TintSource {
    match block {
        BlockType::GrassBlock | BlockType::SnowyGrassBlock => if face == FaceDirection::Top {
            kind_tint(block)
        } else {
            TintSource::Untinted
        },
        _ => kind_tint(block),
    }
}

/// The tint of a block kind.
pub fn get_tint(block: BlockType) -> (r: TintSource)
    ensures
        r == kind_tint(block),
{
    match block {
        BlockType::GrassBlock | BlockType::ShortGrass | BlockType::TallGrassTop
        | BlockType::TallGrassBottom => TintSource::Grass,
        BlockType::OakLeaves | BlockType::SpruceLeaves | BlockType::BirchLeaves
        | BlockType::JungleLeaves | BlockType::Fern | BlockType::LargeFernBottom
        | BlockType::LargeFernTop => TintSource::Foliage,
        BlockType::Water => TintSource::Water,
        _ => TintSource::Untinted,
    }
}

/// The tint of a face of a full cube of `block`.
pub fn get_face_tint(block: BlockType, face: FaceDirection) -> (r: TintSource)
    ensures
        r == face_tint(block, face),
{
    match block {
        BlockType::GrassBlock | BlockType::SnowyGrassBlock => {
            if face == FaceDirection::Top {
                get_tint(block)
            } else {
                TintSource::Untinted
            }
        },
        _ => get_tint(block),
    }
}


/// Which kinds are tinted and how: the grass block and the grass plants (short grass and both
/// halves of tall grass) take the grass colour; the four kinds of leaves and the ferns take the
/// foliage colour; water takes its blue; no other kind is tinted. On full cubes the grass block
/// tints only its top, snowy grass nothing, and every other kind each face as the kind.
pub proof fn law_tints_by_kind(b: BlockType, f: FaceDirection)
    ensures
        face_tint(BlockType::GrassBlock, f) == if f == FaceDirection::Top { TintSource::Grass } else { TintSource::Untinted },
        face_tint(BlockType::SnowyGrassBlock, f) == TintSource::Untinted,
        b != BlockType::GrassBlock && b != BlockType::SnowyGrassBlock ==> face_tint(b, f) == kind_tint(b),
        (kind_tint(b) == TintSource::Grass) <==> (b == BlockType::GrassBlock || b == BlockType::ShortGrass
            || b == BlockType::TallGrassTop || b == BlockType::TallGrassBottom),
        (kind_tint(b) == TintSource::Foliage) <==> (b == BlockType::OakLeaves || b == BlockType::SpruceLeaves
            || b == BlockType::BirchLeaves || b == BlockType::JungleLeaves || b == BlockType::Fern
            || b == BlockType::LargeFernBottom || b == BlockType::LargeFernTop),
        (kind_tint(b) == TintSource::Water) <==> b == BlockType::Water,
{
}


/// The image file of each tile of the atlas, in the order the tiles are laid out.
pub open spec fn atlas_images() -> Seq<Seq<char>> {
    seq![
        "block/stone.png"@,
        "block/dirt.png"@,
        "block/grass_block_side.png"@,
        "block/grass_block_top.png"@,
        "block/oak_log.png"@,
        "block/oak_log_top.png"@,
        "block/oak_leaves.png"@,
        "block/water_still.png"@,
        "block/snow.png"@,
        "block/grass_block_snow.png"@,
        "block/sand.png"@,
        "block/spruce_log.png"@,
        "block/spruce_log_top.png"@,
        "block/spruce_leaves.png"@,
        "block/birch_log.png"@,
        "block/birch_log_top.png"@,
        "block/birch_leaves.png"@,
        "block/brown_mushroom.png"@,
        "block/poppy.png"@,
        "block/short_grass.png"@,
        "block/tall_grass_top.png"@,
        "block/dead_bush.png"@,
        "block/red_mushroom.png"@,
        "block/tall_dry_grass.png"@,
        "block/torchflower.png"@,
        "block/pink_tulip.png"@,
        "block/short_dry_grass.png"@,
        "block/tall_grass_bottom.png"@,
        "block/podzol_top.png"@,
        "block/podzol_side.png"@,
        "block/fern.png"@,
        "block/large_fern_top.png"@,
        "block/large_fern_bottom.png"@,
        "block/sweet_berry_bush_stage2.png"@,
        "block/sweet_berry_bush_stage3.png"@,
        "block/cactus_side.png"@,
        "block/cactus_top.png"@,
        "block/cactus_bottom.png"@,
        "block/cactus_flower.png"@,
        "block/jungle_log.png"@,
        "block/jungle_log_top.png"@,
        "block/jungle_leaves.png"@,
        "block/oak_planks.png"@,
        "block/spruce_planks.png"@,
        "block/birch_planks.png"@,
        "block/jungle_planks.png"@,
        "block/acacia_planks.png"@,
        "block/dark_oak_planks.png"@,
        "block/mangrove_planks.png"@,
        "block/cherry_planks.png"@,
        "block/bamboo_planks.png"@,
        "block/crimson_planks.png"@,
        "block/warped_planks.png"@,
        "block/pale_oak_planks.png"@,
        "block/cobblestone.png"@,
        "block/mossy_cobblestone.png"@,
        "block/stone_bricks.png"@,
        "block/chiseled_stone_bricks.png"@,
        "block/mossy_stone_bricks.png"@,
        "block/smooth_stone.png"@,
        "block/sandstone.png"@,
        "block/sandstone_top.png"@,
        "block/sandstone_bottom.png"@,
        "block/chiseled_sandstone.png"@,
        "block/terracotta.png"@,
        "block/black_terracotta.png"@,
        "block/blue_terracotta.png"@,
        "block/brown_terracotta.png"@,
        "block/cyan_terracotta.png"@,
        "block/gray_terracotta.png"@,
        "block/green_terracotta.png"@,
        "block/light_blue_terracotta.png"@,
        "block/light_gray_terracotta.png"@,
        "block/lime_terracotta.png"@,
        "block/magenta_terracotta.png"@,
        "block/orange_terracotta.png"@,
        "block/pink_terracotta.png"@,
        "block/purple_terracotta.png"@,
        "block/red_terracotta.png"@,
        "block/white_terracotta.png"@,
        "block/yellow_terracotta.png"@,
        "block/black_glazed_terracotta.png"@,
        "block/blue_glazed_terracotta.png"@,
        "block/brown_glazed_terracotta.png"@,
        "block/cyan_glazed_terracotta.png"@,
        "block/gray_glazed_terracotta.png"@,
        "block/green_glazed_terracotta.png"@,
        "block/light_blue_glazed_terracotta.png"@,
        "block/light_gray_glazed_terracotta.png"@,
        "block/lime_glazed_terracotta.png"@,
        "block/magenta_glazed_terracotta.png"@,
        "block/orange_glazed_terracotta.png"@,
        "block/pink_glazed_terracotta.png"@,
        "block/purple_glazed_terracotta.png"@,
        "block/red_glazed_terracotta.png"@,
        "block/white_glazed_terracotta.png"@,
        "block/yellow_glazed_terracotta.png"@,
        "block/copper_block.png"@,
        "block/diamond_block.png"@,
        "block/emerald_block.png"@,
        "block/gold_block.png"@,
        "block/iron_block.png"@,
        "block/lapis_block.png"@,
    ]
}

/// The images a block kind shows: on top, underneath and on its four sides.
pub open spec fn kind_images(b: BlockType) -> (Seq<char>, Seq<char>, Seq<char>) {
    match b {
        BlockType::GrassBlock => ("block/grass_block_top.png"@, "block/dirt.png"@, "block/grass_block_side.png"@),
        BlockType::SnowyGrassBlock => ("block/snow.png"@, "block/dirt.png"@, "block/grass_block_snow.png"@),
        BlockType::Dirt => ("block/dirt.png"@, "block/dirt.png"@, "block/dirt.png"@),
        BlockType::Podzol => ("block/podzol_top.png"@, "block/dirt.png"@, "block/podzol_side.png"@),
        BlockType::Stone => ("block/stone.png"@, "block/stone.png"@, "block/stone.png"@),
        BlockType::Sand => ("block/sand.png"@, "block/sand.png"@, "block/sand.png"@),
        BlockType::OakLog => ("block/oak_log_top.png"@, "block/oak_log_top.png"@, "block/oak_log.png"@),
        BlockType::SpruceLog => ("block/spruce_log_top.png"@, "block/spruce_log_top.png"@, "block/spruce_log.png"@),
        BlockType::BirchLog => ("block/birch_log_top.png"@, "block/birch_log_top.png"@, "block/birch_log.png"@),
        BlockType::JungleLog => ("block/jungle_log_top.png"@, "block/jungle_log_top.png"@, "block/jungle_log.png"@),
        BlockType::OakLeaves => ("block/oak_leaves.png"@, "block/oak_leaves.png"@, "block/oak_leaves.png"@),
        BlockType::SpruceLeaves => ("block/spruce_leaves.png"@, "block/spruce_leaves.png"@, "block/spruce_leaves.png"@),
        BlockType::BirchLeaves => ("block/birch_leaves.png"@, "block/birch_leaves.png"@, "block/birch_leaves.png"@),
        BlockType::JungleLeaves => ("block/jungle_leaves.png"@, "block/jungle_leaves.png"@, "block/jungle_leaves.png"@),
        BlockType::OakPlanks => ("block/oak_planks.png"@, "block/oak_planks.png"@, "block/oak_planks.png"@),
        BlockType::Spruceplanks => ("block/spruce_planks.png"@, "block/spruce_planks.png"@, "block/spruce_planks.png"@),
        BlockType::BirchPlanks => ("block/birch_planks.png"@, "block/birch_planks.png"@, "block/birch_planks.png"@),
        BlockType::JunglePlanks => ("block/jungle_planks.png"@, "block/jungle_planks.png"@, "block/jungle_planks.png"@),
        BlockType::AcaciaPlanks => ("block/acacia_planks.png"@, "block/acacia_planks.png"@, "block/acacia_planks.png"@),
        BlockType::DarkOakPlanks => ("block/dark_oak_planks.png"@, "block/dark_oak_planks.png"@, "block/dark_oak_planks.png"@),
        BlockType::MangorvePlanks => ("block/mangrove_planks.png"@, "block/mangrove_planks.png"@, "block/mangrove_planks.png"@),
        BlockType::CherryPlanks => ("block/cherry_planks.png"@, "block/cherry_planks.png"@, "block/cherry_planks.png"@),
        BlockType::BambooPlanks => ("block/bamboo_planks.png"@, "block/bamboo_planks.png"@, "block/bamboo_planks.png"@),
        BlockType::CrimsonPlanks => ("block/crimson_planks.png"@, "block/crimson_planks.png"@, "block/crimson_planks.png"@),
        BlockType::WarpedPlanks => ("block/warped_planks.png"@, "block/warped_planks.png"@, "block/warped_planks.png"@),
        BlockType::PaleOakPlanks => ("block/pale_oak_planks.png"@, "block/pale_oak_planks.png"@, "block/pale_oak_planks.png"@),
        BlockType::Cobblestone => ("block/cobblestone.png"@, "block/cobblestone.png"@, "block/cobblestone.png"@),
        BlockType::MossyCobblestone => ("block/mossy_cobblestone.png"@, "block/mossy_cobblestone.png"@, "block/mossy_cobblestone.png"@),
        BlockType::StoneBricks => ("block/stone_bricks.png"@, "block/stone_bricks.png"@, "block/stone_bricks.png"@),
        BlockType::ChiseledStoneBricks => ("block/chiseled_stone_bricks.png"@, "block/chiseled_stone_bricks.png"@, "block/chiseled_stone_bricks.png"@),
        BlockType::MossyStoneBricks => ("block/mossy_stone_bricks.png"@, "block/mossy_stone_bricks.png"@, "block/mossy_stone_bricks.png"@),
        BlockType::SmoothStone => ("block/smooth_stone.png"@, "block/smooth_stone.png"@, "block/smooth_stone.png"@),
        BlockType::Sandstone => ("block/sandstone_top.png"@, "block/sandstone_bottom.png"@, "block/sandstone.png"@),
        BlockType::ChiseledSandstone => ("block/sandstone_top.png"@, "block/sandstone_bottom.png"@, "block/chiseled_sandstone.png"@),
        BlockType::CopperBlock => ("block/copper_block.png"@, "block/copper_block.png"@, "block/copper_block.png"@),
        BlockType::DiamondBlock => ("block/diamond_block.png"@, "block/diamond_block.png"@, "block/diamond_block.png"@),
        BlockType::EmeraldBlock => ("block/emerald_block.png"@, "block/emerald_block.png"@, "block/emerald_block.png"@),
        BlockType::GoldBlock => ("block/gold_block.png"@, "block/gold_block.png"@, "block/gold_block.png"@),
        BlockType::IronBlock => ("block/iron_block.png"@, "block/iron_block.png"@, "block/iron_block.png"@),
        BlockType::LapisBlock => ("block/lapis_block.png"@, "block/lapis_block.png"@, "block/lapis_block.png"@),
        BlockType::Terracotta => ("block/terracotta.png"@, "block/terracotta.png"@, "block/terracotta.png"@),
        BlockType::BlackTerracotta => ("block/black_terracotta.png"@, "block/black_terracotta.png"@, "block/black_terracotta.png"@),
        BlockType::BlueTerracotta => ("block/blue_terracotta.png"@, "block/blue_terracotta.png"@, "block/blue_terracotta.png"@),
        BlockType::BrownTerracotta => ("block/brown_terracotta.png"@, "block/brown_terracotta.png"@, "block/brown_terracotta.png"@),
        BlockType::CyanTerracotta => ("block/cyan_terracotta.png"@, "block/cyan_terracotta.png"@, "block/cyan_terracotta.png"@),
        BlockType::GrayTerracotta => ("block/gray_terracotta.png"@, "block/gray_terracotta.png"@, "block/gray_terracotta.png"@),
        BlockType::GreenTerracotta => ("block/green_terracotta.png"@, "block/green_terracotta.png"@, "block/green_terracotta.png"@),
        BlockType::LightBlueTerracotta => ("block/light_blue_terracotta.png"@, "block/light_blue_terracotta.png"@, "block/light_blue_terracotta.png"@),
        BlockType::LightGrayTerracotta => ("block/light_gray_terracotta.png"@, "block/light_gray_terracotta.png"@, "block/light_gray_terracotta.png"@),
        BlockType::LimeTerracotta => ("block/lime_terracotta.png"@, "block/lime_terracotta.png"@, "block/lime_terracotta.png"@),
        BlockType::MagentaTerracotta => ("block/magenta_terracotta.png"@, "block/magenta_terracotta.png"@, "block/magenta_terracotta.png"@),
        BlockType::OrangeTerracotta => ("block/orange_terracotta.png"@, "block/orange_terracotta.png"@, "block/orange_terracotta.png"@),
        BlockType::PinkTerracotta => ("block/pink_terracotta.png"@, "block/pink_terracotta.png"@, "block/pink_terracotta.png"@),
        BlockType::PurpleTerracotta => ("block/purple_terracotta.png"@, "block/purple_terracotta.png"@, "block/purple_terracotta.png"@),
        BlockType::RedTerracotta => ("block/red_terracotta.png"@, "block/red_terracotta.png"@, "block/red_terracotta.png"@),
        BlockType::WhiteTerracotta => ("block/white_terracotta.png"@, "block/white_terracotta.png"@, "block/white_terracotta.png"@),
        BlockType::YellowTerracotta => ("block/yellow_terracotta.png"@, "block/yellow_terracotta.png"@, "block/yellow_terracotta.png"@),
        BlockType::BlackGlazedTerracotta => ("block/black_glazed_terracotta.png"@, "block/black_glazed_terracotta.png"@, "block/black_glazed_terracotta.png"@),
        BlockType::BlueGlazedTerracotta => ("block/blue_glazed_terracotta.png"@, "block/blue_glazed_terracotta.png"@, "block/blue_glazed_terracotta.png"@),
        BlockType::BrownGlazedTerracotta => ("block/brown_glazed_terracotta.png"@, "block/brown_glazed_terracotta.png"@, "block/brown_glazed_terracotta.png"@),
        BlockType::CyanGlazedTerracotta => ("block/cyan_glazed_terracotta.png"@, "block/cyan_glazed_terracotta.png"@, "block/cyan_glazed_terracotta.png"@),
        BlockType::GrayGlazedTerracotta => ("block/gray_glazed_terracotta.png"@, "block/gray_glazed_terracotta.png"@, "block/gray_glazed_terracotta.png"@),
        BlockType::GreenGlazedTerracotta => ("block/green_glazed_terracotta.png"@, "block/green_glazed_terracotta.png"@, "block/green_glazed_terracotta.png"@),
        BlockType::LightBlueGlazedTerracotta => ("block/light_blue_glazed_terracotta.png"@, "block/light_blue_glazed_terracotta.png"@, "block/light_blue_glazed_terracotta.png"@),
        BlockType::LightGrayGlazedTerracotta => ("block/light_gray_glazed_terracotta.png"@, "block/light_gray_glazed_terracotta.png"@, "block/light_gray_glazed_terracotta.png"@),
        BlockType::LimeGlazedTerracotta => ("block/lime_glazed_terracotta.png"@, "block/lime_glazed_terracotta.png"@, "block/lime_glazed_terracotta.png"@),
        BlockType::MagentaGlazedTerracotta => ("block/magenta_glazed_terracotta.png"@, "block/magenta_glazed_terracotta.png"@, "block/magenta_glazed_terracotta.png"@),
        BlockType::OrangeGlazedTerracotta => ("block/orange_glazed_terracotta.png"@, "block/orange_glazed_terracotta.png"@, "block/orange_glazed_terracotta.png"@),
        BlockType::PinkGlazedTerracotta => ("block/pink_glazed_terracotta.png"@, "block/pink_glazed_terracotta.png"@, "block/pink_glazed_terracotta.png"@),
        BlockType::PurpleGlazedTerracotta => ("block/purple_glazed_terracotta.png"@, "block/purple_glazed_terracotta.png"@, "block/purple_glazed_terracotta.png"@),
        BlockType::RedGlazedTerracotta => ("block/red_glazed_terracotta.png"@, "block/red_glazed_terracotta.png"@, "block/red_glazed_terracotta.png"@),
        BlockType::WhiteGlazedTerracotta => ("block/white_glazed_terracotta.png"@, "block/white_glazed_terracotta.png"@, "block/white_glazed_terracotta.png"@),
        BlockType::YellowGlazedTerracotta => ("block/yellow_glazed_terracotta.png"@, "block/yellow_glazed_terracotta.png"@, "block/yellow_glazed_terracotta.png"@),
        BlockType::Water => ("block/water_still.png"@, "block/water_still.png"@, "block/water_still.png"@),
        BlockType::Snow => ("block/snow.png"@, "block/snow.png"@, "block/snow.png"@),
        BlockType::SnowLayer => ("block/snow.png"@, "block/snow.png"@, "block/snow.png"@),
        BlockType::BrownMushroom => ("block/brown_mushroom.png"@, "block/brown_mushroom.png"@, "block/brown_mushroom.png"@),
        BlockType::RedMushroom => ("block/red_mushroom.png"@, "block/red_mushroom.png"@, "block/red_mushroom.png"@),
        BlockType::Poppy => ("block/poppy.png"@, "block/poppy.png"@, "block/poppy.png"@),
        BlockType::PinkTulip => ("block/pink_tulip.png"@, "block/pink_tulip.png"@, "block/pink_tulip.png"@),
        BlockType::TorchFlower => ("block/torchflower.png"@, "block/torchflower.png"@, "block/torchflower.png"@),
        BlockType::ShortGrass => ("block/short_grass.png"@, "block/short_grass.png"@, "block/short_grass.png"@),
        BlockType::TallGrassTop => ("block/tall_grass_top.png"@, "block/tall_grass_top.png"@, "block/tall_grass_top.png"@),
        BlockType::TallGrassBottom => ("block/tall_grass_bottom.png"@, "block/tall_grass_bottom.png"@, "block/tall_grass_bottom.png"@),
        BlockType::TallDryGrass => ("block/tall_dry_grass.png"@, "block/tall_dry_grass.png"@, "block/tall_dry_grass.png"@),
        BlockType::ShortDryGrass => ("block/short_dry_grass.png"@, "block/short_dry_grass.png"@, "block/short_dry_grass.png"@),
        BlockType::DeadBush => ("block/dead_bush.png"@, "block/dead_bush.png"@, "block/dead_bush.png"@),
        BlockType::Fern => ("block/fern.png"@, "block/fern.png"@, "block/fern.png"@),
        BlockType::LargeFernTop => ("block/large_fern_top.png"@, "block/large_fern_top.png"@, "block/large_fern_top.png"@),
        BlockType::LargeFernBottom => ("block/large_fern_bottom.png"@, "block/large_fern_bottom.png"@, "block/large_fern_bottom.png"@),
        BlockType::Cactus => ("block/cactus_top.png"@, "block/cactus_bottom.png"@, "block/cactus_side.png"@),
        BlockType::CactusFlower => ("block/cactus_flower.png"@, "block/cactus_flower.png"@, "block/cactus_flower.png"@),
        BlockType::SweetBerryBushStage1 => ("block/sweet_berry_bush_stage2.png"@, "block/sweet_berry_bush_stage2.png"@, "block/sweet_berry_bush_stage2.png"@),
        BlockType::SweetBerryBushStage2 => ("block/sweet_berry_bush_stage3.png"@, "block/sweet_berry_bush_stage3.png"@, "block/sweet_berry_bush_stage3.png"@),
        BlockType::Air => ("block/stone.png"@, "block/stone.png"@, "block/stone.png"@),
    }
}

/// Each face of each block kind shows the image meant for it: the grass block the grass top
/// above, dirt below and the grass side around; logs their rings on top and bottom and bark
/// around; flowers, plants and plain blocks their own image on every face.
pub proof fn law_faces_show_their_images(b: BlockType, f: FaceDirection)
    ensures
        pattern_texture(kind_texture(b), f) < atlas_images().len(),
        atlas_images()[pattern_texture(kind_texture(b), f) as int] == if f == FaceDirection::Top {
            kind_images(b).0
        } else if f == FaceDirection::Bottom {
            kind_images(b).1
        } else {
            kind_images(b).2
        },
{
}

}
