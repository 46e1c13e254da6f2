use minecrust::block::{BlockType, FaceDirection, RenderType};
use minecrust::chunk::{Chunk, ChunkPos};
use minecrust::command::Rotation;
use minecrust::mesh_builder::MeshBuilder;
use minecrust::texture::{
    compose_atlas, fallback_tile, get_face_tint, get_tint, tile_position, uv_corners, TintSource, ATLAS_BYTES,
};

fn origin() -> ChunkPos {
    ChunkPos { x: 0, z: 0 }
}

#[test]
fn face_rules() {
    assert!(MeshBuilder::should_render_face(BlockType::Stone, BlockType::Air));
    assert!(MeshBuilder::should_render_face(BlockType::Stone, BlockType::Water));
    assert!(MeshBuilder::should_render_face(BlockType::Stone, BlockType::OakLeaves));
    assert!(!MeshBuilder::should_render_face(BlockType::Stone, BlockType::Dirt));
    assert!(MeshBuilder::should_render_face(BlockType::Water, BlockType::Air));
    assert!(!MeshBuilder::should_render_face(BlockType::Water, BlockType::Water));
    assert!(!MeshBuilder::should_render_face(BlockType::Water, BlockType::OakLeaves));
}

#[test]
fn lone_cube_shows_every_face() {
    let mut c = Chunk::empty(origin());
    c.set_block(5, 5, 5, BlockType::Stone, Rotation::none());
    let faces = MeshBuilder::visible_faces(&c, 5, 5, 5);
    assert_eq!(faces.len(), 6);
    assert_eq!(faces[0], FaceDirection::Top);
    assert_eq!(faces[5], FaceDirection::Left);
}

#[test]
fn buried_faces_are_hidden() {
    let mut c = Chunk::empty(origin());
    c.set_block(5, 5, 5, BlockType::Stone, Rotation::none());
    c.set_block(5, 6, 5, BlockType::Dirt, Rotation::none());
    c.set_block(6, 5, 5, BlockType::OakLeaves, Rotation::none());
    let faces = MeshBuilder::visible_faces(&c, 5, 5, 5);
    assert_eq!(
        faces,
        vec![FaceDirection::Bottom, FaceDirection::Front, FaceDirection::Back, FaceDirection::Right, FaceDirection::Left]
    );
}

#[test]
fn mesh_plan_lists_non_air_cells_in_walk_order() {
    let mut c = Chunk::empty(origin());
    c.set_block(1, 0, 0, BlockType::Stone, Rotation::none());
    c.set_block(0, 1, 0, BlockType::Fern, Rotation::none());
    c.set_block(0, 0, 1, BlockType::Cactus, Rotation::none());
    let plan = MeshBuilder::plan_chunk_mesh(&c);
    assert_eq!(plan.len(), 3);
    assert_eq!((plan[0].x, plan[0].y, plan[0].z, plan[0].block), (0, 0, 1, BlockType::Cactus));
    assert_eq!(plan[0].render_type, RenderType::ScaledCube);
    assert!(plan[0].faces.is_empty());
    assert_eq!((plan[1].x, plan[1].y, plan[1].z, plan[1].block), (0, 1, 0, BlockType::Fern));
    assert_eq!(plan[1].render_type, RenderType::CrossPlant);
    assert_eq!((plan[2].x, plan[2].y, plan[2].z, plan[2].block), (1, 0, 0, BlockType::Stone));
    assert_eq!(plan[2].faces.len(), 6);
}

#[test]
fn tile_positions() {
    assert_eq!(tile_position(0), (0, 0));
    assert_eq!(tile_position(17), (1, 1));
    assert_eq!(tile_position(101), (6, 5));
}

#[test]
fn atlas_places_tiles_row_by_row() {
    let red: Vec<u8> = (0..1024).map(|i| if i % 4 == 0 || i % 4 == 3 { 255 } else { 0 }).collect();
    let mut numbered = vec![0u8; 1024];
    for (i, b) in numbered.iter_mut().enumerate() {
        *b = (i / 4) as u8;
    }
    let mut tiles = vec![red.clone(); 17];
    tiles[16] = numbered.clone();
    let atlas = compose_atlas(&tiles);
    assert_eq!(atlas.len(), ATLAS_BYTES);
    assert_eq!(&atlas[0..4], &[255, 0, 0, 255]);
    // Tile 16 starts the second row of tiles, at pixel (0, 16).
    let at = |x: usize, y: usize| ((y * 256 + x) * 4) as usize;
    assert_eq!(atlas[at(0, 16)], numbered[0]);
    assert_eq!(atlas[at(3, 18)], numbered[(2 * 16 + 3) * 4]);
    // No tile was given for the cell of tile 17.
    assert_eq!(&atlas[at(16, 16)..at(16, 16) + 4], &[0, 0, 0, 0]);
}

#[test]
fn fallback_tile_is_magenta() {
    let t = fallback_tile();
    assert_eq!(t.len(), 1024);
    assert_eq!(&t[0..4], &[255, 0, 255, 255]);
    assert_eq!(&t[1020..1024], &[255, 0, 255, 255]);
}

#[test]
fn tints() {
    assert_eq!(get_tint(BlockType::GrassBlock), TintSource::Grass);
    assert_eq!(get_tint(BlockType::Fern), TintSource::Foliage);
    assert_eq!(get_tint(BlockType::Water), TintSource::Water);
    assert_eq!(get_tint(BlockType::Stone), TintSource::Untinted);
    assert_eq!(get_face_tint(BlockType::GrassBlock, FaceDirection::Top), TintSource::Grass);
    assert_eq!(get_face_tint(BlockType::GrassBlock, FaceDirection::Left), TintSource::Untinted);
    assert_eq!(get_face_tint(BlockType::SnowyGrassBlock, FaceDirection::Top), TintSource::Untinted);
    assert_eq!(get_face_tint(BlockType::OakLeaves, FaceDirection::Bottom), TintSource::Foliage);
}

#[test]
fn every_face_shows_the_whole_tile() {
    let faces = [
        FaceDirection::Top,
        FaceDirection::Bottom,
        FaceDirection::Front,
        FaceDirection::Back,
        FaceDirection::Right,
        FaceDirection::Left,
    ];
    for face in faces {
        let corners = uv_corners(face);
        for corner in [(false, false), (false, true), (true, false), (true, true)] {
            assert!(corners.contains(&corner));
        }
    }
    assert_eq!(uv_corners(FaceDirection::Top)[1], (false, true));
    assert_eq!(uv_corners(FaceDirection::Front)[0], (false, true));
    assert_eq!(uv_corners(FaceDirection::Left)[0], (true, true));
}
