use minecrust::block::BlockType;
use minecrust::chunk::{Chunk, ChunkPos, CHUNK_HEIGHT, CHUNK_SIZE};
use minecrust::command::Rotation;
use minecrust::input::{
    apply_edit, determine_face, handle_event, is_exposed, locate, neighbours, plan_edit, BlockPos, EditAction,
    GameMode, InputEvent,
};
use minecrust::world::{beyond_unload_distance, chunks_in_view};

fn origin() -> ChunkPos {
    ChunkPos { x: 0, z: 0 }
}

#[test]
fn empty_chunk_is_air() {
    let c = Chunk::empty(origin());
    assert_eq!(c.get_block(0, 0, 0), BlockType::Air);
    assert_eq!(c.get_block(15, 159, 15), BlockType::Air);
    assert_eq!(c.blocks.len(), (CHUNK_SIZE * CHUNK_SIZE * CHUNK_HEIGHT) as usize);
    assert!(c.needs_mesh);
}

#[test]
fn a_read_gives_back_the_last_write() {
    let mut c = Chunk::empty(origin());
    c.set_block(1, 2, 3, BlockType::Stone, Rotation::none());
    assert_eq!(c.get_block(1, 2, 3), BlockType::Stone);
    assert_eq!(c.get_block(3, 2, 1), BlockType::Air);
    c.set_block(1, 2, 3, BlockType::Dirt, Rotation::none());
    assert_eq!(c.get_block(1, 2, 3), BlockType::Dirt);
}

#[test]
fn writes_outside_the_chunk_are_ignored() {
    let mut c = Chunk::empty(origin());
    c.needs_mesh = false;
    c.set_block(16, 0, 0, BlockType::Stone, Rotation::none());
    c.set_block(0, -1, 0, BlockType::Stone, Rotation::none());
    c.set_block(0, 160, 0, BlockType::Stone, Rotation::none());
    assert!(c.blocks.iter().all(|b| *b == BlockType::Air));
    assert!(!c.needs_mesh);
    assert_eq!(c.get_block(-1, 0, 0), BlockType::Air);
}

#[test]
fn rotations_are_kept_for_rotated_blocks_only() {
    let mut c = Chunk::empty(origin());
    let turn = Rotation { x: 90, y: 0, z: 0 };
    c.set_block(4, 4, 4, BlockType::OakLog, turn);
    assert_eq!(c.get_rotation(4, 4, 4), turn);
    assert_eq!(c.get_rotation(4, 5, 4), Rotation::none());
    c.set_block(4, 4, 4, BlockType::Air, turn);
    assert_eq!(c.get_rotation(4, 4, 4), Rotation::none());
    c.set_block(4, 4, 4, BlockType::OakLog, turn);
    c.set_block(4, 4, 4, BlockType::OakLog, Rotation::none());
    assert_eq!(c.get_rotation(4, 4, 4), Rotation::none());
    assert!(c.rotations.is_empty());
}

#[test]
fn ground_and_surface_levels() {
    let mut c = Chunk::empty(origin());
    assert_eq!(c.ground_level(2, 2), -1);
    assert_eq!(c.surface_level(2, 2), -1);
    c.set_block(2, 10, 2, BlockType::Stone, Rotation::none());
    c.set_block(2, 11, 2, BlockType::Water, Rotation::none());
    assert_eq!(c.ground_level(2, 2), 10);
    assert_eq!(c.surface_level(2, 2), 11);
}

#[test]
fn locating_blocks_rounds_down() {
    assert_eq!(locate(BlockPos { x: 0, y: 5, z: 0 }), (ChunkPos { x: 0, z: 0 }, 0, 0));
    assert_eq!(locate(BlockPos { x: 17, y: 5, z: 31 }), (ChunkPos { x: 1, z: 1 }, 1, 15));
    assert_eq!(locate(BlockPos { x: -1, y: 5, z: -16 }), (ChunkPos { x: -1, z: -1 }, 15, 0));
    assert_eq!(locate(BlockPos { x: -17, y: 0, z: -33 }), (ChunkPos { x: -2, z: -3 }, 15, 15));
}

#[test]
fn edits_inside_a_chunk_mark_no_neighbour() {
    let e = plan_edit(BlockPos { x: 5, y: 7, z: 9 }, BlockType::Stone);
    assert_eq!(e.chunk, ChunkPos { x: 0, z: 0 });
    assert_eq!((e.local_x, e.y, e.local_z), (5, 7, 9));
    assert_eq!(e.block, BlockType::Stone);
    assert!(e.stale_neighbours.is_empty());
}

#[test]
fn edits_at_chunk_sides_mark_the_chunks_across() {
    let e = plan_edit(BlockPos { x: 16, y: 7, z: 31 }, BlockType::Air);
    assert_eq!(e.chunk, ChunkPos { x: 1, z: 1 });
    assert_eq!(e.stale_neighbours, vec![ChunkPos { x: 0, z: 1 }, ChunkPos { x: 1, z: 2 }]);
    let e = plan_edit(BlockPos { x: -1, y: 7, z: -16 }, BlockType::Air);
    assert_eq!(e.stale_neighbours, vec![ChunkPos { x: 0, z: -1 }, ChunkPos { x: -1, z: -2 }]);
}

#[test]
fn applying_an_edit_sets_the_block() {
    let mut c = Chunk::empty(ChunkPos { x: 1, z: 0 });
    let e = plan_edit(BlockPos { x: 20, y: 3, z: 4 }, BlockType::Stone);
    apply_edit(&mut c, &e);
    assert_eq!(c.get_block(4, 3, 4), BlockType::Stone);
}

#[test]
fn exposure_of_neighbouring_cells() {
    let mut c = Chunk::empty(origin());
    c.set_block(3, 3, 3, BlockType::Stone, Rotation::none());
    assert!(!is_exposed(Some(&c), 3, 3, 3));
    assert!(is_exposed(Some(&c), 3, 4, 3));
    assert!(is_exposed(Some(&c), 3, -1, 3));
    assert!(is_exposed(Some(&c), 16, 3, 3));
    assert!(is_exposed(None, 3, 3, 3));
}

#[test]
fn faces_between_neighbours() {
    let solid = BlockPos { x: 0, y: 0, z: 0 };
    assert_eq!(determine_face(BlockPos { x: 0, y: 1, z: 0 }, solid), 0);
    assert_eq!(determine_face(BlockPos { x: 0, y: -1, z: 0 }, solid), 1);
    assert_eq!(determine_face(BlockPos { x: 0, y: 0, z: 1 }, solid), 2);
    assert_eq!(determine_face(BlockPos { x: 0, y: 0, z: -1 }, solid), 3);
    assert_eq!(determine_face(BlockPos { x: 1, y: 0, z: 0 }, solid), 4);
    assert_eq!(determine_face(BlockPos { x: -1, y: 0, z: 0 }, solid), 5);
    assert_eq!(determine_face(solid, solid), 5);
}

#[test]
fn neighbours_in_face_order() {
    let n = neighbours(BlockPos { x: 1, y: 2, z: 3 });
    assert_eq!(
        n,
        vec![
            BlockPos { x: 1, y: 3, z: 3 },
            BlockPos { x: 1, y: 1, z: 3 },
            BlockPos { x: 1, y: 2, z: 4 },
            BlockPos { x: 1, y: 2, z: 2 },
            BlockPos { x: 2, y: 2, z: 3 },
            BlockPos { x: 0, y: 2, z: 3 },
        ]
    );
}

#[test]
fn mode_keys_and_clicks() {
    assert_eq!(handle_event(GameMode::Delete, InputEvent::EscapePressed), (GameMode::Normal, EditAction::NoEdit));
    assert_eq!(handle_event(GameMode::Insert, InputEvent::Num1Pressed), (GameMode::Normal, EditAction::NoEdit));
    assert_eq!(handle_event(GameMode::Normal, InputEvent::Num2Pressed), (GameMode::Insert, EditAction::NoEdit));
    assert_eq!(handle_event(GameMode::Normal, InputEvent::Num3Pressed), (GameMode::Delete, EditAction::NoEdit));
    assert_eq!(handle_event(GameMode::Insert, InputEvent::SecondaryClick), (GameMode::Insert, EditAction::PlaceBlock));
    assert_eq!(handle_event(GameMode::Delete, InputEvent::SecondaryClick), (GameMode::Delete, EditAction::NoEdit));
    assert_eq!(handle_event(GameMode::Delete, InputEvent::PrimaryClick), (GameMode::Delete, EditAction::RemoveBlock));
    assert_eq!(handle_event(GameMode::Normal, InputEvent::PrimaryClick), (GameMode::Normal, EditAction::NoEdit));
}

#[test]
fn chunks_in_view_form_a_square() {
    let v = chunks_in_view(ChunkPos { x: 2, z: -3 });
    assert_eq!(v.len(), 33 * 33);
    assert_eq!(v[0], ChunkPos { x: -14, z: -19 });
    assert_eq!(v[1], ChunkPos { x: -14, z: -18 });
    assert_eq!(v[33], ChunkPos { x: -13, z: -19 });
    assert_eq!(v[v.len() - 1], ChunkPos { x: 18, z: 13 });
    assert!(v.iter().all(|p| !beyond_unload_distance(ChunkPos { x: 2, z: -3 }, *p)));
}

#[test]
fn far_chunks_lose_their_meshes() {
    let c = ChunkPos { x: 0, z: 0 };
    assert!(!beyond_unload_distance(c, ChunkPos { x: 24, z: -24 }));
    assert!(beyond_unload_distance(c, ChunkPos { x: 25, z: 0 }));
    assert!(beyond_unload_distance(c, ChunkPos { x: 0, z: -25 }));
}

#[test]
fn far_blocks_are_located_through_single_precision() {
    // 16777231 is not a single-precision value; it rounds up to 16777232, one chunk further.
    assert_eq!(locate(BlockPos { x: 16777231, y: 5, z: 0 }), (ChunkPos { x: 1048577, z: 0 }, -1, 0));
    assert_eq!(locate(BlockPos { x: 16777216, y: 5, z: 16777200 }), (ChunkPos { x: 1048576, z: 1048575 }, 0, 0));
    assert_eq!(locate(BlockPos { x: i32::MAX, y: 0, z: i32::MIN }), (ChunkPos { x: 134217728, z: -134217728 }, -1, 0));
}

#[test]
fn edits_at_the_edge_of_the_range() {
    let e = plan_edit(BlockPos { x: i32::MAX, y: 7, z: 5 }, BlockType::Stone);
    assert_eq!(e.chunk, ChunkPos { x: 134217728, z: 0 });
    assert_eq!((e.local_x, e.y, e.local_z), (-1, 7, 5));
    assert!(e.stale_neighbours.is_empty());
    let e = plan_edit(BlockPos { x: 16777216, y: 7, z: 5 }, BlockType::Air);
    assert_eq!(e.stale_neighbours, vec![ChunkPos { x: 1048575, z: 0 }]);
}

#[test]
fn world_and_snow_ranges() {
    assert!(ChunkPos { x: 134217727, z: -134217728 }.in_world());
    assert!(!ChunkPos { x: 134217728, z: 0 }.in_world());
    assert!(!ChunkPos { x: 0, z: -134217729 }.in_world());
    assert!(ChunkPos { x: 10000, z: 0 }.snow_fits());
    assert!(!ChunkPos { x: 14000, z: 0 }.snow_fits());
    assert!(!ChunkPos { x: 134217728, z: 0 }.snow_fits());
}
