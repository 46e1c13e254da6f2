use minecrust::block::{
    BlockDimensions, BlockRegistry, BlockRotation, BlockType, FaceDirection, RenderType, TexturePattern,
};

#[test]
fn every_kind_is_found_by_its_name() {
    let all = BlockType::all();
    assert_eq!(all.len(), 95);
    for t in all.iter() {
        assert_eq!(BlockType::from_name(t.name()), Some(*t));
    }
    let mut names: Vec<&str> = all.iter().map(|t| t.name()).collect();
    names.sort();
    names.dedup();
    assert_eq!(names.len(), 95);
}

#[test]
fn names_are_case_sensitive() {
    assert_eq!(BlockType::from_name("stone"), None);
    assert_eq!(BlockType::from_name("Stone"), Some(BlockType::Stone));
    assert_eq!(BlockType::from_name(""), None);
    assert_eq!(BlockType::from_name("Stone "), None);
}

#[test]
fn declaration_order_starts_with_grass_and_ends_with_air() {
    let all = BlockType::all();
    assert_eq!(all[0], BlockType::GrassBlock);
    assert_eq!(all[94], BlockType::Air);
    assert_eq!(BlockType::Air.index(), 94);
    assert_eq!(BlockType::GrassBlock.index(), 0);
}

#[test]
fn registry_holds_every_kind() {
    let registry = BlockRegistry::new();
    for t in BlockType::all() {
        let b = registry.get_block(t).expect("every kind is registered");
        assert_eq!(b.name, t.name());
        assert_eq!(b.rotation, BlockRotation::Unrotated);
        assert_eq!(registry.is_transparent(t), t.is_transparent());
    }
}

#[test]
fn stone_is_an_opaque_full_cube() {
    let registry = BlockRegistry::new();
    let b = registry.get_block(BlockType::Stone).unwrap();
    assert_eq!(b.render_type, RenderType::FullCube);
    assert!(!b.is_transparent);
    assert_eq!(b.texture.get_texture(FaceDirection::Top), 0);
    assert!(BlockType::Stone.is_full_block());
}

#[test]
fn see_through_kinds() {
    assert!(BlockType::Air.is_transparent());
    assert!(BlockType::Water.is_transparent());
    assert!(BlockType::OakLeaves.is_transparent());
    assert!(BlockType::Cactus.is_transparent());
    assert!(!BlockType::Dirt.is_transparent());
    assert!(!BlockType::Snow.is_transparent());
}

#[test]
fn plants_are_drawn_crosswise() {
    assert_eq!(BlockType::Fern.get_render_type(), RenderType::CrossPlant);
    assert_eq!(BlockType::CactusFlower.get_render_type(), RenderType::CrossPlant);
    assert!(!BlockType::Fern.is_full_block());
}

#[test]
fn cactus_is_a_narrow_scaled_cube() {
    let props = BlockType::Cactus.get_properties();
    assert_eq!(props.render_type, RenderType::ScaledCube);
    let d = props.dimensions;
    assert_eq!((d.width_pixels, d.height_pixels, d.length_pixels), (14, 16, 14));
    let b = BlockType::Cactus.get_block().unwrap();
    assert_eq!(b.texture.get_texture(FaceDirection::Top), 36);
    assert_eq!(b.texture.get_texture(FaceDirection::Bottom), 37);
    assert_eq!(b.texture.get_texture(FaceDirection::Left), 35);
}

#[test]
fn full_cubes_have_full_dimensions() {
    let d = BlockType::Dirt.get_dimensions();
    assert_eq!((d.width_pixels, d.height_pixels, d.length_pixels), (16, 16, 16));
    let f = BlockDimensions::full();
    assert_eq!((f.width_pixels, f.height_pixels, f.length_pixels), (16, 16, 16));
    let p = BlockDimensions::from_pixels(1, 2, 3);
    assert_eq!((p.width_pixels, p.height_pixels, p.length_pixels), (1, 2, 3));
}

#[test]
fn texture_patterns_pick_per_face() {
    let custom = TexturePattern::Custom([40, 40, 39, 39, 39, 38]);
    assert_eq!(custom.get_texture(FaceDirection::Top), 40);
    assert_eq!(custom.get_texture(FaceDirection::Front), 39);
    assert_eq!(custom.get_texture(FaceDirection::Left), 38);
    let uniform = TexturePattern::Uniform(7);
    assert_eq!(uniform.get_texture(FaceDirection::Right), 7);
    assert_eq!(FaceDirection::Left.index(), 5);
}

#[test]
fn jungle_log_texture() {
    let b = BlockType::JungleLog.get_block().unwrap();
    assert_eq!(b.texture.get_texture(FaceDirection::Top), 40);
    assert_eq!(b.texture.get_texture(FaceDirection::Front), 39);
}
