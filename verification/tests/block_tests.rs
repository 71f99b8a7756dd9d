use voxcraft::block::{
    block_and_side_to_texture_path, block_to_colour, BlockPos, BlockType, IVec3, Rgba, UVec3,
    Visibility,
};
use voxcraft::quad::Direction;

#[test]
fn visibility_classes() {
    assert_eq!(BlockType::Air.visibility(), Visibility::Empty);
    assert_eq!(BlockType::Glass.visibility(), Visibility::Translucent);
    assert_eq!(BlockType::Grass.visibility(), Visibility::Opaque);
    assert_eq!(BlockType::Dirt.visibility(), Visibility::Opaque);
    assert_eq!(BlockType::Stone.visibility(), Visibility::Opaque);
    assert_eq!(BlockType::Sand.visibility(), Visibility::Opaque);
}

#[test]
fn air_is_empty_and_not_solid() {
    assert!(!BlockType::Air.is_visible());
    assert!(!BlockType::Air.is_solid());
    assert_eq!(BlockType::default(), BlockType::Air);
}

#[test]
fn every_other_kind_is_visible_and_solid() {
    for b in [
        BlockType::Grass,
        BlockType::Dirt,
        BlockType::Stone,
        BlockType::Sand,
        BlockType::Glass,
    ] {
        assert!(b.is_visible());
        assert!(b.is_solid());
    }
}

#[test]
fn random_not_air_is_solid() {
    for _ in 0..64 {
        assert!(BlockType::random_not_air().is_solid());
    }
}

#[test]
fn texture_paths() {
    assert_eq!(
        block_and_side_to_texture_path(BlockType::Dirt, Direction::Left),
        "textures/block/dirt.png"
    );
    assert_eq!(
        block_and_side_to_texture_path(BlockType::Grass, Direction::Up),
        "textures/block/grass_block_top.png"
    );
    assert_eq!(
        block_and_side_to_texture_path(BlockType::Grass, Direction::Down),
        "textures/block/dirt.png"
    );
    assert_eq!(
        block_and_side_to_texture_path(BlockType::Grass, Direction::Forward),
        "textures/block/grass_block_side.png"
    );
    assert_eq!(
        block_and_side_to_texture_path(BlockType::Sand, Direction::Right),
        "textures/block/sand.png"
    );
    assert_eq!(
        block_and_side_to_texture_path(BlockType::Stone, Direction::Backward),
        "textures/block/stone.png"
    );
    assert_eq!(
        block_and_side_to_texture_path(BlockType::Glass, Direction::Up),
        "textures/block/glass.png"
    );
}

#[test]
fn grass_top_is_green_everything_else_white() {
    let white = Rgba { r: 0xFF, g: 0xFF, b: 0xFF, a: 0xFF };
    let green = Rgba { r: 0x5E, g: 0x9D, b: 0x34, a: 0xFF };
    assert_eq!(block_to_colour(BlockType::Grass, Direction::Up), green);
    assert_eq!(block_to_colour(BlockType::Grass, Direction::Down), white);
    assert_eq!(block_to_colour(BlockType::Grass, Direction::Left), white);
    assert_eq!(block_to_colour(BlockType::Stone, Direction::Up), white);
    assert_eq!(block_to_colour(BlockType::Glass, Direction::Up), white);
}

#[test]
fn from_global_at_origin() {
    let p = BlockPos::from_global(IVec3::new(0, 0, 0));
    assert_eq!(p.chunk, IVec3::new(0, 0, 0));
    assert_eq!(p.block, UVec3::new(0, 0, 0));
}

#[test]
fn from_global_floors_toward_negative_infinity() {
    let p = BlockPos::from_global(IVec3::new(-1, -16, 17));
    assert_eq!(p.chunk, IVec3::new(-1, -1, 1));
    assert_eq!(p.block, UVec3::new(15, 0, 1));

    let q = BlockPos::from_global(IVec3::new(-17, 31, -32));
    assert_eq!(q.chunk, IVec3::new(-2, 1, -2));
    assert_eq!(q.block, UVec3::new(15, 15, 0));
}

#[test]
fn global_round_trip() {
    for w in [-33, -32, -17, -16, -15, -1, 0, 1, 15, 16, 17, 31, 1000, -1000] {
        let p = BlockPos::from_global(IVec3::new(w, w, w));
        let g = p.to_global();
        assert_eq!(g, IVec3::new(w, w, w));
    }
}
