use voxcraft::block::{BlockType, UVec3};
use voxcraft::chunk::{generate_flat_chunk_data, generate_full_chunk_data, Chunk};

#[test]
fn new_chunk_is_all_air() {
    let chunk = Chunk::default();
    for (block, _) in chunk.iter() {
        assert_eq!(block, BlockType::Air);
    }
}

#[test]
fn place_then_get_yields_the_placed_kind() {
    let mut chunk = Chunk::default();
    for kind in [
        BlockType::Grass,
        BlockType::Dirt,
        BlockType::Stone,
        BlockType::Sand,
        BlockType::Glass,
    ] {
        let mut c = Chunk::default();
        assert!(c.place_block(UVec3::new(3, 4, 5), kind));
        assert_eq!(c.get(UVec3::new(3, 4, 5)), kind);
    }
    assert!(chunk.place_block(UVec3::new(0, 0, 0), BlockType::Stone));
    assert_eq!(chunk.get(UVec3::new(0, 0, 0)), BlockType::Stone);
}

#[test]
fn place_on_solid_fails_and_leaves_grid_unmodified() {
    let mut chunk = Chunk::default();
    assert!(chunk.place_block(UVec3::new(7, 8, 9), BlockType::Stone));
    assert!(!chunk.place_block(UVec3::new(7, 8, 9), BlockType::Sand));
    assert_eq!(chunk.get(UVec3::new(7, 8, 9)), BlockType::Stone);
    for (block, (x, y, z)) in chunk.iter() {
        if (x, y, z) == (7, 8, 9) {
            assert_eq!(block, BlockType::Stone);
        } else {
            assert_eq!(block, BlockType::Air);
        }
    }
}

#[test]
fn place_out_of_range_fails() {
    let mut chunk = Chunk::default();
    assert!(!chunk.place_block(UVec3::new(16, 0, 0), BlockType::Stone));
    assert!(!chunk.place_block(UVec3::new(0, 99, 0), BlockType::Stone));
    for (block, _) in chunk.iter() {
        assert_eq!(block, BlockType::Air);
    }
}

#[test]
fn break_on_air_fails() {
    let mut chunk = Chunk::default();
    assert!(!chunk.break_block(UVec3::new(1, 2, 3)));
}

#[test]
fn break_solid_resets_to_air_and_second_break_fails() {
    let mut chunk = Chunk::default();
    assert!(chunk.place_block(UVec3::new(5, 6, 7), BlockType::Glass));
    assert!(chunk.break_block(UVec3::new(5, 6, 7)));
    assert_eq!(chunk.get(UVec3::new(5, 6, 7)), BlockType::Air);
    assert!(!chunk.break_block(UVec3::new(5, 6, 7)));
}

#[test]
fn break_out_of_range_fails() {
    let mut chunk = Chunk::default();
    assert!(!chunk.break_block(UVec3::new(0, 16, 0)));
}

#[test]
fn get_i_rejects_out_of_range() {
    let chunk = Chunk::default();
    assert_eq!(chunk.get_i(-1, 0, 0), None);
    assert_eq!(chunk.get_i(0, 16, 0), None);
    assert_eq!(chunk.get_i(0, 0, 100), None);
    assert_eq!(chunk.get_i(15, 15, 15), Some(BlockType::Air));
}

#[test]
fn place_random_block_places_something_solid() {
    let mut chunk = Chunk::default();
    match chunk.place_random_block() {
        Some((kind, pos)) => {
            assert!(kind.is_solid());
            assert_eq!(chunk.get(pos), kind);
        }
        None => panic!("an all-air chunk always has room for a random block"),
    }
}

#[test]
fn place_random_block_on_full_chunk_yields_nothing() {
    let mut chunk = generate_full_chunk_data();
    assert_eq!(chunk.place_random_block(), None);
}

#[test]
fn flat_chunk_has_checkered_floor_and_air_above() {
    let chunk = generate_flat_chunk_data();
    for x in 0..16u32 {
        for z in 0..16u32 {
            let expected = if (x + z) % 2 == 0 {
                BlockType::Grass
            } else {
                BlockType::Glass
            };
            assert_eq!(chunk.get(UVec3::new(x, 0, z)), expected);
            for y in 1..16u32 {
                assert_eq!(chunk.get(UVec3::new(x, y, z)), BlockType::Air);
            }
        }
    }
}

#[test]
fn full_chunk_is_all_solid() {
    let chunk = generate_full_chunk_data();
    for (block, _) in chunk.iter() {
        assert!(block.is_solid());
    }
}

#[test]
fn iter_visits_every_cell_once_in_a_stable_order() {
    let chunk = Chunk::default();
    let cells = chunk.iter();
    assert_eq!(cells.len(), 4096);
    let mut expected = Vec::new();
    for y in 0..16usize {
        for z in 0..16usize {
            for x in 0..16usize {
                expected.push((x, y, z));
            }
        }
    }
    let visited: Vec<(usize, usize, usize)> = cells.iter().map(|c| c.1).collect();
    assert_eq!(visited, expected);
}

#[test]
fn solid_positions_lists_exactly_the_solid_cells() {
    let mut chunk = Chunk::default();
    assert!(chunk.place_block(UVec3::new(1, 2, 3), BlockType::Stone));
    assert!(chunk.place_block(UVec3::new(4, 5, 6), BlockType::Glass));
    let solids = chunk.solid_positions();
    assert_eq!(solids.len(), 2);
    assert!(solids.contains(&UVec3::new(1, 2, 3)));
    assert!(solids.contains(&UVec3::new(4, 5, 6)));

    let flat = generate_flat_chunk_data();
    assert_eq!(flat.solid_positions().len(), 256);
}
