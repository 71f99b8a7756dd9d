use voxcraft::block::{BlockTextureMap, BlockType, IVec3, Rgba, TexRect, UVec3};
use voxcraft::chunk::Chunk;
use voxcraft::mesh::{make_mesh_simple, make_quad_groups};
use voxcraft::quad::{get_indices, get_normals, get_positions, rect_to_uvs, Direction, Quad, UVec2};

fn atlas_rect(i: u32) -> TexRect {
    TexRect { min_x: i * 16, min_y: 0, max_x: i * 16 + 16, max_y: 16 }
}

/// One rectangle per texture, in atlas order: dirt, grass top, grass side,
/// sand, stone, glass.
fn test_texture_map() -> BlockTextureMap {
    BlockTextureMap::new(vec![
        atlas_rect(0),
        atlas_rect(1),
        atlas_rect(2),
        atlas_rect(3),
        atlas_rect(4),
        atlas_rect(5),
    ])
}

fn total_quads(chunk: &Chunk, tmap: &BlockTextureMap) -> usize {
    make_quad_groups(chunk, tmap).groups.iter().map(|g| g.len()).sum()
}

#[test]
fn air_chunk_yields_no_mesh() {
    let chunk = Chunk::default();
    let tmap = test_texture_map();
    assert_eq!(total_quads(&chunk, &tmap), 0);
    assert!(make_mesh_simple(&chunk, &tmap).is_none());
}

#[test]
fn single_interior_voxel_yields_six_faces() {
    let mut chunk = Chunk::default();
    assert!(chunk.place_block(UVec3::new(8, 8, 8), BlockType::Stone));
    let tmap = test_texture_map();
    let groups = make_quad_groups(&chunk, &tmap);
    for group in groups.groups.iter() {
        assert_eq!(group.len(), 1);
        assert_eq!(group[0].voxel, UVec3::new(8, 8, 8));
    }
    let mesh = make_mesh_simple(&chunk, &tmap).expect("one voxel yields a mesh");
    assert_eq!(mesh.positions.len(), 24);
    assert_eq!(mesh.normals.len(), 24);
    assert_eq!(mesh.uvs.len(), 24);
    assert_eq!(mesh.colors.len(), 24);
    assert_eq!(mesh.indices.len(), 36);
    assert_eq!(&mesh.indices[0..6], &[0, 2, 1, 1, 2, 3]);
    assert_eq!(&mesh.indices[6..12], &[4, 6, 5, 5, 6, 7]);
}

#[test]
fn identical_glass_pair_shares_no_face() {
    let mut chunk = Chunk::default();
    assert!(chunk.place_block(UVec3::new(8, 8, 8), BlockType::Glass));
    assert!(chunk.place_block(UVec3::new(9, 8, 8), BlockType::Glass));
    let tmap = test_texture_map();
    let groups = make_quad_groups(&chunk, &tmap);
    // five faces per cube: the shared boundary is suppressed in both
    // directions by the identical-translucent rule
    let total: usize = groups.groups.iter().map(|g| g.len()).sum();
    assert_eq!(total, 10);
    // no face of the left cube points right, none of the right cube left
    let right = &groups.groups[Direction::Right.index()];
    assert!(!right.iter().any(|q| q.voxel == UVec3::new(8, 8, 8)));
    let left = &groups.groups[Direction::Left.index()];
    assert!(!left.iter().any(|q| q.voxel == UVec3::new(9, 8, 8)));
}

#[test]
fn stone_beside_glass_emits_the_stone_side() {
    let mut chunk = Chunk::default();
    assert!(chunk.place_block(UVec3::new(8, 8, 8), BlockType::Stone));
    assert!(chunk.place_block(UVec3::new(9, 8, 8), BlockType::Glass));
    let tmap = test_texture_map();
    let groups = make_quad_groups(&chunk, &tmap);
    // the stone face on the shared boundary survives: opaque toward
    // translucent is shown
    let right = &groups.groups[Direction::Right.index()];
    assert!(right.iter().any(|q| q.voxel == UVec3::new(8, 8, 8)));
    // the glass face on the shared boundary is culled, so the pair shows
    // six stone faces and five glass faces
    let total: usize = groups.groups.iter().map(|g| g.len()).sum();
    assert_eq!(total, 11);
}

#[test]
fn two_touching_opaque_blocks_hide_the_shared_boundary() {
    let mut chunk = Chunk::default();
    assert!(chunk.place_block(UVec3::new(8, 8, 8), BlockType::Stone));
    assert!(chunk.place_block(UVec3::new(9, 8, 8), BlockType::Dirt));
    let tmap = test_texture_map();
    assert_eq!(total_quads(&chunk, &tmap), 10);
}

#[test]
fn boundary_voxel_still_shows_all_faces() {
    // neighbours beyond the chunk boundary count as air, so a corner voxel
    // keeps all six faces
    let mut chunk = Chunk::default();
    assert!(chunk.place_block(UVec3::new(15, 15, 15), BlockType::Sand));
    let tmap = test_texture_map();
    assert_eq!(total_quads(&chunk, &tmap), 6);
}

#[test]
fn stone_at_origin_has_six_white_stone_quads() {
    let mut chunk = Chunk::default();
    assert!(chunk.place_block(UVec3::new(0, 0, 0), BlockType::Stone));
    let tmap = test_texture_map();
    let groups = make_quad_groups(&chunk, &tmap);
    let white = Rgba { r: 0xFF, g: 0xFF, b: 0xFF, a: 0xFF };
    let stone_rect = atlas_rect(4);
    let mut count = 0;
    for group in groups.groups.iter() {
        for quad in group.iter() {
            assert_eq!(quad.voxel, UVec3::new(0, 0, 0));
            assert_eq!(quad.color, white);
            assert_eq!(quad.uv, stone_rect);
            count += 1;
        }
    }
    assert_eq!(count, 6);
}

#[test]
fn grass_top_quad_is_tinted_green() {
    let mut chunk = Chunk::default();
    assert!(chunk.place_block(UVec3::new(4, 4, 4), BlockType::Grass));
    let tmap = test_texture_map();
    let groups = make_quad_groups(&chunk, &tmap);
    let up = &groups.groups[Direction::Up.index()];
    assert_eq!(up.len(), 1);
    assert_eq!(up[0].color, Rgba { r: 0x5E, g: 0x9D, b: 0x34, a: 0xFF });
    assert_eq!(up[0].uv, atlas_rect(1));
    let down = &groups.groups[Direction::Down.index()];
    assert_eq!(down[0].color, Rgba { r: 0xFF, g: 0xFF, b: 0xFF, a: 0xFF });
    assert_eq!(down[0].uv, atlas_rect(0));
}

#[test]
fn index_pattern_triangulates_a_quad() {
    assert_eq!(get_indices(0), [0, 2, 1, 1, 2, 3]);
    assert_eq!(get_indices(4), [4, 6, 5, 5, 6, 7]);
}

#[test]
fn position_table_for_the_up_face() {
    let quad = Quad {
        voxel: UVec3::new(2, 3, 4),
        color: Rgba { r: 0xFF, g: 0xFF, b: 0xFF, a: 0xFF },
        uv: atlas_rect(0),
    };
    let ps = get_positions(&quad, &Direction::Up);
    assert_eq!(
        ps,
        [
            UVec3::new(2, 4, 5),
            UVec3::new(2, 4, 4),
            UVec3::new(3, 4, 5),
            UVec3::new(3, 4, 4),
        ]
    );
}

#[test]
fn normals_point_along_the_face_axis() {
    assert_eq!(get_normals(&Direction::Up), [IVec3::new(0, 1, 0); 4]);
    assert_eq!(get_normals(&Direction::Left), [IVec3::new(-1, 0, 0); 4]);
    assert_eq!(get_normals(&Direction::Backward), [IVec3::new(0, 0, 1); 4]);
}

#[test]
fn uv_corners_unwrap_the_rect() {
    let rect = TexRect { min_x: 1, min_y: 2, max_x: 5, max_y: 9 };
    assert_eq!(
        rect_to_uvs(&rect),
        [
            UVec2 { x: 1, y: 9 },
            UVec2 { x: 5, y: 9 },
            UVec2 { x: 1, y: 2 },
            UVec2 { x: 5, y: 2 },
        ]
    );
}

#[test]
fn mesh_buffers_carry_uvs_and_colors_per_vertex() {
    let mut chunk = Chunk::default();
    assert!(chunk.place_block(UVec3::new(8, 8, 8), BlockType::Glass));
    let tmap = test_texture_map();
    let mesh = make_mesh_simple(&chunk, &tmap).expect("one voxel yields a mesh");
    let glass_rect = atlas_rect(5);
    for corner in mesh.uvs.chunks(4) {
        assert_eq!(
            corner,
            &[
                UVec2 { x: glass_rect.min_x, y: glass_rect.max_y },
                UVec2 { x: glass_rect.max_x, y: glass_rect.max_y },
                UVec2 { x: glass_rect.min_x, y: glass_rect.min_y },
                UVec2 { x: glass_rect.max_x, y: glass_rect.min_y },
            ]
        );
    }
    for color in mesh.colors.iter() {
        assert_eq!(*color, Rgba { r: 0xFF, g: 0xFF, b: 0xFF, a: 0xFF });
    }
}
