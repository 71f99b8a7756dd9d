use voxcraft::block::{
    BlockPos, BlockType, BlockUpdateEvent, BlockUpdateKind, IVec3, UVec3,
};
use voxcraft::chunk::Chunk;
use voxcraft::dimension::{
    affected_chunks, make_chunks, BlockClickEvent, Dimension, MouseButtonForBlock, WORLD_HEIGHT,
};

#[test]
fn make_chunks_builds_a_column_of_four() {
    let dim = make_chunks();
    for y in 0..WORLD_HEIGHT {
        assert!(dim.get_chunk(IVec3::new(0, y, 0)).is_some());
    }
    assert!(dim.get_chunk(IVec3::new(1, 0, 0)).is_none());
    assert!(dim.get_chunk(IVec3::new(0, WORLD_HEIGHT, 0)).is_none());
    assert!(dim.get_chunk(IVec3::new(0, -1, 0)).is_none());
}

#[test]
fn make_chunks_fills_the_bottom_and_leaves_the_rest_empty() {
    let dim = make_chunks();
    let bottom = dim.get_chunk(IVec3::new(0, 0, 0)).unwrap();
    for (block, _) in bottom.iter() {
        assert!(block.is_solid());
    }
    for y in 1..WORLD_HEIGHT {
        let chunk = dim.get_chunk(IVec3::new(0, y, 0)).unwrap();
        for (block, _) in chunk.iter() {
            assert_eq!(block, BlockType::Air);
        }
    }
}

#[test]
fn insert_chunk_replaces_an_existing_entry() {
    let mut dim = Dimension::new();
    let key = IVec3::new(2, 0, -3);
    dim.insert_chunk(key, Chunk::default());
    let mut replacement = Chunk::default();
    assert!(replacement.place_block(UVec3::new(0, 0, 0), BlockType::Sand));
    dim.insert_chunk(key, replacement);
    let stored = dim.get_chunk(key).unwrap();
    assert_eq!(stored.get(UVec3::new(0, 0, 0)), BlockType::Sand);
}

fn empty_world_with_origin_chunk() -> Dimension {
    let mut dim = Dimension::new();
    dim.insert_chunk(IVec3::new(0, 0, 0), Chunk::default());
    dim
}

fn pos(chunk: IVec3, block: UVec3) -> BlockPos {
    BlockPos { chunk, block }
}

fn click(button: MouseButtonForBlock, pos: BlockPos) -> BlockClickEvent {
    BlockClickEvent { button, pos }
}

#[test]
fn right_click_places_the_held_kind_and_raises_an_event() {
    let mut dim = empty_world_with_origin_chunk();
    let bp = pos(IVec3::new(0, 0, 0), UVec3::new(1, 2, 3));
    let (event, held) = dim.apply_click(click(MouseButtonForBlock::Right, bp), BlockType::Stone, false);
    assert_eq!(held, BlockType::Stone);
    assert_eq!(
        event,
        Some(BlockUpdateEvent { pos: bp, kind: BlockUpdateKind::Place(BlockType::Stone) })
    );
    let chunk = dim.get_chunk(IVec3::new(0, 0, 0)).unwrap();
    assert_eq!(chunk.get(UVec3::new(1, 2, 3)), BlockType::Stone);
}

#[test]
fn right_click_into_an_occupied_cell_does_nothing() {
    let mut dim = empty_world_with_origin_chunk();
    let bp = pos(IVec3::new(0, 0, 0), UVec3::new(1, 2, 3));
    let (event, _) = dim.apply_click(click(MouseButtonForBlock::Right, bp), BlockType::Stone, true);
    assert_eq!(event, None);
    let chunk = dim.get_chunk(IVec3::new(0, 0, 0)).unwrap();
    assert_eq!(chunk.get(UVec3::new(1, 2, 3)), BlockType::Air);
}

#[test]
fn right_click_onto_a_solid_cell_does_nothing() {
    let mut dim = empty_world_with_origin_chunk();
    let bp = pos(IVec3::new(0, 0, 0), UVec3::new(1, 2, 3));
    dim.apply_click(click(MouseButtonForBlock::Right, bp), BlockType::Stone, false);
    let (event, _) = dim.apply_click(click(MouseButtonForBlock::Right, bp), BlockType::Sand, false);
    assert_eq!(event, None);
    let chunk = dim.get_chunk(IVec3::new(0, 0, 0)).unwrap();
    assert_eq!(chunk.get(UVec3::new(1, 2, 3)), BlockType::Stone);
}

#[test]
fn left_click_breaks_a_solid_block_and_raises_an_event() {
    let mut dim = empty_world_with_origin_chunk();
    let bp = pos(IVec3::new(0, 0, 0), UVec3::new(4, 5, 6));
    dim.apply_click(click(MouseButtonForBlock::Right, bp), BlockType::Dirt, false);
    let (event, _) = dim.apply_click(click(MouseButtonForBlock::Left, bp), BlockType::Dirt, false);
    assert_eq!(event, Some(BlockUpdateEvent { pos: bp, kind: BlockUpdateKind::Break }));
    let chunk = dim.get_chunk(IVec3::new(0, 0, 0)).unwrap();
    assert_eq!(chunk.get(UVec3::new(4, 5, 6)), BlockType::Air);
}

#[test]
fn left_click_on_air_does_nothing() {
    let mut dim = empty_world_with_origin_chunk();
    let bp = pos(IVec3::new(0, 0, 0), UVec3::new(4, 5, 6));
    let (event, _) = dim.apply_click(click(MouseButtonForBlock::Left, bp), BlockType::Dirt, false);
    assert_eq!(event, None);
}

#[test]
fn middle_click_picks_up_the_addressed_kind() {
    let mut dim = empty_world_with_origin_chunk();
    let bp = pos(IVec3::new(0, 0, 0), UVec3::new(9, 9, 9));
    dim.apply_click(click(MouseButtonForBlock::Right, bp), BlockType::Glass, false);
    let (event, held) = dim.apply_click(click(MouseButtonForBlock::Middle, bp), BlockType::Dirt, false);
    assert_eq!(event, None);
    assert_eq!(held, BlockType::Glass);
}

#[test]
fn click_into_a_missing_chunk_does_nothing() {
    let mut dim = empty_world_with_origin_chunk();
    let bp = pos(IVec3::new(5, 5, 5), UVec3::new(0, 0, 0));
    let (event, held) = dim.apply_click(click(MouseButtonForBlock::Left, bp), BlockType::Dirt, false);
    assert_eq!(event, None);
    assert_eq!(held, BlockType::Dirt);
}

fn break_event(chunk: IVec3) -> BlockUpdateEvent {
    BlockUpdateEvent {
        pos: BlockPos { chunk, block: UVec3::new(0, 0, 0) },
        kind: BlockUpdateKind::Break,
    }
}

#[test]
fn affected_chunks_deduplicates_in_first_appearance_order() {
    let a = IVec3::new(0, 0, 0);
    let b = IVec3::new(1, 0, 0);
    let c = IVec3::new(0, 2, 0);
    let events = vec![
        break_event(a),
        break_event(b),
        break_event(a),
        break_event(c),
        break_event(b),
        break_event(a),
    ];
    assert_eq!(affected_chunks(&events), vec![a, b, c]);
}

#[test]
fn affected_chunks_of_no_events_is_empty() {
    let events: Vec<BlockUpdateEvent> = Vec::new();
    assert!(affected_chunks(&events).is_empty());
}

#[test]
fn place_random_blocks_raises_one_well_formed_event_per_placement() {
    let mut dim = Dimension::new();
    // an empty chunk always accepts its random placement; a full one never
    dim.insert_chunk(IVec3::new(0, 0, 0), Chunk::default());
    dim.insert_chunk(IVec3::new(1, 0, 0), voxcraft::chunk::generate_full_chunk_data());
    let events = dim.place_random_blocks();
    assert_eq!(events.len(), 1);
    let event = events[0];
    assert_eq!(event.pos.chunk, IVec3::new(0, 0, 0));
    match event.kind {
        BlockUpdateKind::Place(kind) => {
            assert!(kind.is_solid());
            let chunk = dim.get_chunk(IVec3::new(0, 0, 0)).unwrap();
            assert_eq!(chunk.get(event.pos.block), kind);
        }
        BlockUpdateKind::Break => panic!("random placement never breaks a block"),
    }
}
