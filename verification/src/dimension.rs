//! Dimension: the world as an association from chunk-grid coordinates to
//! chunks, with world-coordinate access, click handling, and the
//! deduplicated block-update fan-out.

use vstd::prelude::*;

verus! {

use crate::block::{BlockPos, BlockType, BlockUpdateEvent, BlockUpdateKind, IVec3};
use crate::chunk::{flat_index, spec_block_at, Chunk, CHUNK_VOLUME};

/// The map described by an association list, later entries overriding
/// earlier ones.
pub open spec fn entries_map(s: Seq<(IVec3, Chunk)>) -> Map<IVec3, Chunk>
    decreases s.len(),
{
    if s.len() == 0 {
        Map::empty()
    } else {
        entries_map(s.drop_last()).insert(s.last().0, s.last().1)
    }
}

/// No two entries share a key.
pub open spec fn unique_keys(s: Seq<(IVec3, Chunk)>) -> bool {
    forall|i: int, j: int| 0 <= i < j < s.len() ==> (#[trigger] s[i]).0 != (#[trigger] s[j]).0
}

proof fn lemma_entries_map_contains(s: Seq<(IVec3, Chunk)>, k: IVec3)
    ensures
        entries_map(s).contains_key(k) <==> exists|i: int|
            0 <= i < s.len() && (#[trigger] s[i]).0 == k,
    decreases s.len(),
{
    if s.len() > 0 {
        lemma_entries_map_contains(s.drop_last(), k);
        if s.last().0 == k {
            assert(s[s.len() - 1].0 == k);
        } else if entries_map(s).contains_key(k) {
            let i = choose|i: int| 0 <= i < s.drop_last().len() && (#[trigger] s.drop_last()[i]).0
                == k;
            assert(s[i].0 == k);
        } else if exists|i: int| 0 <= i < s.len() && (#[trigger] s[i]).0 == k {
            let i = choose|i: int| 0 <= i < s.len() && (#[trigger] s[i]).0 == k;
            assert(s.drop_last()[i].0 == k);
        }
    }
}

proof fn lemma_entries_map_index(s: Seq<(IVec3, Chunk)>, i: int)
    requires
        unique_keys(s),
        0 <= i < s.len(),
    ensures
        entries_map(s).contains_key(s[i].0),
        entries_map(s)[s[i].0] == s[i].1,
    decreases s.len(),
{
    if i == s.len() - 1 {
    } else {
        assert(unique_keys(s.drop_last())) by {
            assert forall|a: int, b: int|
                0 <= a < b < s.drop_last().len() implies (#[trigger] s.drop_last()[a]).0 != (
            #[trigger] s.drop_last()[b]).0 by {
                assert(s[a].0 != s[b].0);
            }
        }
        lemma_entries_map_index(s.drop_last(), i);
        assert(s.drop_last()[i] == s[i]);
        assert(s[i].0 != s.last().0);
    }
}

proof fn lemma_entries_map_update(s: Seq<(IVec3, Chunk)>, i: int, v: Chunk)
    requires
        unique_keys(s),
        0 <= i < s.len(),
    ensures
        entries_map(s.update(i, (s[i].0, v))) == entries_map(s).insert(s[i].0, v),
        unique_keys(s.update(i, (s[i].0, v))),
    decreases s.len(),
{
    let k = s[i].0;
    let t = s.update(i, (k, v));
    assert(unique_keys(t)) by {
        assert forall|a: int, b: int| 0 <= a < b < t.len() implies (#[trigger] t[a]).0 != (
        #[trigger] t[b]).0 by {
            assert(t[a].0 == s[a].0 && t[b].0 == s[b].0);
            assert(s[a].0 != s[b].0);
        }
    }
    if i == s.len() - 1 {
        assert(t.drop_last() =~= s.drop_last());
        assert(entries_map(t) == entries_map(s.drop_last()).insert(k, v));
        assert(entries_map(s) == entries_map(s.drop_last()).insert(k, s[i].1));
        assert(entries_map(s.drop_last()).insert(k, s[i].1).insert(k, v) =~= entries_map(
            s.drop_last(),
        ).insert(k, v));
    } else {
        assert(unique_keys(s.drop_last())) by {
            assert forall|a: int, b: int|
                0 <= a < b < s.drop_last().len() implies (#[trigger] s.drop_last()[a]).0 != (
            #[trigger] s.drop_last()[b]).0 by {
                assert(s[a].0 != s[b].0);
            }
        }
        assert(s.drop_last()[i] == s[i]);
        lemma_entries_map_update(s.drop_last(), i, v);
        assert(t.drop_last() =~= s.drop_last().update(i, (k, v)));
        assert(t.last() == s.last());
        assert(entries_map(t) == entries_map(s.drop_last()).insert(k, v).insert(
            s.last().0,
            s.last().1,
        ));
        assert(s[i].0 != s.last().0);
        assert(entries_map(s.drop_last()).insert(k, v).insert(s.last().0, s.last().1)
            =~= entries_map(s.drop_last()).insert(s.last().0, s.last().1).insert(k, v));
    }
}

proof fn lemma_entries_map_push(s: Seq<(IVec3, Chunk)>, k: IVec3, v: Chunk)
    ensures
        entries_map(s.push((k, v))) == entries_map(s).insert(k, v),
    decreases s.len(),
{
    assert(s.push((k, v)).drop_last() =~= s);
}

/// The world: chunks keyed by their unique chunk-grid coordinate.
#[derive(Debug)]
pub struct Dimension {
    entries: Vec<(IVec3, Chunk)>,
}

impl View for Dimension {
    type V = Map<IVec3, Chunk>;

    /// The association from chunk coordinates to chunks.
    closed spec fn view(&self) -> Map<IVec3, Chunk> {
        entries_map(self.entries@)
    }
}

impl Dimension {
    /// Coordinates are unique keys and every stored chunk is well-formed.
    pub closed spec fn wf(&self) -> bool {
        &&& unique_keys(self.entries@)
        &&& forall|i: int| 0 <= i < self.entries@.len() ==> (#[trigger] self.entries@[i]).1.wf()
    }

    /// An empty world.
    pub fn new() -> (r: Dimension)
        ensures
            r.wf(),
            r@ == Map::<IVec3, Chunk>::empty(),
    {
        Dimension { entries: Vec::new() }
    }

    /// The index of the entry holding `key`, if any.
    fn index_of(&self, key: IVec3) -> (r: Option<usize>)
        ensures
            r matches Some(i) ==> i < self.entries@.len() && self.entries@[i as int].0 == key,
            r is None ==> forall|i: int|
                0 <= i < self.entries@.len() ==> (#[trigger] self.entries@[i]).0 != key,
    {
        let mut i: usize = 0;
        let n = self.entries.len();
        while i < n
            invariant
                n == self.entries@.len(),
                i <= n,
                forall|j: int| 0 <= j < i ==> (#[trigger] self.entries@[j]).0 != key,
            decreases n - i,
        {
            if self.entries[i].0 == key {
                return Some(i);
            }
            i = i + 1;
        }
        None
    }

    /// Associate `chunk` with `pos`, replacing any chunk already there.
    pub fn insert_chunk(&mut self, pos: IVec3, chunk: Chunk)
        requires
            old(self).wf(),
            chunk.wf(),
        ensures
            final(self).wf(),
            final(self)@ == old(self)@.insert(pos, chunk),
    {
        match self.index_of(pos) {
            Some(i) => {
                proof {
                    lemma_entries_map_update(self.entries@, i as int, chunk);
                }
                self.entries[i] = (pos, chunk);
            },
            None => {
                proof {
                    lemma_entries_map_push(self.entries@, pos, chunk);
                }
                self.entries.push((pos, chunk));
            },
        }
    }

    /// The chunk at chunk-grid coordinate `pos`, if one is loaded.
    pub fn get_chunk(&self, pos: IVec3) -> (r: Option<&Chunk>)
        requires
            self.wf(),
        ensures
            r matches Some(c) ==> self@.contains_key(pos) && *c == self@[pos] && c.wf(),
            r is None ==> !self@.contains_key(pos),
    {
        proof {
            lemma_entries_map_contains(self.entries@, pos);
        }
        match self.index_of(pos) {
            Some(i) => {
                proof {
                    lemma_entries_map_index(self.entries@, i as int);
                }
                Some(&self.entries[i].1)
            },
            None => None,
        }
    }
}

/// The chunk-grid coordinates of the world generated at startup: a single
/// column of `WORLD_HEIGHT` chunks above the origin.
pub const WORLD_HEIGHT: i32 = 4;

/// Generate the startup world: a column of chunks at the origin, the bottom
/// one filled with random solid blocks and the rest empty.
pub fn make_chunks() -> (r: Dimension)
    ensures
        r.wf(),
        forall|k: IVec3|
            r@.contains_key(k) <==> (k.x == 0 && k.z == 0 && 0 <= k.y < WORLD_HEIGHT),
        forall|i: int|
            0 <= i < CHUNK_VOLUME ==> (#[trigger] r@[IVec3 { x: 0, y: 0, z: 0 }]@[i]).spec_is_solid(),
        forall|k: IVec3, i: int|
            r@.contains_key(k) && k.y > 0 && 0 <= i < CHUNK_VOLUME ==> (#[trigger] r@[k]@[i])
                == BlockType::Air,
{
    let mut dim = Dimension::new();
    let mut y: i32 = 0;
    while y < WORLD_HEIGHT
        invariant
            dim.wf(),
            0 <= y <= WORLD_HEIGHT,
            forall|k: IVec3| dim@.contains_key(k) <==> (k.x == 0 && k.z == 0 && 0 <= k.y < y),
            y > 0 ==> forall|i: int|
                0 <= i < CHUNK_VOLUME ==> (#[trigger] dim@[IVec3 { x: 0, y: 0, z: 0 }]@[
                i]).spec_is_solid(),
            forall|k: IVec3, i: int|
                dim@.contains_key(k) && k.y > 0 && 0 <= i < CHUNK_VOLUME ==> (#[trigger] dim@[k]@[
                i]) == BlockType::Air,
        decreases WORLD_HEIGHT - y,
    {
        let chunk = if y == 0 {
            crate::chunk::generate_full_chunk_data()
        } else {
            Chunk::default()
        };
        dim.insert_chunk(IVec3 { x: 0, y, z: 0 }, chunk);
        y = y + 1;
    }
    dim
}

/// Which mouse button a block click came from.
#[derive(Clone, Copy, Debug, PartialEq, Eq, Structural)]
pub enum MouseButtonForBlock {
    Left,
    Right,
    Middle,
}

/// A click on a block: the button and the addressed block.
#[derive(Clone, Copy, Debug, PartialEq, Eq, Structural)]
pub struct BlockClickEvent {
    pub button: MouseButtonForBlock,
    pub pos: BlockPos,
}

impl Dimension {
    /// Resolve one block click against the world.
    ///
    /// A left click breaks the addressed block, a right click places the
    /// held kind there unless the cell is obstructed by a mover
    /// (`occupied`), and a middle click picks the addressed kind up as the
    /// new held kind. A successful mutation raises a block-update event;
    /// a failed one changes nothing and raises none.
    pub fn apply_click(
        &mut self,
        click: BlockClickEvent,
        picked: BlockType,
        occupied: bool,
    ) -> (r: (Option<BlockUpdateEvent>, BlockType))
        requires
            old(self).wf(),
            click.pos.wf(),
        ensures
            final(self).wf(),
            final(self)@.dom() == old(self)@.dom(),
            !old(self)@.contains_key(click.pos.chunk) ==> final(self)@ == old(self)@ && r.0 is None
                && r.1 == picked,
            forall|k: IVec3|
                old(self)@.contains_key(k) && k != click.pos.chunk ==> final(self)@[k] == old(self)@[k],
            click.button == MouseButtonForBlock::Middle ==> final(self)@ == old(self)@ && r.0 is None
                && (old(self)@.contains_key(click.pos.chunk) ==> r.1 == spec_block_at(
                old(self)@[click.pos.chunk]@,
                click.pos.block.x as int,
                click.pos.block.y as int,
                click.pos.block.z as int,
            )),
            click.button == MouseButtonForBlock::Left && old(self)@.contains_key(click.pos.chunk) ==> r.1
                == picked && {
                let c = old(self)@[click.pos.chunk]@;
                if spec_block_at(c, click.pos.block.x as int, click.pos.block.y as int, click.pos.block.z as int)
                    .spec_is_solid() {
                    &&& final(self)@[click.pos.chunk]@ == c.update(
                        flat_index(click.pos.block.x as int, click.pos.block.y as int, click.pos.block.z as int),
                        BlockType::Air,
                    )
                    &&& r.0 == Some(BlockUpdateEvent { pos: click.pos, kind: BlockUpdateKind::Break })
                } else {
                    final(self)@ == old(self)@ && r.0 is None
                }
            },
            click.button == MouseButtonForBlock::Right && old(self)@.contains_key(click.pos.chunk) ==> r.1
                == picked && {
                let c = old(self)@[click.pos.chunk]@;
                if !occupied && !spec_block_at(
                    c,
                    click.pos.block.x as int,
                    click.pos.block.y as int,
                    click.pos.block.z as int,
                ).spec_is_solid() {
                    &&& final(self)@[click.pos.chunk]@ == c.update(
                        flat_index(click.pos.block.x as int, click.pos.block.y as int, click.pos.block.z as int),
                        picked,
                    )
                    &&& r.0 == Some(
                        BlockUpdateEvent { pos: click.pos, kind: BlockUpdateKind::Place(picked) },
                    )
                } else {
                    final(self)@ == old(self)@ && r.0 is None
                }
            },
    {
        let bp = click.pos;
        proof {
            lemma_entries_map_contains(self.entries@, bp.chunk);
        }
        let idx = match self.index_of(bp.chunk) {
            Some(i) => i,
            None => {
                return (None, picked);
            },
        };
        proof {
            lemma_entries_map_index(self.entries@, idx as int);
        }
        match click.button {
            MouseButtonForBlock::Middle => {
                let picked_now = self.entries[idx].1.get(bp.block);
                (None, picked_now)
            },
            MouseButtonForBlock::Left => {
                let ghost prev = self.entries@;
                let broke = self.entries[idx].1.break_block(bp.block);
                proof {
                    assert(self.entries@ =~= prev.update(
                        idx as int,
                        (bp.chunk, self.entries@[idx as int].1),
                    ));
                    lemma_entries_map_update(prev, idx as int, self.entries@[idx as int].1);
                    assert(self@.dom() =~= entries_map(prev).dom());
                    if !broke {
                        assert(self.entries@ =~= prev);
                    }
                }
                if broke {
                    (
                        Some(BlockUpdateEvent { pos: bp, kind: BlockUpdateKind::Break }),
                        picked,
                    )
                } else {
                    (None, picked)
                }
            },
            MouseButtonForBlock::Right => {
                if occupied {
                    return (None, picked);
                }
                let ghost prev = self.entries@;
                let placed = self.entries[idx].1.place_block(bp.block, picked);
                proof {
                    assert(self.entries@ =~= prev.update(
                        idx as int,
                        (bp.chunk, self.entries@[idx as int].1),
                    ));
                    lemma_entries_map_update(prev, idx as int, self.entries@[idx as int].1);
                    assert(self@.dom() =~= entries_map(prev).dom());
                    if !placed {
                        assert(self.entries@ =~= prev);
                    }
                }
                if placed {
                    (
                        Some(
                            BlockUpdateEvent { pos: bp, kind: BlockUpdateKind::Place(picked) },
                        ),
                        picked,
                    )
                } else {
                    (None, picked)
                }
            },
        }
    }
}

/// Event `e` reports exactly one placement between world states `pre` and
/// `post`: the chunk it names was loaded, the cell it names was non-solid
/// and is now overwritten with the solid kind the event carries.
pub open spec fn event_records_placement(
    pre: Map<IVec3, Chunk>,
    post: Map<IVec3, Chunk>,
    e: BlockUpdateEvent,
) -> bool {
    &&& pre.contains_key(e.pos.chunk)
    &&& e.pos.wf()
    &&& e.kind matches BlockUpdateKind::Place(b) && b.spec_is_solid() && !spec_block_at(
        pre[e.pos.chunk]@,
        e.pos.block.x as int,
        e.pos.block.y as int,
        e.pos.block.z as int,
    ).spec_is_solid() && post[e.pos.chunk]@ == pre[e.pos.chunk]@.update(
        flat_index(e.pos.block.x as int, e.pos.block.y as int, e.pos.block.z as int),
        b,
    )
}

impl Dimension {
    /// Try one random placement in the chunk of entry `i`, raising the
    /// matching update event on success and touching nothing else.
    fn place_random_in_entry(&mut self, i: usize) -> (r: Option<BlockUpdateEvent>)
        requires
            old(self).wf(),
            i < old(self).entries@.len(),
        ensures
            final(self).wf(),
            final(self).entries@.len() == old(self).entries@.len(),
            forall|j: int|
                0 <= j < final(self).entries@.len() ==> (#[trigger] final(self).entries@[j]).0
                    == old(self).entries@[j].0,
            final(self)@.dom() == old(self)@.dom(),
            r is None ==> final(self)@ == old(self)@,
            r matches Some(e) ==> {
                &&& e.pos.chunk == old(self).entries@[i as int].0
                &&& event_records_placement(old(self)@, final(self)@, e)
                &&& forall|k: IVec3|
                    old(self)@.contains_key(k) && k != e.pos.chunk ==> final(self)@[k] == old(
                        self,
                    )@[k]
            },
    {
        let ghost prev = self.entries@;
        let ghost prev_map = self@;
        let key = self.entries[i].0;
        proof {
            lemma_entries_map_index(prev, i as int);
        }
        let placed = self.entries[i].1.place_random_block();
        proof {
            assert(self.entries@ =~= prev.update(i as int, (key, self.entries@[i as int].1)));
            lemma_entries_map_update(prev, i as int, self.entries@[i as int].1);
            assert(self@.dom() =~= prev_map.dom());
            if placed is None {
                assert(self.entries@ =~= prev);
            }
        }
        match placed {
            Some((b, block)) => Some(
                BlockUpdateEvent {
                    pos: BlockPos { chunk: key, block },
                    kind: BlockUpdateKind::Place(b),
                },
            ),
            None => None,
        }
    }

    /// Try one random block placement in every loaded chunk, as the
    /// synthetic content generator does each cycle: each chunk picks a
    /// random cell and, when that cell is non-solid, fills it with a
    /// random solid kind. Each successful placement overwrites exactly the
    /// cell its event reports, previously non-solid, with the event's
    /// kind; at most one event is raised per chunk, and a chunk no event
    /// names is left untouched.
    pub fn place_random_blocks(&mut self) -> (r: Vec<BlockUpdateEvent>)
        requires
            old(self).wf(),
        ensures
            final(self).wf(),
            final(self)@.dom() == old(self)@.dom(),
            forall|i: int|
                0 <= i < r@.len() ==> event_records_placement(
                    old(self)@,
                    final(self)@,
                    #[trigger] r@[i],
                ),
            forall|j: int, k: int| 0 <= j < k < r@.len() ==> r@[j].pos.chunk != r@[k].pos.chunk,
            forall|k: IVec3|
                old(self)@.contains_key(k) && (forall|i: int|
                    0 <= i < r@.len() ==> (#[trigger] r@[i]).pos.chunk != k) ==> final(self)@[k]
                    == old(self)@[k],
    {
        let ghost oe = old(self).entries@;
        // the entry index each raised event came from, in raising order
        let ghost mut sources: Seq<int> = Seq::empty();
        let mut r: Vec<BlockUpdateEvent> = Vec::new();
        let mut i: usize = 0;
        let n = self.entries.len();
        while i < n
            invariant
                self.wf(),
                n == self.entries@.len(),
                i <= n,
                oe == old(self).entries@,
                unique_keys(oe),
                self@.dom() == old(self)@.dom(),
                self.entries@.len() == oe.len(),
                forall|j: int| 0 <= j < n ==> (#[trigger] self.entries@[j]).0 == oe[j].0,
                sources.len() == r@.len(),
                forall|j: int|
                    0 <= j < r@.len() ==> 0 <= #[trigger] sources[j] < i && r@[j].pos.chunk
                        == oe[sources[j]].0,
                forall|j: int, k: int| 0 <= j < k < sources.len() ==> sources[j] < sources[k],
                forall|j: int|
                    0 <= j < r@.len() ==> event_records_placement(
                        old(self)@,
                        self@,
                        #[trigger] r@[j],
                    ),
                forall|k: IVec3|
                    old(self)@.contains_key(k) && (forall|j: int|
                        0 <= j < r@.len() ==> (#[trigger] r@[j]).pos.chunk != k) ==> self@[k]
                        == old(self)@[k],
            decreases n - i,
        {
            let ghost prev_map = self@;
            let ghost old_r = r@;
            let ghost key = self.entries@[i as int].0;
            proof {
                assert(key == oe[i as int].0);
                // no earlier event names this entry's key: each came from an
                // earlier entry, and keys are unique
                assert forall|j: int|
                    0 <= j < old_r.len() implies (#[trigger] old_r[j]).pos.chunk != key by {
                    assert(oe[sources[j]].0 != oe[i as int].0);
                }
                // so this entry's chunk is still as the tick found it
                lemma_entries_map_contains(oe, key);
                assert(old(self)@.contains_key(key));
                assert(prev_map[key] == old(self)@[key]);
            }
            let placed = self.place_random_in_entry(i);
            match placed {
                Some(event) => {
                    r.push(event);
                    proof {
                        sources = sources.push(i as int);
                        let last = r@.len() - 1;
                        assert(r@[last] == event);
                        assert(event.pos.chunk == key);
                        assert forall|j: int|
                            0 <= j < r@.len() implies event_records_placement(
                            old(self)@,
                            self@,
                            #[trigger] r@[j],
                        ) by {
                            if j == last {
                                assert(event_records_placement(prev_map, self@, event));
                                assert(prev_map[key] == old(self)@[key]);
                            } else {
                                assert(r@[j] == old_r[j]);
                                assert(event_records_placement(old(self)@, prev_map, old_r[j]));
                                assert(old_r[j].pos.chunk != key);
                                assert(self@[old_r[j].pos.chunk] == prev_map[old_r[j].pos.chunk]);
                            }
                        }
                        assert forall|k: IVec3|
                            old(self)@.contains_key(k) && (forall|j: int|
                                0 <= j < r@.len() ==> (#[trigger] r@[j]).pos.chunk != k)
                            implies self@[k] == old(self)@[k] by {
                            assert(r@[last].pos.chunk == key);
                            assert(key != k);
                            assert forall|j: int|
                                0 <= j < old_r.len() implies (#[trigger] old_r[j]).pos.chunk
                                != k by {
                                assert(r@[j] == old_r[j]);
                            }
                            assert(prev_map[k] == old(self)@[k]);
                            assert(self@[k] == prev_map[k]);
                        }
                    }
                },
                None => {
                    proof {
                        assert(self@ == prev_map);
                    }
                },
            }
            i = i + 1;
        }
        proof {
            assert forall|j: int, k: int|
                0 <= j < k < r@.len() implies r@[j].pos.chunk != r@[k].pos.chunk by {
                assert(sources[j] < sources[k]);
                assert(oe[sources[j]].0 != oe[sources[k]].0);
            }
        }
        r
    }
}


/// The first-occurrence deduplication of a coordinate sequence.
pub open spec fn dedup_first(s: Seq<IVec3>) -> Seq<IVec3>
    decreases s.len(),
{
    if s.len() == 0 {
        Seq::empty()
    } else {
        let prev = dedup_first(s.drop_last());
        if prev.contains(s.last()) {
            prev
        } else {
            prev.push(s.last())
        }
    }
}

fn contains_coord(v: &Vec<IVec3>, x: IVec3) -> (r: bool)
    ensures
        r == v@.contains(x),
{
    let mut i: usize = 0;
    let n = v.len();
    while i < n
        invariant
            n == v@.len(),
            i <= n,
            forall|j: int| 0 <= j < i ==> v@[j] != x,
        decreases n - i,
    {
        if v[i] == x {
            return true;
        }
        i = i + 1;
    }
    false
}

/// The chunks a batch of block updates touched, each coordinate once, in
/// first-appearance order: the fan-out list that the mesh and collider
/// refreshers each consume.
pub fn affected_chunks(events: &Vec<BlockUpdateEvent>) -> (r: Vec<IVec3>)
    ensures
        r@ == dedup_first(events@.map_values(|e: BlockUpdateEvent| e.pos.chunk)),
        forall|j: int, k: int| 0 <= j < k < r@.len() ==> r@[j] != r@[k],
{
    let ghost keys = events@.map_values(|e: BlockUpdateEvent| e.pos.chunk);
    let mut r: Vec<IVec3> = Vec::new();
    let mut i: usize = 0;
    let n = events.len();
    while i < n
        invariant
            n == events@.len(),
            i <= n,
            keys == events@.map_values(|e: BlockUpdateEvent| e.pos.chunk),
            r@ == dedup_first(keys.take(i as int)),
            forall|j: int, k: int| 0 <= j < k < r@.len() ==> r@[j] != r@[k],
        decreases n - i,
    {
        let c = events[i].pos.chunk;
        proof {
            assert(keys.take(i + 1).drop_last() =~= keys.take(i as int));
            assert(keys.take(i + 1).last() == keys[i as int]);
            assert(keys[i as int] == c);
        }
        let ghost old_r = r@;
        if !contains_coord(&r, c) {
            r.push(c);
            proof {
                assert forall|j: int, k: int| 0 <= j < k < r@.len() implies r@[j] != r@[k] by {
                    if k == r@.len() - 1 {
                        assert(!old_r.contains(c));
                        assert(old_r[j] != c);
                    }
                }
            }
        }
        i = i + 1;
    }
    proof {
        assert(keys.take(n as int) =~= keys);
    }
    r
}

} // verus!
