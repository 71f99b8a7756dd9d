//! Chunk storage: a fixed 16x16x16 cube of blocks with bounds-checked
//! accessors and the place/break/random-fill mutation primitives.

use vstd::prelude::*;

verus! {

use crate::block::{BlockType, UVec3};

/// The edge length of a chunk, in blocks.
pub const CHUNK_SIZE: usize = 16;

/// The number of cells of a chunk.
pub const CHUNK_VOLUME: usize = 4096;

/// The flat storage index of local cell `(x, y, z)`: `x` strongest, then
/// `z`, then `y`.
pub open spec fn flat_index(x: int, y: int, z: int) -> int {
    x * 256 + z * 16 + y
}

/// Whether `(x, y, z)` lies inside a chunk.
pub open spec fn in_chunk_bounds(x: int, y: int, z: int) -> bool {
    0 <= x < 16 && 0 <= y < 16 && 0 <= z < 16
}

/// The block stored at in-bounds local cell `(x, y, z)` of chunk contents `c`.
pub open spec fn spec_block_at(c: Seq<BlockType>, x: int, y: int, z: int) -> BlockType
    recommends
        c.len() == CHUNK_VOLUME,
        in_chunk_bounds(x, y, z),
{
    c[flat_index(x, y, z)]
}

/// A 16x16x16 cube of blocks, the unit of storage and mesh regeneration.
#[derive(Clone, Debug)]
pub struct Chunk {
    blocks: Vec<BlockType>,
}

impl View for Chunk {
    type V = Seq<BlockType>;

    /// The chunk's cells in flat storage order.
    closed spec fn view(&self) -> Seq<BlockType> {
        self.blocks@
    }
}

impl Default for Chunk {
    /// A chunk filled entirely with `Air`.
    fn default() -> (r: Chunk)
        ensures
            r.wf(),
            forall|i: int| 0 <= i < CHUNK_VOLUME ==> r@[i] == BlockType::Air,
    {
        Chunk::new_filled(BlockType::Air)
    }
}

impl Chunk {
    /// A well-formed chunk holds exactly one block per cell.
    pub open spec fn wf(&self) -> bool {
        self@.len() == CHUNK_VOLUME
    }

    /// A chunk with every cell holding `b`.
    pub fn new_filled(b: BlockType) -> (r: Chunk)
        ensures
            r.wf(),
            forall|i: int| 0 <= i < CHUNK_VOLUME ==> r@[i] == b,
    {
        let mut blocks: Vec<BlockType> = Vec::new();
        let mut i: usize = 0;
        while i < CHUNK_VOLUME
            invariant
                i <= CHUNK_VOLUME,
                blocks@.len() == i,
                forall|j: int| 0 <= j < i ==> blocks@[j] == b,
            decreases CHUNK_VOLUME - i,
        {
            blocks.push(b);
            i = i + 1;
        }
        Chunk { blocks }
    }

    /// The block at local position `pos`, which must lie inside the chunk.
    pub fn get(&self, pos: UVec3) -> (r: BlockType)
        requires
            self.wf(),
            in_chunk_bounds(pos.x as int, pos.y as int, pos.z as int),
        ensures
            r == spec_block_at(self@, pos.x as int, pos.y as int, pos.z as int),
    {
        self.blocks[(pos.x as usize) * 256 + (pos.z as usize) * 16 + (pos.y as usize)]
    }

    /// The block at signed local position `(x, y, z)`, or nothing when the
    /// position lies outside the chunk.
    pub fn get_i(&self, x: i32, y: i32, z: i32) -> (r: Option<BlockType>)
        requires
            self.wf(),
        ensures
            in_chunk_bounds(x as int, y as int, z as int) ==> r == Some(
                spec_block_at(self@, x as int, y as int, z as int),
            ),
            !in_chunk_bounds(x as int, y as int, z as int) ==> r is None,
    {
        if x < 0 || x >= 16 || y < 0 || y >= 16 || z < 0 || z >= 16 {
            return None;
        }
        Some(self.blocks[(x as usize) * 256 + (z as usize) * 16 + (y as usize)])
    }

    /// Overwrite the in-bounds cell `pos` with `b`.
    fn set_at(&mut self, pos: UVec3, b: BlockType)
        requires
            old(self).wf(),
            in_chunk_bounds(pos.x as int, pos.y as int, pos.z as int),
        ensures
            final(self).wf(),
            final(self)@ == old(self)@.update(
                flat_index(pos.x as int, pos.y as int, pos.z as int),
                b,
            ),
    {
        let i: usize = (pos.x as usize) * 256 + (pos.z as usize) * 16 + (pos.y as usize);
        self.blocks[i] = b;
    }

    /// Put `b` at `pos`. Fails, leaving the chunk unmodified, when `pos` is
    /// out of range or the cell already holds a solid block.
    pub fn place_block(&mut self, pos: UVec3, b: BlockType) -> (r: bool)
        requires
            old(self).wf(),
        ensures
            final(self).wf(),
            r == (in_chunk_bounds(pos.x as int, pos.y as int, pos.z as int)
                && !spec_block_at(old(self)@, pos.x as int, pos.y as int, pos.z as int)
                .spec_is_solid()),
            r ==> final(self)@ == old(self)@.update(
                flat_index(pos.x as int, pos.y as int, pos.z as int),
                b,
            ),
            !r ==> *final(self) == *old(self),
    {
        if pos.x >= 16 || pos.y >= 16 || pos.z >= 16 {
            return false;
        }
        if self.get(pos).is_solid() {
            return false;
        }
        self.set_at(pos, b);
        true
    }

    /// Reset the cell at `pos` to `Air`. Fails, leaving the chunk
    /// unmodified, when `pos` is out of range or the cell is not solid.
    pub fn break_block(&mut self, pos: UVec3) -> (r: bool)
        requires
            old(self).wf(),
        ensures
            final(self).wf(),
            r == (in_chunk_bounds(pos.x as int, pos.y as int, pos.z as int)
                && spec_block_at(old(self)@, pos.x as int, pos.y as int, pos.z as int)
                .spec_is_solid()),
            r ==> final(self)@ == old(self)@.update(
                flat_index(pos.x as int, pos.y as int, pos.z as int),
                BlockType::Air,
            ),
            !r ==> *final(self) == *old(self),
    {
        if pos.x >= 16 || pos.y >= 16 || pos.z >= 16 {
            return false;
        }
        if !self.get(pos).is_solid() {
            return false;
        }
        self.set_at(pos, BlockType::Air);
        true
    }

    /// Pick a uniformly random cell; when it is non-solid, overwrite it with
    /// a uniformly random solid kind and report what was placed where.
    pub fn place_random_block(&mut self) -> (r: Option<(BlockType, UVec3)>)
        requires
            old(self).wf(),
        ensures
            final(self).wf(),
            r matches Some((b, pos)) ==> {
                &&& b.spec_is_solid()
                &&& in_chunk_bounds(pos.x as int, pos.y as int, pos.z as int)
                &&& !spec_block_at(old(self)@, pos.x as int, pos.y as int, pos.z as int)
                    .spec_is_solid()
                &&& final(self)@ == old(self)@.update(
                    flat_index(pos.x as int, pos.y as int, pos.z as int),
                    b,
                )
            },
            r is None ==> *final(self) == *old(self),
    {
        let x = crate::rng::random_usize_in(0, CHUNK_SIZE);
        let y = crate::rng::random_usize_in(0, CHUNK_SIZE);
        let z = crate::rng::random_usize_in(0, CHUNK_SIZE);
        let pos = UVec3 { x: x as u32, y: y as u32, z: z as u32 };
        if self.get(pos).is_solid() {
            return None;
        }
        let b = BlockType::random_not_air();
        self.set_at(pos, b);
        Some((b, pos))
    }

    /// Every cell of the chunk with its local coordinates, in a fixed
    /// traversal order: `x` fastest, then `z`, then `y`.
    pub fn iter(&self) -> (r: Vec<(BlockType, (usize, usize, usize))>)
        requires
            self.wf(),
        ensures
            r@.len() == CHUNK_VOLUME,
            forall|y: int, z: int, x: int|
                in_chunk_bounds(x, y, z) ==> r@[y * 256 + z * 16 + x] == (
                    spec_block_at(self@, x, y, z),
                    (x as usize, y as usize, z as usize),
                ),
    {
        let mut r: Vec<(BlockType, (usize, usize, usize))> = Vec::new();
        let mut y: usize = 0;
        while y < 16
            invariant
                self.wf(),
                y <= 16,
                r@.len() == y * 256,
                forall|yy: int, zz: int, xx: int|
                    in_chunk_bounds(xx, yy, zz) && yy < y ==> r@[yy * 256 + zz * 16 + xx] == (
                        spec_block_at(self@, xx, yy, zz),
                        (xx as usize, yy as usize, zz as usize),
                    ),
            decreases 16 - y,
        {
            let mut z: usize = 0;
            while z < 16
                invariant
                    self.wf(),
                    y < 16,
                    z <= 16,
                    r@.len() == y * 256 + z * 16,
                    forall|yy: int, zz: int, xx: int|
                        in_chunk_bounds(xx, yy, zz) && (yy < y || (yy == y && zz < z)) ==> r@[yy
                            * 256 + zz * 16 + xx] == (
                            spec_block_at(self@, xx, yy, zz),
                            (xx as usize, yy as usize, zz as usize),
                        ),
                decreases 16 - z,
            {
                let mut x: usize = 0;
                while x < 16
                    invariant
                        self.wf(),
                        y < 16,
                        z < 16,
                        x <= 16,
                        r@.len() == y * 256 + z * 16 + x,
                        forall|yy: int, zz: int, xx: int|
                            in_chunk_bounds(xx, yy, zz) && (yy < y || (yy == y && zz < z) || (yy
                                == y && zz == z && xx < x)) ==> r@[yy * 256 + zz * 16 + xx] == (
                                spec_block_at(self@, xx, yy, zz),
                                (xx as usize, yy as usize, zz as usize),
                            ),
                    decreases 16 - x,
                {
                    let b = self.blocks[x * 256 + z * 16 + y];
                    r.push((b, (x, y, z)));
                    x = x + 1;
                }
                z = z + 1;
            }
            y = y + 1;
        }
        r
    }

    /// The position of a local cell in the `iter` traversal order: `x`
    /// fastest, then `z`, then `y`.
    pub open spec fn traversal_rank(v: UVec3) -> int {
        v.y * 256 + v.z * 16 + v.x
    }

    /// The local coordinates of every solid cell, each exactly once, in
    /// the `iter` traversal order. These are the unit cubes of the chunk's
    /// collision volume.
    pub fn solid_positions(&self) -> (r: Vec<UVec3>)
        requires
            self.wf(),
        ensures
            forall|k: int|
                0 <= k < r@.len() ==> {
                    &&& in_chunk_bounds(r@[k].x as int, r@[k].y as int, r@[k].z as int)
                    &&& spec_block_at(
                        self@,
                        r@[k].x as int,
                        r@[k].y as int,
                        r@[k].z as int,
                    ).spec_is_solid()
                },
            forall|x: int, y: int, z: int|
                in_chunk_bounds(x, y, z) && spec_block_at(self@, x, y, z).spec_is_solid()
                    ==> r@.contains(UVec3 { x: x as u32, y: y as u32, z: z as u32 }),
            forall|j: int, k: int|
                0 <= j < k < r@.len() ==> Self::traversal_rank(r@[j]) < Self::traversal_rank(
                    r@[k],
                ),
            forall|j: int, k: int| 0 <= j < k < r@.len() ==> r@[j] != r@[k],
    {
        let mut r: Vec<UVec3> = Vec::new();
        let mut y: usize = 0;
        while y < 16
            invariant
                self.wf(),
                y <= 16,
                forall|k: int|
                    0 <= k < r@.len() ==> {
                        &&& in_chunk_bounds(r@[k].x as int, r@[k].y as int, r@[k].z as int)
                        &&& spec_block_at(
                            self@,
                            r@[k].x as int,
                            r@[k].y as int,
                            r@[k].z as int,
                        ).spec_is_solid()
                        &&& (r@[k].y as int) < y
                    },
                forall|xx: int, yy: int, zz: int|
                    in_chunk_bounds(xx, yy, zz) && yy < y && spec_block_at(
                        self@,
                        xx,
                        yy,
                        zz,
                    ).spec_is_solid() ==> r@.contains(
                        UVec3 { x: xx as u32, y: yy as u32, z: zz as u32 },
                    ),
                forall|j: int, k: int|
                    0 <= j < k < r@.len() ==> Self::traversal_rank(r@[j])
                        < Self::traversal_rank(r@[k]),
            decreases 16 - y,
        {
            let mut z: usize = 0;
            while z < 16
                invariant
                    self.wf(),
                    y < 16,
                    z <= 16,
                    forall|k: int|
                        0 <= k < r@.len() ==> {
                            &&& in_chunk_bounds(r@[k].x as int, r@[k].y as int, r@[k].z as int)
                            &&& spec_block_at(
                                self@,
                                r@[k].x as int,
                                r@[k].y as int,
                                r@[k].z as int,
                            ).spec_is_solid()
                            &&& ((r@[k].y as int) < y || (r@[k].y as int == y && (r@[k].z as int)
                                < z))
                        },
                    forall|xx: int, yy: int, zz: int|
                        in_chunk_bounds(xx, yy, zz) && (yy < y || (yy == y && zz < z))
                            && spec_block_at(self@, xx, yy, zz).spec_is_solid() ==> r@.contains(
                            UVec3 { x: xx as u32, y: yy as u32, z: zz as u32 },
                        ),
                    forall|j: int, k: int|
                        0 <= j < k < r@.len() ==> Self::traversal_rank(r@[j])
                            < Self::traversal_rank(r@[k]),
                decreases 16 - z,
            {
                let mut x: usize = 0;
                while x < 16
                    invariant
                        self.wf(),
                        y < 16,
                        z < 16,
                        x <= 16,
                        forall|k: int|
                            0 <= k < r@.len() ==> {
                                &&& in_chunk_bounds(r@[k].x as int, r@[k].y as int, r@[k].z as int)
                                &&& spec_block_at(
                                    self@,
                                    r@[k].x as int,
                                    r@[k].y as int,
                                    r@[k].z as int,
                                ).spec_is_solid()
                                &&& ((r@[k].y as int) < y || (r@[k].y as int == y && (r@[k].z
                                    as int) < z) || (r@[k].y as int == y && r@[k].z as int == z
                                    && (r@[k].x as int) < x))
                            },
                        forall|xx: int, yy: int, zz: int|
                            in_chunk_bounds(xx, yy, zz) && (yy < y || (yy == y && zz < z) || (yy
                                == y && zz == z && xx < x)) && spec_block_at(
                                self@,
                                xx,
                                yy,
                                zz,
                            ).spec_is_solid() ==> r@.contains(
                                UVec3 { x: xx as u32, y: yy as u32, z: zz as u32 },
                            ),
                        forall|j: int, k: int|
                            0 <= j < k < r@.len() ==> Self::traversal_rank(r@[j])
                                < Self::traversal_rank(r@[k]),
                    decreases 16 - x,
                {
                    let b = self.blocks[x * 256 + z * 16 + y];
                    let ghost prev = r@;
                    if b.is_solid() {
                        r.push(UVec3 { x: x as u32, y: y as u32, z: z as u32 });
                    }
                    proof {
                        assert forall|xx: int, yy: int, zz: int|
                            in_chunk_bounds(xx, yy, zz) && (yy < y || (yy == y && zz < z) || (yy
                                == y && zz == z && xx < x + 1)) && spec_block_at(
                                self@,
                                xx,
                                yy,
                                zz,
                            ).spec_is_solid() implies r@.contains(
                            UVec3 { x: xx as u32, y: yy as u32, z: zz as u32 },
                        ) by {
                            let v = UVec3 { x: xx as u32, y: yy as u32, z: zz as u32 };
                            if xx == x && yy == y && zz == z {
                                assert(r@[r@.len() - 1] == v);
                            } else {
                                assert(prev.contains(v));
                                let k = choose|k: int| 0 <= k < prev.len() && prev[k] == v;
                                assert(r@[k] == v);
                            }
                        }
                    }
                    x = x + 1;
                }
                z = z + 1;
            }
            y = y + 1;
        }
        r
    }
}

/// Placing a kind into an in-range cell holding nothing solid, then reading
/// that cell, yields the placed kind: what `place_block` writes is what
/// `get` returns.
pub proof fn law_place_then_get(c: Seq<BlockType>, x: int, y: int, z: int, k: BlockType)
    requires
        c.len() == CHUNK_VOLUME,
        in_chunk_bounds(x, y, z),
        !spec_block_at(c, x, y, z).spec_is_solid(),
    ensures
        spec_block_at(c.update(flat_index(x, y, z), k), x, y, z) == k,
{
}

/// Breaking a cell leaves `Air` there, which is not solid: a second break
/// of the same cell must fail.
pub proof fn law_break_idempotent_failure(c: Seq<BlockType>, x: int, y: int, z: int)
    requires
        c.len() == CHUNK_VOLUME,
        in_chunk_bounds(x, y, z),
    ensures
        !spec_block_at(c.update(flat_index(x, y, z), BlockType::Air), x, y, z).spec_is_solid(),
{
}

/// A chunk holding a flat one-block-thick floor at height zero, alternating
/// grass and glass in a checker pattern, with air above.
pub fn generate_flat_chunk_data() -> (r: Chunk)
    ensures
        r.wf(),
        forall|x: int, z: int|
            0 <= x < 16 && 0 <= z < 16 ==> spec_block_at(r@, x, 0, z) == (if (x + z) % 2 == 0 {
                BlockType::Grass
            } else {
                BlockType::Glass
            }),
        forall|x: int, y: int, z: int|
            in_chunk_bounds(x, y, z) && y > 0 ==> spec_block_at(r@, x, y, z) == BlockType::Air,
{
    let mut chunk = Chunk::new_filled(BlockType::Air);
    let mut x: usize = 0;
    while x < 16
        invariant
            chunk.wf(),
            x <= 16,
            forall|xx: int, zz: int|
                0 <= xx < x && 0 <= zz < 16 ==> spec_block_at(chunk@, xx, 0, zz) == (if (xx + zz)
                    % 2 == 0 {
                    BlockType::Grass
                } else {
                    BlockType::Glass
                }),
            forall|xx: int, yy: int, zz: int|
                in_chunk_bounds(xx, yy, zz) && (yy > 0 || xx >= x) ==> spec_block_at(
                    chunk@,
                    xx,
                    yy,
                    zz,
                ) == BlockType::Air,
        decreases 16 - x,
    {
        let mut z: usize = 0;
        while z < 16
            invariant
                chunk.wf(),
                x < 16,
                z <= 16,
                forall|xx: int, zz: int|
                    0 <= xx < 16 && 0 <= zz < 16 && (xx < x || (xx == x && zz < z))
                        ==> spec_block_at(chunk@, xx, 0, zz) == (if (xx + zz) % 2 == 0 {
                        BlockType::Grass
                    } else {
                        BlockType::Glass
                    }),
                forall|xx: int, yy: int, zz: int|
                    in_chunk_bounds(xx, yy, zz) && (yy > 0 || xx > x || (xx == x && zz >= z))
                        ==> spec_block_at(chunk@, xx, yy, zz) == BlockType::Air,
            decreases 16 - z,
        {
            let b = if (x + z) % 2 == 0 {
                BlockType::Grass
            } else {
                BlockType::Glass
            };
            let ghost prev = chunk@;
            chunk.set_at(UVec3 { x: x as u32, y: 0, z: z as u32 }, b);
            proof {
                assert forall|xx: int, zz: int|
                    0 <= xx < 16 && 0 <= zz < 16 && (xx < x || (xx == x && zz < z + 1))
                        implies spec_block_at(chunk@, xx, 0, zz) == (if (xx + zz) % 2 == 0 {
                        BlockType::Grass
                    } else {
                        BlockType::Glass
                    }) by {
                    if !(xx == x && zz == z) {
                        assert(spec_block_at(prev, xx, 0, zz) == (if (xx + zz) % 2 == 0 {
                            BlockType::Grass
                        } else {
                            BlockType::Glass
                        }));
                        assert(flat_index(xx, 0, zz) != flat_index(x as int, 0, z as int));
                    }
                }
                assert forall|xx: int, yy: int, zz: int|
                    in_chunk_bounds(xx, yy, zz) && (yy > 0 || xx > x || (xx == x && zz >= z + 1))
                        implies spec_block_at(chunk@, xx, yy, zz) == BlockType::Air by {
                    assert(spec_block_at(prev, xx, yy, zz) == BlockType::Air);
                    assert(flat_index(xx, yy, zz) != flat_index(x as int, 0, z as int));
                }
            }
            z = z + 1;
        }
        x = x + 1;
    }
    chunk
}

/// A chunk with every cell holding a random solid kind.
pub fn generate_full_chunk_data() -> (r: Chunk)
    ensures
        r.wf(),
        forall|i: int| 0 <= i < CHUNK_VOLUME ==> r@[i].spec_is_solid(),
{
    let mut blocks: Vec<BlockType> = Vec::new();
    let mut i: usize = 0;
    while i < CHUNK_VOLUME
        invariant
            i <= CHUNK_VOLUME,
            blocks@.len() == i,
            forall|j: int| 0 <= j < i ==> blocks@[j].spec_is_solid(),
        decreases CHUNK_VOLUME - i,
    {
        blocks.push(BlockType::random_not_air());
        i = i + 1;
    }
    Chunk { blocks }
}

} // verus!
