//! Block catalog: the closed set of block kinds, their visibility class and
//! solidity, tint colours, texture selection, and world/chunk coordinates.

use vstd::prelude::*;

verus! {

use crate::quad::Direction;

/// One kind of block. `Air` is the default, empty, non-solid kind.
#[derive(Clone, Copy, Debug, PartialEq, Eq, Structural)]
pub enum BlockType {
    Air,
    Grass,
    Dirt,
    Stone,
    Sand,
    Glass,
}

/// How a block interacts with face culling: empty space, glass-like, or fully
/// opaque.
#[derive(Clone, Copy, Debug, PartialEq, Eq, Structural)]
pub enum Visibility {
    Empty,
    Translucent,
    Opaque,
}

/// The number of block kinds, `Air` included.
pub const BLOCK_TYPE_COUNT: usize = 6;

impl Default for BlockType {
    fn default() -> (r: Self)
        ensures
            r == BlockType::Air,
    {
        BlockType::Air
    }
}

impl BlockType {
    /// The visibility class of this kind: `Air` is empty, `Glass` is
    /// translucent, every other kind is opaque.
    pub open spec fn spec_visibility(self) -> Visibility {
        match self {
            BlockType::Air => Visibility::Empty,
            BlockType::Glass => Visibility::Translucent,
            _ => Visibility::Opaque,
        }
    }

    pub fn visibility(&self) -> (r: Visibility)
        ensures
            r == self.spec_visibility(),
    {
        match self {
            BlockType::Air => Visibility::Empty,
            BlockType::Glass => Visibility::Translucent,
            _ => Visibility::Opaque,
        }
    }

    /// A block is visible unless its visibility class is `Empty`.
    pub open spec fn spec_is_visible(self) -> bool {
        self.spec_visibility() != Visibility::Empty
    }

    pub fn is_visible(&self) -> (r: bool)
        ensures
            r == self.spec_is_visible(),
    {
        self.visibility() != Visibility::Empty
    }

    /// Every kind but `Air` is solid.
    pub open spec fn spec_is_solid(self) -> bool {
        self != BlockType::Air
    }

    pub fn is_solid(&self) -> (r: bool)
        ensures
            r == self.spec_is_solid(),
    {
        match self {
            BlockType::Air => false,
            _ => true,
        }
    }

    /// The kind at position `i` in the catalog's fixed order, `Air` first.
    pub open spec fn spec_from_index(i: int) -> BlockType {
        if i == 0 {
            BlockType::Air
        } else if i == 1 {
            BlockType::Grass
        } else if i == 2 {
            BlockType::Dirt
        } else if i == 3 {
            BlockType::Stone
        } else if i == 4 {
            BlockType::Sand
        } else {
            BlockType::Glass
        }
    }

    pub fn from_index(i: usize) -> (r: BlockType)
        requires
            i < BLOCK_TYPE_COUNT,
        ensures
            r == BlockType::spec_from_index(i as int),
    {
        if i == 0 {
            BlockType::Air
        } else if i == 1 {
            BlockType::Grass
        } else if i == 2 {
            BlockType::Dirt
        } else if i == 3 {
            BlockType::Stone
        } else if i == 4 {
            BlockType::Sand
        } else {
            BlockType::Glass
        }
    }

    /// A uniformly random kind other than `Air`.
    pub fn random_not_air() -> (r: BlockType)
        ensures
            r.spec_is_solid(),
    {
        let i = crate::rng::random_usize_in(1, BLOCK_TYPE_COUNT);
        BlockType::from_index(i)
    }
}

/// An integer 3-vector: a world block coordinate or a chunk-grid coordinate.
#[derive(Clone, Copy, Debug, PartialEq, Eq, Structural)]
pub struct IVec3 {
    pub x: i32,
    pub y: i32,
    pub z: i32,
}

impl IVec3 {
    pub fn new(x: i32, y: i32, z: i32) -> (r: IVec3)
        ensures
            r == (IVec3 { x, y, z }),
    {
        IVec3 { x, y, z }
    }
}

/// An unsigned 3-vector: a local position inside a chunk.
#[derive(Clone, Copy, Debug, PartialEq, Eq, Structural)]
pub struct UVec3 {
    pub x: u32,
    pub y: u32,
    pub z: u32,
}

impl UVec3 {
    pub fn new(x: u32, y: u32, z: u32) -> (r: UVec3)
        ensures
            r == (UVec3 { x, y, z }),
    {
        UVec3 { x, y, z }
    }
}

/// An RGBA tint, one byte per channel.
#[derive(Clone, Copy, Debug, PartialEq, Eq, Structural)]
pub struct Rgba {
    pub r: u8,
    pub g: u8,
    pub b: u8,
    pub a: u8,
}

/// The plain white tint carried by every face except grass tops.
pub open spec fn white() -> Rgba {
    Rgba { r: 0xFF, g: 0xFF, b: 0xFF, a: 0xFF }
}

/// The green tint of a grass top face.
pub open spec fn grass_green() -> Rgba {
    Rgba { r: 0x5E, g: 0x9D, b: 0x34, a: 0xFF }
}

/// The tint of one face: grass tops are green, everything else is white.
pub open spec fn spec_block_colour(block: BlockType, side: Direction) -> Rgba {
    if block == BlockType::Grass && side == Direction::Up {
        grass_green()
    } else {
        white()
    }
}

pub fn block_to_colour(block: BlockType, side: Direction) -> (r: Rgba)
    ensures
        r == spec_block_colour(block, side),
{
    if matches!(block, BlockType::Grass) && matches!(side, Direction::Up) {
        Rgba { r: 0x5E, g: 0x9D, b: 0x34, a: 0xFF }
    } else {
        Rgba { r: 0xFF, g: 0xFF, b: 0xFF, a: 0xFF }
    }
}

/// A rectangular region of the shared texture atlas, in texel coordinates.
#[derive(Clone, Copy, Debug, PartialEq, Eq, Structural)]
pub struct TexRect {
    pub min_x: u32,
    pub min_y: u32,
    pub max_x: u32,
    pub max_y: u32,
}

/// The number of distinct block textures in the atlas.
pub const TEXTURE_COUNT: usize = 6;

/// Which of the six atlas textures a visible block face uses.
/// `Air` has no visible faces and therefore no texture.
pub open spec fn spec_texture_index(block: BlockType, side: Direction) -> int
    recommends
        block != BlockType::Air,
{
    match block {
        BlockType::Air => 0,
        BlockType::Dirt => 0,
        BlockType::Grass => match side {
            Direction::Up => 1,
            Direction::Down => 0,
            _ => 2,
        },
        BlockType::Sand => 3,
        BlockType::Stone => 4,
        BlockType::Glass => 5,
    }
}

pub fn texture_index(block: BlockType, side: Direction) -> (r: usize)
    requires
        block != BlockType::Air,
    ensures
        r == spec_texture_index(block, side),
        r < TEXTURE_COUNT,
{
    match block {
        BlockType::Air => 0,
        BlockType::Dirt => 0,
        BlockType::Grass => match side {
            Direction::Up => 1,
            Direction::Down => 0,
            _ => 2,
        },
        BlockType::Sand => 3,
        BlockType::Stone => 4,
        BlockType::Glass => 5,
    }
}

/// The asset path of the texture at position `i` of the atlas order.
pub open spec fn spec_texture_path_of_index(i: int) -> Seq<char> {
    if i == 0 {
        "textures/block/dirt.png"@
    } else if i == 1 {
        "textures/block/grass_block_top.png"@
    } else if i == 2 {
        "textures/block/grass_block_side.png"@
    } else if i == 3 {
        "textures/block/sand.png"@
    } else if i == 4 {
        "textures/block/stone.png"@
    } else {
        "textures/block/glass.png"@
    }
}

/// The asset path of the texture shown by `block` on `side`.
pub fn block_and_side_to_texture_path(block: BlockType, side: Direction) -> (r: &'static str)
    requires
        block != BlockType::Air,
    ensures
        r@ == spec_texture_path_of_index(spec_texture_index(block, side)),
{
    match block {
        BlockType::Air => "textures/block/dirt.png",
        BlockType::Dirt => "textures/block/dirt.png",
        BlockType::Grass => match side {
            Direction::Up => "textures/block/grass_block_top.png",
            Direction::Down => "textures/block/dirt.png",
            _ => "textures/block/grass_block_side.png",
        },
        BlockType::Sand => "textures/block/sand.png",
        BlockType::Stone => "textures/block/stone.png",
        BlockType::Glass => "textures/block/glass.png",
    }
}

/// The texture-atlas lookup table: one rectangle per texture, in the fixed
/// atlas order of `spec_texture_path_of_index`.
#[derive(Clone, Debug)]
pub struct BlockTextureMap {
    rects: Vec<TexRect>,
}

impl BlockTextureMap {
    /// The atlas rectangles, one per texture index.
    pub closed spec fn view(&self) -> Seq<TexRect> {
        self.rects@
    }

    pub closed spec fn wf(&self) -> bool {
        self.rects@.len() == TEXTURE_COUNT
    }

    pub fn new(rects: Vec<TexRect>) -> (r: BlockTextureMap)
        requires
            rects@.len() == TEXTURE_COUNT,
        ensures
            r.wf(),
            r@ == rects@,
    {
        BlockTextureMap { rects }
    }

    /// The atlas rectangle for one face of one block.
    pub fn block_to_mesh(&self, block: BlockType, side: Direction) -> (r: TexRect)
        requires
            self.wf(),
            block != BlockType::Air,
        ensures
            r == self@[spec_texture_index(block, side)],
    {
        let i = texture_index(block, side);
        self.rects[i]
    }
}

/// The edge length of a chunk as a world-coordinate divisor.
pub const CHUNK_ISIZE: i32 = 16;

/// The chunk-grid coordinate holding world coordinate `w`: floor division by
/// the chunk edge, rounding toward negative infinity.
pub open spec fn chunk_coord(w: int) -> int {
    w / 16
}

/// The in-chunk coordinate of world coordinate `w`, always in `[0, 16)`.
pub open spec fn local_coord(w: int) -> int {
    w % 16
}

/// For every integer world coordinate, splitting into a chunk coordinate and
/// a local coordinate and recombining restores the original coordinate.
pub proof fn lemma_global_round_trip(w: int)
    ensures
        chunk_coord(w) * 16 + local_coord(w) == w,
        0 <= local_coord(w) < 16,
{
    vstd::arithmetic::div_mod::lemma_fundamental_div_mod(w, 16);
    vstd::arithmetic::div_mod::lemma_mod_bound(w, 16);
}

/// Floor division of a world coordinate by the chunk edge.
fn floor_div_edge(a: i32) -> (q: i32)
    ensures
        q == chunk_coord(a as int),
{
    proof {
        vstd::arithmetic::div_mod::lemma_fundamental_div_mod(a as int, 16);
        vstd::arithmetic::div_mod::lemma_mod_bound(a as int, 16);
    }
    if a >= 0 {
        a / 16
    } else {
        -((-(a + 1)) / 16) - 1
    }
}

/// The address of one block: the chunk-grid coordinate of its chunk and its
/// local position inside that chunk.
#[derive(Clone, Copy, Debug, PartialEq, Eq, Structural)]
pub struct BlockPos {
    pub chunk: IVec3,
    pub block: UVec3,
}

impl BlockPos {
    /// Every local coordinate of a well-formed address lies inside a chunk.
    pub open spec fn wf(self) -> bool {
        self.block.x < 16 && self.block.y < 16 && self.block.z < 16
    }

    /// Split a world block coordinate into chunk and local coordinates,
    /// flooring toward negative infinity on each axis.
    pub fn from_global(pos: IVec3) -> (r: BlockPos)
        ensures
            r.wf(),
            r.chunk.x == chunk_coord(pos.x as int),
            r.chunk.y == chunk_coord(pos.y as int),
            r.chunk.z == chunk_coord(pos.z as int),
            r.block.x == local_coord(pos.x as int),
            r.block.y == local_coord(pos.y as int),
            r.block.z == local_coord(pos.z as int),
    {
        proof {
            lemma_global_round_trip(pos.x as int);
            lemma_global_round_trip(pos.y as int);
            lemma_global_round_trip(pos.z as int);
        }
        let cx = floor_div_edge(pos.x);
        let cy = floor_div_edge(pos.y);
        let cz = floor_div_edge(pos.z);
        BlockPos {
            chunk: IVec3 { x: cx, y: cy, z: cz },
            block: UVec3 {
                x: (pos.x - cx * CHUNK_ISIZE) as u32,
                y: (pos.y - cy * CHUNK_ISIZE) as u32,
                z: (pos.z - cz * CHUNK_ISIZE) as u32,
            },
        }
    }

    /// Recombine the chunk and local coordinates into the world coordinate.
    pub fn to_global(&self) -> (r: IVec3)
        requires
            self.wf(),
            i32::MIN <= self.chunk.x * 16 + self.block.x <= i32::MAX,
            i32::MIN <= self.chunk.y * 16 + self.block.y <= i32::MAX,
            i32::MIN <= self.chunk.z * 16 + self.block.z <= i32::MAX,
        ensures
            r.x == self.chunk.x * 16 + self.block.x,
            r.y == self.chunk.y * 16 + self.block.y,
            r.z == self.chunk.z * 16 + self.block.z,
    {
        IVec3 {
            x: self.chunk.x * CHUNK_ISIZE + self.block.x as i32,
            y: self.chunk.y * CHUNK_ISIZE + self.block.y as i32,
            z: self.chunk.z * CHUNK_ISIZE + self.block.z as i32,
        }
    }
}

/// What a successful mutation did to a block: removed it, or put a kind there.
#[derive(Clone, Copy, Debug, PartialEq, Eq, Structural)]
pub enum BlockUpdateKind {
    Break,
    Place(BlockType),
}

/// A notification raised after a successful mutation, keyed by the mutated
/// chunk's grid coordinate.
#[derive(Clone, Copy, Debug, PartialEq, Eq, Structural)]
pub struct BlockUpdateEvent {
    pub pos: BlockPos,
    pub kind: BlockUpdateKind,
}

} // verus!
