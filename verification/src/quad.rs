//! Per-face geometry: the six axis-aligned directions, the quad record
//! emitted by the mesh builder, and the fixed corner/index/normal/UV tables
//! that lower a quad into vertex data.

use vstd::prelude::*;

verus! {

use crate::block::{IVec3, Rgba, TexRect, UVec3};

/// The six axis-aligned face directions: -X, +X, -Y, +Y, -Z, +Z.
#[derive(Clone, Copy, Debug, PartialEq, Eq, Structural)]
pub enum Direction {
    Left,
    Right,
    Down,
    Up,
    Forward,
    Backward,
}

impl Direction {
    /// The position of this direction in the fixed group order.
    pub open spec fn spec_index(self) -> int {
        match self {
            Direction::Left => 0,
            Direction::Right => 1,
            Direction::Down => 2,
            Direction::Up => 3,
            Direction::Forward => 4,
            Direction::Backward => 5,
        }
    }

    pub fn index(&self) -> (r: usize)
        ensures
            r == self.spec_index(),
            r < 6,
    {
        match self {
            Direction::Left => 0,
            Direction::Right => 1,
            Direction::Down => 2,
            Direction::Up => 3,
            Direction::Forward => 4,
            Direction::Backward => 5,
        }
    }

    /// The direction at position `i` of the fixed group order.
    pub open spec fn spec_from_index(i: int) -> Direction {
        if i == 0 {
            Direction::Left
        } else if i == 1 {
            Direction::Right
        } else if i == 2 {
            Direction::Down
        } else if i == 3 {
            Direction::Up
        } else if i == 4 {
            Direction::Forward
        } else {
            Direction::Backward
        }
    }

    pub fn from_index(i: usize) -> (r: Direction)
        requires
            i < 6,
        ensures
            r == Direction::spec_from_index(i as int),
            r.spec_index() == i,
    {
        if i == 0 {
            Direction::Left
        } else if i == 1 {
            Direction::Right
        } else if i == 2 {
            Direction::Down
        } else if i == 3 {
            Direction::Up
        } else if i == 4 {
            Direction::Forward
        } else {
            Direction::Backward
        }
    }

    /// The outward unit vector of a face pointing this way.
    pub open spec fn spec_axis(self) -> IVec3 {
        match self {
            Direction::Left => IVec3 { x: -1i32, y: 0, z: 0 },
            Direction::Right => IVec3 { x: 1, y: 0, z: 0 },
            Direction::Down => IVec3 { x: 0, y: -1i32, z: 0 },
            Direction::Up => IVec3 { x: 0, y: 1, z: 0 },
            Direction::Forward => IVec3 { x: 0, y: 0, z: -1i32 },
            Direction::Backward => IVec3 { x: 0, y: 0, z: 1 },
        }
    }

    /// The outward unit vector of a face pointing this way, and also the
    /// offset from a cell to the neighbour it faces.
    pub fn axis(&self) -> (r: IVec3)
        ensures
            r == self.spec_axis(),
    {
        match self {
            Direction::Left => IVec3 { x: -1, y: 0, z: 0 },
            Direction::Right => IVec3 { x: 1, y: 0, z: 0 },
            Direction::Down => IVec3 { x: 0, y: -1, z: 0 },
            Direction::Up => IVec3 { x: 0, y: 1, z: 0 },
            Direction::Forward => IVec3 { x: 0, y: 0, z: -1 },
            Direction::Backward => IVec3 { x: 0, y: 0, z: 1 },
        }
    }
}

/// One visible face of one voxel: its cell, its tint, and its atlas region.
#[derive(Clone, Copy, Debug, PartialEq, Eq, Structural)]
pub struct Quad {
    pub voxel: UVec3,
    pub color: Rgba,
    pub uv: TexRect,
}

/// The mesh builder's output: one list of quads per face direction, indexed
/// by `Direction::spec_index`.
#[derive(Clone, Debug)]
pub struct QuadGroups {
    pub groups: Vec<Vec<Quad>>,
}

impl QuadGroups {
    /// A quad-group list always holds exactly one group per direction.
    pub open spec fn wf(&self) -> bool {
        self.groups@.len() == 6
    }

    /// The total number of quads over all six groups.
    pub open spec fn spec_total(&self) -> int {
        self.groups@[0].len() + self.groups@[1].len() + self.groups@[2].len()
            + self.groups@[3].len() + self.groups@[4].len() + self.groups@[5].len()
    }
}

/// The two counter-clockwise triangles of a quad whose four vertices start at
/// vertex index `start`.
pub fn get_indices(start: u32) -> (r: [u32; 6])
    requires
        start + 3 <= u32::MAX,
    ensures
        r@ =~= seq![
            start,
            (start + 2) as u32,
            (start + 1) as u32,
            (start + 1) as u32,
            (start + 2) as u32,
            (start + 3) as u32,
        ],
{
    [start, start + 2, start + 1, start + 1, start + 2, start + 3]
}

/// Corner `k` of a unit face on side `side` of a voxel at the origin, as
/// 0-or-1 offsets on each axis.
pub open spec fn spec_corner_offset(side: Direction, k: int) -> (int, int, int) {
    match side {
        Direction::Left => if k == 0 {
            (0, 0, 1)
        } else if k == 1 {
            (0, 0, 0)
        } else if k == 2 {
            (0, 1, 1)
        } else {
            (0, 1, 0)
        },
        Direction::Right => if k == 0 {
            (1, 0, 0)
        } else if k == 1 {
            (1, 0, 1)
        } else if k == 2 {
            (1, 1, 0)
        } else {
            (1, 1, 1)
        },
        Direction::Down => if k == 0 {
            (0, 0, 1)
        } else if k == 1 {
            (1, 0, 1)
        } else if k == 2 {
            (0, 0, 0)
        } else {
            (1, 0, 0)
        },
        Direction::Up => if k == 0 {
            (0, 1, 1)
        } else if k == 1 {
            (0, 1, 0)
        } else if k == 2 {
            (1, 1, 1)
        } else {
            (1, 1, 0)
        },
        Direction::Forward => if k == 0 {
            (0, 0, 0)
        } else if k == 1 {
            (1, 0, 0)
        } else if k == 2 {
            (0, 1, 0)
        } else {
            (1, 1, 0)
        },
        Direction::Backward => if k == 0 {
            (1, 0, 1)
        } else if k == 1 {
            (0, 0, 1)
        } else if k == 2 {
            (1, 1, 1)
        } else {
            (0, 1, 1)
        },
    }
}

/// Corner `k` of the face of `quad` on side `side`, in voxel units.
pub open spec fn spec_corner_position(quad: Quad, side: Direction, k: int) -> UVec3 {
    let (dx, dy, dz) = spec_corner_offset(side, k);
    UVec3 {
        x: (quad.voxel.x + dx) as u32,
        y: (quad.voxel.y + dy) as u32,
        z: (quad.voxel.z + dz) as u32,
    }
}

fn corner_offset(side: &Direction, k: usize) -> (r: (u32, u32, u32))
    requires
        k < 4,
    ensures
        r.0 == spec_corner_offset(*side, k as int).0,
        r.1 == spec_corner_offset(*side, k as int).1,
        r.2 == spec_corner_offset(*side, k as int).2,
{
    match side {
        Direction::Left => if k == 0 {
            (0, 0, 1)
        } else if k == 1 {
            (0, 0, 0)
        } else if k == 2 {
            (0, 1, 1)
        } else {
            (0, 1, 0)
        },
        Direction::Right => if k == 0 {
            (1, 0, 0)
        } else if k == 1 {
            (1, 0, 1)
        } else if k == 2 {
            (1, 1, 0)
        } else {
            (1, 1, 1)
        },
        Direction::Down => if k == 0 {
            (0, 0, 1)
        } else if k == 1 {
            (1, 0, 1)
        } else if k == 2 {
            (0, 0, 0)
        } else {
            (1, 0, 0)
        },
        Direction::Up => if k == 0 {
            (0, 1, 1)
        } else if k == 1 {
            (0, 1, 0)
        } else if k == 2 {
            (1, 1, 1)
        } else {
            (1, 1, 0)
        },
        Direction::Forward => if k == 0 {
            (0, 0, 0)
        } else if k == 1 {
            (1, 0, 0)
        } else if k == 2 {
            (0, 1, 0)
        } else {
            (1, 1, 0)
        },
        Direction::Backward => if k == 0 {
            (1, 0, 1)
        } else if k == 1 {
            (0, 0, 1)
        } else if k == 2 {
            (1, 1, 1)
        } else {
            (0, 1, 1)
        },
    }
}

/// The four corner positions of the face of `quad` on side `side`, in the
/// fixed winding that `get_indices` triangulates.
pub fn get_positions(quad: &Quad, side: &Direction) -> (r: [UVec3; 4])
    requires
        quad.voxel.x < u32::MAX,
        quad.voxel.y < u32::MAX,
        quad.voxel.z < u32::MAX,
    ensures
        r@.len() == 4,
        forall|k: int| 0 <= k < 4 ==> r@[k] == spec_corner_position(*quad, *side, k),
{
    let c0 = corner_offset(side, 0);
    let c1 = corner_offset(side, 1);
    let c2 = corner_offset(side, 2);
    let c3 = corner_offset(side, 3);
    [
        UVec3 { x: quad.voxel.x + c0.0, y: quad.voxel.y + c0.1, z: quad.voxel.z + c0.2 },
        UVec3 { x: quad.voxel.x + c1.0, y: quad.voxel.y + c1.1, z: quad.voxel.z + c1.2 },
        UVec3 { x: quad.voxel.x + c2.0, y: quad.voxel.y + c2.1, z: quad.voxel.z + c2.2 },
        UVec3 { x: quad.voxel.x + c3.0, y: quad.voxel.y + c3.1, z: quad.voxel.z + c3.2 },
    ]
}

/// The outward normal of a face on side `side`, repeated for its 4 vertices.
pub fn get_normals(side: &Direction) -> (r: [IVec3; 4])
    ensures
        r@.len() == 4,
        forall|k: int| 0 <= k < 4 ==> r@[k] == side.spec_axis(),
{
    let n = side.axis();
    [n, n, n, n]
}

/// A texel coordinate into the texture atlas.
#[derive(Clone, Copy, Debug, PartialEq, Eq, Structural)]
pub struct UVec2 {
    pub x: u32,
    pub y: u32,
}

/// Corner `k` of the UV rectangle `rect`, in the same winding as
/// `get_positions`: bottom edge first, then top edge.
pub open spec fn spec_uv_corner(rect: TexRect, k: int) -> UVec2 {
    if k == 0 {
        UVec2 { x: rect.min_x, y: rect.max_y }
    } else if k == 1 {
        UVec2 { x: rect.max_x, y: rect.max_y }
    } else if k == 2 {
        UVec2 { x: rect.min_x, y: rect.min_y }
    } else {
        UVec2 { x: rect.max_x, y: rect.min_y }
    }
}

/// The four texture coordinates of a quad showing atlas region `rect`.
pub fn rect_to_uvs(rect: &TexRect) -> (r: [UVec2; 4])
    ensures
        r@.len() == 4,
        forall|k: int| 0 <= k < 4 ==> r@[k] == spec_uv_corner(*rect, k),
{
    [
        UVec2 { x: rect.min_x, y: rect.max_y },
        UVec2 { x: rect.max_x, y: rect.max_y },
        UVec2 { x: rect.min_x, y: rect.min_y },
        UVec2 { x: rect.max_x, y: rect.min_y },
    ]
}

} // verus!
