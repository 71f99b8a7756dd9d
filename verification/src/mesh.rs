//! Mesh builder: walks a chunk, keeps exactly the visible boundary faces
//! between visible and non-visible regions, and lowers the surviving quads
//! into a flat vertex/index buffer.

use vstd::prelude::*;

verus! {

use crate::block::{
    spec_block_colour, spec_texture_index, BlockTextureMap, BlockType, IVec3, Rgba, TexRect,
    UVec3, Visibility,
};
use crate::chunk::{flat_index, in_chunk_bounds, spec_block_at, Chunk, CHUNK_VOLUME};
use crate::quad::{
    get_indices, get_normals, get_positions, rect_to_uvs, spec_corner_position, spec_uv_corner,
    Direction, Quad, QuadGroups, UVec2,
};

/// The `x` coordinate of the cell visited at step `t` of the fixed chunk
/// traversal (`z` fastest, then `y`, then `x`).
pub open spec fn cell_x(t: int) -> int {
    t / 256
}

/// The `y` coordinate of the cell visited at step `t`.
pub open spec fn cell_y(t: int) -> int {
    (t / 16) % 16
}

/// The `z` coordinate of the cell visited at step `t`.
pub open spec fn cell_z(t: int) -> int {
    t % 16
}

/// The block adjacent to in-bounds cell `(x, y, z)` on side `side`; a
/// neighbour beyond the chunk boundary counts as `Air`.
pub open spec fn spec_neighbor(c: Seq<BlockType>, x: int, y: int, z: int, side: Direction)
    -> BlockType {
    let a = side.spec_axis();
    let nx = x + a.x;
    let ny = y + a.y;
    let nz = z + a.z;
    if in_chunk_bounds(nx, ny, nz) {
        spec_block_at(c, nx, ny, nz)
    } else {
        BlockType::Air
    }
}

/// Whether a visible block `b` shows a face toward its neighbour `n`:
/// opaque blocks face empty or translucent space, translucent blocks face
/// empty space or a translucent neighbour of a different kind, and no face
/// stands between two opaque blocks.
pub open spec fn spec_shows_face(b: BlockType, n: BlockType) -> bool {
    match (b.spec_visibility(), n.spec_visibility()) {
        (Visibility::Opaque, Visibility::Empty) => true,
        (Visibility::Opaque, Visibility::Translucent) => true,
        (Visibility::Translucent, Visibility::Empty) => true,
        (Visibility::Translucent, Visibility::Translucent) => b != n,
        _ => false,
    }
}

fn shows_face(b: BlockType, n: BlockType) -> (r: bool)
    ensures
        r == spec_shows_face(b, n),
{
    match (b.visibility(), n.visibility()) {
        (Visibility::Opaque, Visibility::Empty) => true,
        (Visibility::Opaque, Visibility::Translucent) => true,
        (Visibility::Translucent, Visibility::Empty) => true,
        (Visibility::Translucent, Visibility::Translucent) => !matches!(
            (b, n),
            (BlockType::Glass, BlockType::Glass)
        ),
        _ => false,
    }
}

/// Whether the mesh of chunk contents `c` holds a face on side `side` of
/// cell `(x, y, z)`.
pub open spec fn spec_face_emitted(
    c: Seq<BlockType>,
    x: int,
    y: int,
    z: int,
    side: Direction,
) -> bool {
    let b = spec_block_at(c, x, y, z);
    b.spec_is_visible() && spec_shows_face(b, spec_neighbor(c, x, y, z, side))
}

/// The quad emitted for side `side` of cell `(x, y, z)`: the cell, the atlas
/// region of the block's texture on that side, and the side's tint.
pub open spec fn spec_quad_at(
    c: Seq<BlockType>,
    rects: Seq<TexRect>,
    x: int,
    y: int,
    z: int,
    side: Direction,
) -> Quad {
    let b = spec_block_at(c, x, y, z);
    Quad {
        voxel: UVec3 { x: x as u32, y: y as u32, z: z as u32 },
        color: spec_block_colour(b, side),
        uv: rects[spec_texture_index(b, side)],
    }
}

/// The quads emitted for side `side` by the first `n` steps of the chunk
/// traversal, in traversal order.
pub open spec fn side_quads_upto(
    c: Seq<BlockType>,
    rects: Seq<TexRect>,
    side: Direction,
    n: int,
) -> Seq<Quad>
    decreases n,
{
    if n <= 0 {
        Seq::empty()
    } else {
        let prev = side_quads_upto(c, rects, side, n - 1);
        let t = n - 1;
        if spec_face_emitted(c, cell_x(t), cell_y(t), cell_z(t), side) {
            prev.push(spec_quad_at(c, rects, cell_x(t), cell_y(t), cell_z(t), side))
        } else {
            prev
        }
    }
}

/// All quads of side `side` of the finished mesh of chunk contents `c`.
pub open spec fn spec_side_quads(c: Seq<BlockType>, rects: Seq<TexRect>, side: Direction)
    -> Seq<Quad> {
    side_quads_upto(c, rects, side, CHUNK_VOLUME as int)
}

/// A traversal prefix emits at most one quad per step, each for an in-bounds
/// cell of the prefix.
pub proof fn lemma_side_quads_len(c: Seq<BlockType>, rects: Seq<TexRect>, side: Direction, n: int)
    requires
        n <= CHUNK_VOLUME as int,
    ensures
        side_quads_upto(c, rects, side, n).len() <= (if n >= 0 {
            n
        } else {
            0
        }),
        forall|j: int|
            0 <= j < side_quads_upto(c, rects, side, n).len()
                ==> (#[trigger] side_quads_upto(c, rects, side, n)[j]).voxel.x < 16
                && side_quads_upto(c, rects, side, n)[j].voxel.y < 16
                && side_quads_upto(c, rects, side, n)[j].voxel.z < 16,
    decreases n,
{
    if n > 0 {
        lemma_side_quads_len(c, rects, side, n - 1);
        let t = n - 1;
        assert(0 <= t % 16 < 16) by {
            vstd::arithmetic::div_mod::lemma_mod_bound(t, 16);
        }
        assert(0 <= (t / 16) % 16 < 16) by {
            vstd::arithmetic::div_mod::lemma_mod_bound(t / 16, 16);
        }
        assert(0 <= t / 256 < 16) by {
            vstd::arithmetic::div_mod::lemma_div_is_ordered(t, 4095, 256);
            vstd::arithmetic::div_mod::lemma_div_pos_is_pos(t, 256);
        }
    }
}

fn collect_side_quads(chunk: &Chunk, tmap: &BlockTextureMap, side: Direction) -> (r: Vec<Quad>)
    requires
        chunk.wf(),
        tmap.wf(),
    ensures
        r@ == spec_side_quads(chunk@, tmap@, side),
{
    let mut r: Vec<Quad> = Vec::new();
    let mut t: usize = 0;
    while t < CHUNK_VOLUME
        invariant
            chunk.wf(),
            tmap.wf(),
            t <= CHUNK_VOLUME,
            r@ == side_quads_upto(chunk@, tmap@, side, t as int),
        decreases CHUNK_VOLUME - t,
    {
        let x = t / 256;
        let y = (t / 16) % 16;
        let z = t % 16;
        proof {
            vstd::arithmetic::div_mod::lemma_mod_bound(t as int, 16);
            vstd::arithmetic::div_mod::lemma_mod_bound(t as int / 16, 16);
            assert(t as int / 256 < 16 && t as int / 16 >= 0 && t as int / 256 >= 0) by {
                vstd::arithmetic::div_mod::lemma_div_is_ordered(t as int, 4095, 256);
                vstd::arithmetic::div_mod::lemma_div_pos_is_pos(t as int, 256);
                vstd::arithmetic::div_mod::lemma_div_pos_is_pos(t as int, 16);
            }
        }
        let b = chunk.get(UVec3 { x: x as u32, y: y as u32, z: z as u32 });
        let emit: bool = if b.is_visible() {
            let a = side.axis();
            let n = match chunk.get_i(x as i32 + a.x, y as i32 + a.y, z as i32 + a.z) {
                Some(nb) => nb,
                None => BlockType::Air,
            };
            shows_face(b, n)
        } else {
            false
        };
        if emit {
            let uv = tmap.block_to_mesh(b, side);
            let color = crate::block::block_to_colour(b, side);
            r.push(Quad { voxel: UVec3 { x: x as u32, y: y as u32, z: z as u32 }, color, uv });
        }
        t = t + 1;
    }
    r
}

/// Walk the chunk once and collect, for each of the six directions, the
/// quads of the faces the finished mesh shows, in traversal order.
pub fn make_quad_groups(chunk: &Chunk, tmap: &BlockTextureMap) -> (r: QuadGroups)
    requires
        chunk.wf(),
        tmap.wf(),
    ensures
        r.wf(),
        forall|s: int|
            0 <= s < 6 ==> (#[trigger] r.groups@[s])@ == spec_side_quads(
                chunk@,
                tmap@,
                Direction::spec_from_index(s),
            ),
{
    let mut groups: Vec<Vec<Quad>> = Vec::new();
    let mut s: usize = 0;
    while s < 6
        invariant
            chunk.wf(),
            tmap.wf(),
            s <= 6,
            groups@.len() == s,
            forall|i: int|
                0 <= i < s ==> (#[trigger] groups@[i])@ == spec_side_quads(
                    chunk@,
                    tmap@,
                    Direction::spec_from_index(i),
                ),
        decreases 6 - s,
    {
        let side = Direction::from_index(s);
        groups.push(collect_side_quads(chunk, tmap, side));
        s = s + 1;
    }
    QuadGroups { groups }
}

/// The quads of group `s` of a quad-group list.
pub open spec fn group_seq(qg: QuadGroups, s: int) -> Seq<Quad> {
    qg.groups@[s]@
}

/// The quads of one group, each paired with the group's direction.
pub open spec fn side_pairs(g: Seq<Quad>, side: Direction) -> Seq<(Quad, Direction)> {
    g.map_values(|q: Quad| (q, side))
}

/// All quads of a quad-group list in group order, each with its direction.
pub open spec fn flat_quads(qg: QuadGroups) -> Seq<(Quad, Direction)> {
    side_pairs(group_seq(qg, 0), Direction::Left) + side_pairs(group_seq(qg, 1), Direction::Right)
        + side_pairs(group_seq(qg, 2), Direction::Down) + side_pairs(
        group_seq(qg, 3),
        Direction::Up,
    ) + side_pairs(group_seq(qg, 4), Direction::Forward) + side_pairs(
        group_seq(qg, 5),
        Direction::Backward,
    )
}

/// The number of quads in the groups before group `s`.
pub open spec fn prefix_len(qg: QuadGroups, s: int) -> int
    decreases s,
{
    if s <= 0 {
        0
    } else {
        prefix_len(qg, s - 1) + group_seq(qg, s - 1).len()
    }
}

proof fn lemma_prefix_len(qg: QuadGroups)
    requires
        qg.wf(),
    ensures
        prefix_len(qg, 0) == 0,
        prefix_len(qg, 1) == group_seq(qg, 0).len(),
        prefix_len(qg, 2) == prefix_len(qg, 1) + group_seq(qg, 1).len(),
        prefix_len(qg, 3) == prefix_len(qg, 2) + group_seq(qg, 2).len(),
        prefix_len(qg, 4) == prefix_len(qg, 3) + group_seq(qg, 3).len(),
        prefix_len(qg, 5) == prefix_len(qg, 4) + group_seq(qg, 4).len(),
        prefix_len(qg, 6) == prefix_len(qg, 5) + group_seq(qg, 5).len(),
        prefix_len(qg, 6) == qg.spec_total(),
        flat_quads(qg).len() == qg.spec_total(),
        forall|s: int| 0 <= s <= 6 ==> 0 <= #[trigger] prefix_len(qg, s) <= qg.spec_total(),
{
    assert(prefix_len(qg, 0) == 0);
    assert(prefix_len(qg, 1) == group_seq(qg, 0).len());
    assert(prefix_len(qg, 2) == prefix_len(qg, 1) + group_seq(qg, 1).len());
    assert(prefix_len(qg, 3) == prefix_len(qg, 2) + group_seq(qg, 2).len());
    assert(prefix_len(qg, 4) == prefix_len(qg, 3) + group_seq(qg, 3).len());
    assert(prefix_len(qg, 5) == prefix_len(qg, 4) + group_seq(qg, 4).len());
    assert(prefix_len(qg, 6) == prefix_len(qg, 5) + group_seq(qg, 5).len());
}

/// Position `prefix_len(qg, s) + qi` of the flattened quad list holds quad
/// `qi` of group `s`, paired with that group's direction.
proof fn lemma_flat_index(qg: QuadGroups, s: int, qi: int)
    requires
        qg.wf(),
        0 <= s < 6,
        0 <= qi < group_seq(qg, s).len(),
    ensures
        0 <= prefix_len(qg, s) + qi < flat_quads(qg).len(),
        flat_quads(qg)[prefix_len(qg, s) + qi] == (
            group_seq(qg, s)[qi],
            Direction::spec_from_index(s),
        ),
{
    lemma_prefix_len(qg);
    let p0 = side_pairs(group_seq(qg, 0), Direction::Left);
    let p1 = side_pairs(group_seq(qg, 1), Direction::Right);
    let p2 = side_pairs(group_seq(qg, 2), Direction::Down);
    let p3 = side_pairs(group_seq(qg, 3), Direction::Up);
    let p4 = side_pairs(group_seq(qg, 4), Direction::Forward);
    let p5 = side_pairs(group_seq(qg, 5), Direction::Backward);
    let q01 = p0 + p1;
    let q012 = q01 + p2;
    let q0123 = q012 + p3;
    let q01234 = q0123 + p4;
    let all = q01234 + p5;
    assert(flat_quads(qg) == all);
    assert(p0.len() == group_seq(qg, 0).len());
    assert(p1.len() == group_seq(qg, 1).len());
    assert(p2.len() == group_seq(qg, 2).len());
    assert(p3.len() == group_seq(qg, 3).len());
    assert(p4.len() == group_seq(qg, 4).len());
    assert(p5.len() == group_seq(qg, 5).len());
    let j = prefix_len(qg, s) + qi;
    if s == 0 {
        assert(q01[j] == p0[qi]);
        assert(q012[j] == q01[j]);
        assert(q0123[j] == q012[j]);
        assert(q01234[j] == q0123[j]);
        assert(all[j] == q01234[j]);
    } else if s == 1 {
        assert(q01[j] == p1[qi]);
        assert(q012[j] == q01[j]);
        assert(q0123[j] == q012[j]);
        assert(q01234[j] == q0123[j]);
        assert(all[j] == q01234[j]);
    } else if s == 2 {
        assert(q012[j] == p2[qi]);
        assert(q0123[j] == q012[j]);
        assert(q01234[j] == q0123[j]);
        assert(all[j] == q01234[j]);
    } else if s == 3 {
        assert(q0123[j] == p3[qi]);
        assert(q01234[j] == q0123[j]);
        assert(all[j] == q01234[j]);
    } else if s == 4 {
        assert(q01234[j] == p4[qi]);
        assert(all[j] == q01234[j]);
    } else {
        assert(all[j] == p5[qi]);
    }
}

/// Vertex index `i` of a quad mesh: the quads' vertices come four per quad,
/// six index entries per quad, in the fixed two-triangle pattern.
pub open spec fn spec_index_value(i: int) -> int {
    let k = i % 6;
    4 * (i / 6) + (if k == 0 {
        0int
    } else if k == 1 {
        2
    } else if k == 2 {
        1
    } else if k == 3 {
        1
    } else if k == 4 {
        2
    } else {
        3
    })
}

/// A renderable mesh: parallel per-vertex buffers and a triangle index list.
/// Positions are in voxel units and normals are unit axis vectors; the host
/// renderer scales and converts them.
#[derive(Clone, Debug)]
pub struct MeshBuffers {
    pub indices: Vec<u32>,
    pub positions: Vec<UVec3>,
    pub normals: Vec<IVec3>,
    pub uvs: Vec<UVec2>,
    pub colors: Vec<Rgba>,
}

/// The buffers `m` lower exactly the quad list `fq`: four vertices and six
/// indices per quad, in quad order, with the fixed corner winding, the
/// quad's direction as normal, its atlas corners as UVs, and its tint.
pub open spec fn buffers_match(m: MeshBuffers, fq: Seq<(Quad, Direction)>) -> bool {
    &&& m.positions@.len() == 4 * fq.len()
    &&& m.normals@.len() == 4 * fq.len()
    &&& m.uvs@.len() == 4 * fq.len()
    &&& m.colors@.len() == 4 * fq.len()
    &&& m.indices@.len() == 6 * fq.len()
    &&& forall|i: int|
        0 <= i < 4 * fq.len() ==> #[trigger] m.positions@[i] == spec_corner_position(
            fq[i / 4].0,
            fq[i / 4].1,
            i % 4,
        )
    &&& forall|i: int|
        0 <= i < 4 * fq.len() ==> #[trigger] m.normals@[i] == fq[i / 4].1.spec_axis()
    &&& forall|i: int|
        0 <= i < 4 * fq.len() ==> #[trigger] m.uvs@[i] == spec_uv_corner(fq[i / 4].0.uv, i % 4)
    &&& forall|i: int| 0 <= i < 4 * fq.len() ==> #[trigger] m.colors@[i] == fq[i / 4].0.color
    &&& forall|i: int| 0 <= i < 6 * fq.len() ==> #[trigger] m.indices@[i] == spec_index_value(i)
}

proof fn lemma_split_index(d: int, j: int, k: int)
    requires
        0 < d,
        0 <= j,
        0 <= k < d,
    ensures
        (d * j + k) / d == j,
        (d * j + k) % d == k,
{
    assert(d * j == j * d) by (nonlinear_arith);
    vstd::arithmetic::div_mod::lemma_fundamental_div_mod_converse(d * j + k, d, j, k);
}

/// Lower a quad-group list into a renderable mesh. Yields nothing when
/// there is no quad: an empty mesh means no draw call.
pub fn make_mesh_from_quad_groups(qg: &QuadGroups) -> (r: Option<MeshBuffers>)
    requires
        qg.wf(),
        qg.spec_total() <= 0x00FF_FFFF,
        forall|s: int, j: int|
            0 <= s < 6 && 0 <= j < group_seq(*qg, s).len() ==> (#[trigger] group_seq(
                *qg,
                s,
            )[j]).voxel.x < u32::MAX && group_seq(*qg, s)[j].voxel.y < u32::MAX && group_seq(
                *qg,
                s,
            )[j].voxel.z < u32::MAX,
    ensures
        r is None <==> qg.spec_total() == 0,
        r matches Some(m) ==> buffers_match(m, flat_quads(*qg)),
{
    proof {
        lemma_prefix_len(*qg);
    }
    let mut total: usize = 0;
    let mut s: usize = 0;
    while s < 6
        invariant
            qg.wf(),
            qg.spec_total() <= 0x00FF_FFFF,
            s <= 6,
            total == prefix_len(*qg, s as int),
        decreases 6 - s,
    {
        proof {
            lemma_prefix_len(*qg);
        }
        total = total + qg.groups[s].len();
        s = s + 1;
    }
    if total == 0 {
        return None;
    }
    let ghost fq = flat_quads(*qg);
    let mut indices: Vec<u32> = Vec::new();
    let mut positions: Vec<UVec3> = Vec::new();
    let mut normals: Vec<IVec3> = Vec::new();
    let mut uvs: Vec<UVec2> = Vec::new();
    let mut colors: Vec<Rgba> = Vec::new();
    let mut s: usize = 0;
    while s < 6
        invariant
            qg.wf(),
            qg.spec_total() <= 0x00FF_FFFF,
            total == qg.spec_total(),
            fq == flat_quads(*qg),
            fq.len() == qg.spec_total(),
            s <= 6,
            positions@.len() == 4 * prefix_len(*qg, s as int),
            normals@.len() == positions@.len(),
            uvs@.len() == positions@.len(),
            colors@.len() == positions@.len(),
            indices@.len() == 6 * prefix_len(*qg, s as int),
            forall|s2: int, j: int|
                0 <= s2 < 6 && 0 <= j < group_seq(*qg, s2).len() ==> (#[trigger] group_seq(
                    *qg,
                    s2,
                )[j]).voxel.x < u32::MAX && group_seq(*qg, s2)[j].voxel.y < u32::MAX && group_seq(
                    *qg,
                    s2,
                )[j].voxel.z < u32::MAX,
            forall|i: int|
                0 <= i < positions@.len() ==> #[trigger] positions@[i] == spec_corner_position(
                    fq[i / 4].0,
                    fq[i / 4].1,
                    i % 4,
                ),
            forall|i: int|
                0 <= i < normals@.len() ==> #[trigger] normals@[i] == fq[i / 4].1.spec_axis(),
            forall|i: int|
                0 <= i < uvs@.len() ==> #[trigger] uvs@[i] == spec_uv_corner(fq[i / 4].0.uv, i % 4),
            forall|i: int| 0 <= i < colors@.len() ==> #[trigger] colors@[i] == fq[i / 4].0.color,
            forall|i: int|
                0 <= i < indices@.len() ==> #[trigger] indices@[i] == spec_index_value(i),
        decreases 6 - s,
    {
        proof {
            lemma_prefix_len(*qg);
        }
        let side = Direction::from_index(s);
        let group_len = qg.groups[s].len();
        let mut qi: usize = 0;
        while qi < group_len
            invariant
                qg.wf(),
                qg.spec_total() <= 0x00FF_FFFF,
                fq == flat_quads(*qg),
                fq.len() == qg.spec_total(),
                s < 6,
                side == Direction::spec_from_index(s as int),
                group_len == group_seq(*qg, s as int).len(),
                qi <= group_len,
                positions@.len() == 4 * (prefix_len(*qg, s as int) + qi),
                normals@.len() == positions@.len(),
                uvs@.len() == positions@.len(),
                colors@.len() == positions@.len(),
                indices@.len() == 6 * (prefix_len(*qg, s as int) + qi),
                forall|s2: int, j: int|
                    0 <= s2 < 6 && 0 <= j < group_seq(*qg, s2).len() ==> (#[trigger] group_seq(
                        *qg,
                        s2,
                    )[j]).voxel.x < u32::MAX && group_seq(*qg, s2)[j].voxel.y < u32::MAX
                    && group_seq(*qg, s2)[j].voxel.z < u32::MAX,
                forall|i: int|
                    0 <= i < positions@.len() ==> #[trigger] positions@[i] == spec_corner_position(
                        fq[i / 4].0,
                        fq[i / 4].1,
                        i % 4,
                    ),
                forall|i: int|
                    0 <= i < normals@.len() ==> #[trigger] normals@[i] == fq[i / 4].1.spec_axis(),
                forall|i: int|
                    0 <= i < uvs@.len() ==> #[trigger] uvs@[i] == spec_uv_corner(
                        fq[i / 4].0.uv,
                        i % 4,
                    ),
                forall|i: int|
                    0 <= i < colors@.len() ==> #[trigger] colors@[i] == fq[i / 4].0.color,
                forall|i: int|
                    0 <= i < indices@.len() ==> #[trigger] indices@[i] == spec_index_value(i),
            decreases group_len - qi,
        {
            proof {
                lemma_prefix_len(*qg);
                lemma_flat_index(*qg, s as int, qi as int);
            }
            let ghost j = prefix_len(*qg, s as int) + qi;
            let q = qg.groups[s][qi];
            proof {
                assert(fq[j] == (q, side));
            }
            let start = positions.len() as u32;
            let idx = get_indices(start);
            let ps = get_positions(&q, &side);
            let ns = get_normals(&side);
            let us = rect_to_uvs(&q.uv);
            indices.push(idx[0]);
            indices.push(idx[1]);
            indices.push(idx[2]);
            indices.push(idx[3]);
            indices.push(idx[4]);
            indices.push(idx[5]);
            positions.push(ps[0]);
            positions.push(ps[1]);
            positions.push(ps[2]);
            positions.push(ps[3]);
            normals.push(ns[0]);
            normals.push(ns[1]);
            normals.push(ns[2]);
            normals.push(ns[3]);
            uvs.push(us[0]);
            uvs.push(us[1]);
            uvs.push(us[2]);
            uvs.push(us[3]);
            colors.push(q.color);
            colors.push(q.color);
            colors.push(q.color);
            colors.push(q.color);
            proof {
                lemma_split_index(4, j, 0);
                lemma_split_index(4, j, 1);
                lemma_split_index(4, j, 2);
                lemma_split_index(4, j, 3);
                lemma_split_index(6, j, 0);
                lemma_split_index(6, j, 1);
                lemma_split_index(6, j, 2);
                lemma_split_index(6, j, 3);
                lemma_split_index(6, j, 4);
                lemma_split_index(6, j, 5);
            }
            qi = qi + 1;
        }
        s = s + 1;
    }
    Some(MeshBuffers { indices, positions, normals, uvs, colors })
}

/// Lower a quad-group list into a renderable mesh unconditionally: a
/// quad-less list becomes empty buffers, the valid "no geometry" state.
pub fn make_mesh(qg: &QuadGroups) -> (r: MeshBuffers)
    requires
        qg.wf(),
        qg.spec_total() <= 0x00FF_FFFF,
        forall|s: int, j: int|
            0 <= s < 6 && 0 <= j < group_seq(*qg, s).len() ==> (#[trigger] group_seq(
                *qg,
                s,
            )[j]).voxel.x < u32::MAX && group_seq(*qg, s)[j].voxel.y < u32::MAX && group_seq(
                *qg,
                s,
            )[j].voxel.z < u32::MAX,
    ensures
        buffers_match(r, flat_quads(*qg)),
{
    match make_mesh_from_quad_groups(qg) {
        Some(m) => m,
        None => {
            proof {
                lemma_prefix_len(*qg);
            }
            MeshBuffers {
                indices: Vec::new(),
                positions: Vec::new(),
                normals: Vec::new(),
                uvs: Vec::new(),
                colors: Vec::new(),
            }
        },
    }
}

/// All quads of the finished mesh of a chunk, over the six directions in
/// group order, each with its direction.
pub open spec fn spec_flat_quads(c: Seq<BlockType>, rects: Seq<TexRect>) -> Seq<
    (Quad, Direction),
> {
    side_pairs(spec_side_quads(c, rects, Direction::Left), Direction::Left) + side_pairs(
        spec_side_quads(c, rects, Direction::Right),
        Direction::Right,
    ) + side_pairs(spec_side_quads(c, rects, Direction::Down), Direction::Down) + side_pairs(
        spec_side_quads(c, rects, Direction::Up),
        Direction::Up,
    ) + side_pairs(spec_side_quads(c, rects, Direction::Forward), Direction::Forward) + side_pairs(
        spec_side_quads(c, rects, Direction::Backward),
        Direction::Backward,
    )
}

/// Build the mesh of one chunk: collect its visible faces and lower them
/// into buffers. Yields nothing for a mesh without a single face.
pub fn make_mesh_simple(chunk: &Chunk, tmap: &BlockTextureMap) -> (r: Option<MeshBuffers>)
    requires
        chunk.wf(),
        tmap.wf(),
    ensures
        r is None <==> spec_flat_quads(chunk@, tmap@).len() == 0,
        r matches Some(m) ==> buffers_match(m, spec_flat_quads(chunk@, tmap@)),
{
    let qg = make_quad_groups(chunk, tmap);
    proof {
        lemma_side_quads_len(chunk@, tmap@, Direction::Left, CHUNK_VOLUME as int);
        lemma_side_quads_len(chunk@, tmap@, Direction::Right, CHUNK_VOLUME as int);
        lemma_side_quads_len(chunk@, tmap@, Direction::Down, CHUNK_VOLUME as int);
        lemma_side_quads_len(chunk@, tmap@, Direction::Up, CHUNK_VOLUME as int);
        lemma_side_quads_len(chunk@, tmap@, Direction::Forward, CHUNK_VOLUME as int);
        lemma_side_quads_len(chunk@, tmap@, Direction::Backward, CHUNK_VOLUME as int);
        lemma_prefix_len(qg);
        assert(flat_quads(qg) == spec_flat_quads(chunk@, tmap@));
    }
    make_mesh_from_quad_groups(&qg)
}

/// The storage index of the cell visited at traversal step `t` lies inside
/// the chunk.
proof fn lemma_cell_in_bounds(t: int)
    requires
        0 <= t < CHUNK_VOLUME as int,
    ensures
        in_chunk_bounds(cell_x(t), cell_y(t), cell_z(t)),
{
    vstd::arithmetic::div_mod::lemma_mod_bound(t, 16);
    vstd::arithmetic::div_mod::lemma_mod_bound(t / 16, 16);
    vstd::arithmetic::div_mod::lemma_div_is_ordered(t, 4095, 256);
    vstd::arithmetic::div_mod::lemma_div_pos_is_pos(t, 256);
    vstd::arithmetic::div_mod::lemma_div_pos_is_pos(t, 16);
}

/// A traversal step is determined by its cell: `t` splits into its
/// traversal coordinates and recombines.
proof fn lemma_cell_recombine(t: int)
    requires
        0 <= t < CHUNK_VOLUME as int,
    ensures
        t == cell_x(t) * 256 + cell_y(t) * 16 + cell_z(t),
{
    vstd::arithmetic::div_mod::lemma_fundamental_div_mod(t, 256);
    vstd::arithmetic::div_mod::lemma_fundamental_div_mod(t, 16);
    vstd::arithmetic::div_mod::lemma_mod_breakdown(t, 16, 16);
}

/// A chunk holding nothing but air produces an empty mesh: no traversal
/// step of any side emits a quad.
pub proof fn law_air_chunk_empty_mesh(c: Seq<BlockType>, rects: Seq<TexRect>)
    requires
        c.len() == CHUNK_VOLUME,
        forall|i: int| 0 <= i < CHUNK_VOLUME ==> c[i] == BlockType::Air,
    ensures
        spec_flat_quads(c, rects).len() == 0,
{
    lemma_air_side_quads(c, rects, Direction::Left, CHUNK_VOLUME as int);
    lemma_air_side_quads(c, rects, Direction::Right, CHUNK_VOLUME as int);
    lemma_air_side_quads(c, rects, Direction::Down, CHUNK_VOLUME as int);
    lemma_air_side_quads(c, rects, Direction::Up, CHUNK_VOLUME as int);
    lemma_air_side_quads(c, rects, Direction::Forward, CHUNK_VOLUME as int);
    lemma_air_side_quads(c, rects, Direction::Backward, CHUNK_VOLUME as int);
}

proof fn lemma_air_side_quads(c: Seq<BlockType>, rects: Seq<TexRect>, side: Direction, n: int)
    requires
        c.len() == CHUNK_VOLUME,
        forall|i: int| 0 <= i < CHUNK_VOLUME ==> c[i] == BlockType::Air,
        0 <= n <= CHUNK_VOLUME as int,
    ensures
        side_quads_upto(c, rects, side, n).len() == 0,
    decreases n,
{
    if n > 0 {
        lemma_air_side_quads(c, rects, side, n - 1);
        let t = n - 1;
        lemma_cell_in_bounds(t);
        assert(0 <= flat_index(cell_x(t), cell_y(t), cell_z(t)) < CHUNK_VOLUME as int);
        assert(spec_block_at(c, cell_x(t), cell_y(t), cell_z(t)) == BlockType::Air);
        assert(!spec_face_emitted(c, cell_x(t), cell_y(t), cell_z(t), side));
    }
}

/// The suppression rule for translucent pairs: a translucent block shows no
/// face toward an identical translucent neighbour, so two adjacent cells of
/// the same translucent kind share no face in either direction.
pub proof fn law_identical_translucent_suppressed(
    c: Seq<BlockType>,
    x: int,
    y: int,
    z: int,
    side: Direction,
)
    requires
        c.len() == CHUNK_VOLUME,
        in_chunk_bounds(x, y, z),
        spec_block_at(c, x, y, z).spec_visibility() == Visibility::Translucent,
        spec_neighbor(c, x, y, z, side) == spec_block_at(c, x, y, z),
    ensures
        !spec_face_emitted(c, x, y, z, side),
{
}

/// The emitting side of the culling rule: a visible block always shows a
/// face toward empty space, an opaque block shows one toward translucent
/// space, and a translucent block shows one toward a translucent neighbour
/// of a different kind.
pub proof fn law_boundary_faces_emitted(
    c: Seq<BlockType>,
    x: int,
    y: int,
    z: int,
    side: Direction,
)
    requires
        c.len() == CHUNK_VOLUME,
        in_chunk_bounds(x, y, z),
    ensures
        ({
            let b = spec_block_at(c, x, y, z);
            let nb = spec_neighbor(c, x, y, z, side);
            &&& (b.spec_is_visible() && nb.spec_visibility() == Visibility::Empty)
                ==> spec_face_emitted(c, x, y, z, side)
            &&& (b.spec_visibility() == Visibility::Opaque && nb.spec_visibility()
                == Visibility::Translucent) ==> spec_face_emitted(c, x, y, z, side)
            &&& (b.spec_visibility() == Visibility::Translucent && nb.spec_visibility()
                == Visibility::Translucent && b != nb) ==> spec_face_emitted(c, x, y, z, side)
        }),
{
}

/// A single visible voxel in an otherwise empty chunk, away from the chunk
/// boundary, yields a mesh of exactly six faces: one per direction.
pub proof fn law_single_voxel_six_faces(
    c: Seq<BlockType>,
    rects: Seq<TexRect>,
    x0: int,
    y0: int,
    z0: int,
)
    requires
        c.len() == CHUNK_VOLUME,
        1 <= x0 <= 14 && 1 <= y0 <= 14 && 1 <= z0 <= 14,
        spec_block_at(c, x0, y0, z0).spec_is_visible(),
        forall|x: int, y: int, z: int|
            in_chunk_bounds(x, y, z) && !(x == x0 && y == y0 && z == z0) ==> spec_block_at(
                c,
                x,
                y,
                z,
            ) == BlockType::Air,
    ensures
        spec_flat_quads(c, rects).len() == 6,
{
    lemma_single_voxel_side(c, rects, Direction::Left, x0, y0, z0, CHUNK_VOLUME as int);
    lemma_single_voxel_side(c, rects, Direction::Right, x0, y0, z0, CHUNK_VOLUME as int);
    lemma_single_voxel_side(c, rects, Direction::Down, x0, y0, z0, CHUNK_VOLUME as int);
    lemma_single_voxel_side(c, rects, Direction::Up, x0, y0, z0, CHUNK_VOLUME as int);
    lemma_single_voxel_side(c, rects, Direction::Forward, x0, y0, z0, CHUNK_VOLUME as int);
    lemma_single_voxel_side(c, rects, Direction::Backward, x0, y0, z0, CHUNK_VOLUME as int);
}

proof fn lemma_single_voxel_side(
    c: Seq<BlockType>,
    rects: Seq<TexRect>,
    side: Direction,
    x0: int,
    y0: int,
    z0: int,
    n: int,
)
    requires
        c.len() == CHUNK_VOLUME,
        1 <= x0 <= 14 && 1 <= y0 <= 14 && 1 <= z0 <= 14,
        spec_block_at(c, x0, y0, z0).spec_is_visible(),
        forall|x: int, y: int, z: int|
            in_chunk_bounds(x, y, z) && !(x == x0 && y == y0 && z == z0) ==> spec_block_at(
                c,
                x,
                y,
                z,
            ) == BlockType::Air,
        0 <= n <= CHUNK_VOLUME as int,
    ensures
        side_quads_upto(c, rects, side, n).len() == (if n > x0 * 256 + y0 * 16 + z0 {
            1int
        } else {
            0
        }),
    decreases n,
{
    let t0 = x0 * 256 + y0 * 16 + z0;
    if n > 0 {
        lemma_single_voxel_side(c, rects, side, x0, y0, z0, n - 1);
        let t = n - 1;
        lemma_cell_in_bounds(t);
        lemma_cell_recombine(t);
        let x = cell_x(t);
        let y = cell_y(t);
        let z = cell_z(t);
        if t == t0 {
            assert(x == x0 && y == y0 && z == z0);
            let a = side.spec_axis();
            let nx = x + a.x;
            let ny = y + a.y;
            let nz = z + a.z;
            assert(in_chunk_bounds(nx, ny, nz));
            assert(!(nx == x0 && ny == y0 && nz == z0));
            assert(spec_neighbor(c, x, y, z, side) == BlockType::Air);
            assert(spec_face_emitted(c, x, y, z, side));
        } else {
            assert(!(x == x0 && y == y0 && z == z0));
            assert(spec_block_at(c, x, y, z) == BlockType::Air);
            assert(!spec_face_emitted(c, x, y, z, side));
        }
    }
}

} // verus!
