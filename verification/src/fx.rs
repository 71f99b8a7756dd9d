//! Fixed-point 3-vector arithmetic for the character mover: one world unit
//! is `FX_SCALE` ticks of an `i64`. Division truncates toward zero, as the
//! hardware does, and every operation carries explicit magnitude bounds so
//! that nothing overflows.

use vstd::prelude::*;

verus! {

/// The number of fixed-point ticks in one world unit.
pub const FX_SCALE: i64 = 1_000_000;

/// The largest component magnitude the slide rejection accepts.
pub const FX_REJECT_LIMIT: i64 = 100_000_000_000_000_000;

/// A fixed-point 3-vector: a position, displacement, velocity, or contact
/// normal.
#[derive(Clone, Copy, Debug, PartialEq, Eq, Structural)]
pub struct Vec3Fx {
    pub x: i64,
    pub y: i64,
    pub z: i64,
}

impl Vec3Fx {
    pub fn new(x: i64, y: i64, z: i64) -> (r: Vec3Fx)
        ensures
            r == (Vec3Fx { x, y, z }),
    {
        Vec3Fx { x, y, z }
    }

    pub fn zero() -> (r: Vec3Fx)
        ensures
            r == (Vec3Fx { x: 0, y: 0, z: 0 }),
    {
        Vec3Fx { x: 0, y: 0, z: 0 }
    }

    /// Every component has magnitude at most `m`.
    pub open spec fn abs_le(self, m: int) -> bool {
        -m <= self.x <= m && -m <= self.y <= m && -m <= self.z <= m
    }
}

/// Division truncating toward zero, the semantics of `/` on machine
/// integers.
pub open spec fn trunc_div(a: int, b: int) -> int
    recommends
        b > 0,
{
    if a >= 0 {
        a / b
    } else {
        -((-a) / b)
    }
}

/// The dot product of two fixed-point vectors, at doubled scale.
pub open spec fn spec_dot(v: Vec3Fx, n: Vec3Fx) -> int {
    v.x * n.x + v.y * n.y + v.z * n.z
}

/// Truncating division keeps magnitude bounds: `|a| <= m` gives
/// `|a / b| <= m / b`.
pub proof fn lemma_trunc_div_mag(a: int, b: int, m: int)
    requires
        b > 0,
        0 <= m,
        -m <= a <= m,
    ensures
        -(m / b) <= trunc_div(a, b) <= m / b,
{
    if a >= 0 {
        vstd::arithmetic::div_mod::lemma_div_is_ordered(a, m, b);
        vstd::arithmetic::div_mod::lemma_div_pos_is_pos(a, b);
    } else {
        vstd::arithmetic::div_mod::lemma_div_is_ordered(-a, m, b);
        vstd::arithmetic::div_mod::lemma_div_pos_is_pos(-a, b);
    }
}

/// Truncating division is exact on multiples: `(k * d) / d == k`.
pub proof fn lemma_trunc_div_exact(k: int, d: int)
    requires
        d > 0,
    ensures
        trunc_div(k * d, d) == k,
{
    if k >= 0 {
        vstd::arithmetic::div_mod::lemma_fundamental_div_mod_converse(k * d, d, k, 0);
    } else {
        assert(-(k * d) == (-k) * d) by (nonlinear_arith);
        vstd::arithmetic::div_mod::lemma_fundamental_div_mod_converse((-k) * d, d, -k, 0);
    }
}

/// `trunc_div(a * b, d)` computed exactly through 128-bit intermediates.
/// The bound `m` caps the product so the quotient fits an `i64`.
fn mul_div(a: i64, b: i64, d: i64) -> (r: i64)
    requires
        d > 0,
        -0x8000_0000_0000_0000 <= trunc_div(a as int * b as int, d as int)
            <= 0x7FFF_FFFF_FFFF_FFFF,
    ensures
        r == trunc_div(a as int * b as int, d as int),
{
    proof {
        assert(-0x4000_0000_0000_0000_0000_0000_0000_0000 <= (a as int) * (b as int)
            <= 0x4000_0000_0000_0000_0000_0000_0000_0000) by (nonlinear_arith)
            requires
                -0x8000_0000_0000_0000 <= a as int <= 0x7FFF_FFFF_FFFF_FFFF,
                -0x8000_0000_0000_0000 <= b as int <= 0x7FFF_FFFF_FFFF_FFFF,
        ;
    }
    let p: i128 = (a as i128) * (b as i128);
    let q: i128 = if p >= 0 {
        proof {
            vstd::arithmetic::div_mod::lemma_div_pos_is_pos(p as int, d as int);
            vstd::arithmetic::div_mod::lemma_div_is_ordered(
                p as int,
                0x4000_0000_0000_0000_0000_0000_0000_0000,
                d as int,
            );
        }
        ((p as u128) / (d as u128)) as i128
    } else {
        proof {
            vstd::arithmetic::div_mod::lemma_div_pos_is_pos(-(p as int), d as int);
            vstd::arithmetic::div_mod::lemma_div_is_ordered(
                -(p as int),
                0x4000_0000_0000_0000_0000_0000_0000_0000,
                d as int,
            );
        }
        -((((-p) as u128) / (d as u128)) as i128)
    };
    proof {
        assert(q == trunc_div(a as int * b as int, d as int));
    }
    q as i64
}

/// `component * allowed / target_len`: the share of one displacement
/// component consumed when `allowed` of the cast's `target_len` may be
/// travelled. The result keeps the component's sign and never exceeds it.
pub fn scale_component(c: i64, allowed: i64, tlen: i64) -> (r: i64)
    requires
        tlen > 0,
        0 <= allowed <= tlen,
    ensures
        r == trunc_div(c as int * allowed as int, tlen as int),
        c >= 0 ==> 0 <= r <= c,
        c < 0 ==> c <= r <= 0,
{
    proof {
        lemma_scale_component_bound(c as int, allowed as int, tlen as int);
    }
    mul_div(c, allowed, tlen)
}

/// The consumed share of a displacement component keeps its sign and never
/// exceeds the component.
pub proof fn lemma_scale_component_bound(c: int, allowed: int, tlen: int)
    requires
        tlen > 0,
        0 <= allowed <= tlen,
    ensures
        c >= 0 ==> 0 <= trunc_div(c * allowed, tlen) <= c,
        c < 0 ==> c <= trunc_div(c * allowed, tlen) <= 0,
{
    if c >= 0 {
        assert(0 <= c * allowed <= c * tlen) by (nonlinear_arith)
            requires
                0 <= c,
                0 <= allowed <= tlen,
        ;
        lemma_trunc_div_mag(c * allowed, tlen, c * tlen);
        assert((c * tlen) / tlen == c) by {
            vstd::arithmetic::div_mod::lemma_fundamental_div_mod_converse(c * tlen, tlen, c, 0);
        }
    } else {
        assert(c * tlen <= c * allowed <= 0) by (nonlinear_arith)
            requires
                c < 0,
                0 <= allowed <= tlen,
        ;
        lemma_trunc_div_mag(c * allowed, tlen, -(c * tlen));
        assert((-(c * tlen)) / tlen == -c) by {
            assert(-(c * tlen) == (-c) * tlen) by (nonlinear_arith);
            vstd::arithmetic::div_mod::lemma_fundamental_div_mod_converse(
                (-c) * tlen,
                tlen,
                -c,
                0,
            );
        }
    }
}

/// `v * dt / FX_SCALE`: the share of a velocity component travelled in one
/// time step of `dt` ticks.
pub fn scale_by_dt(v: i64, dt: i64) -> (r: i64)
    requires
        -100_000_000_000 <= v <= 100_000_000_000,
        0 <= dt <= 10_000_000,
    ensures
        r == trunc_div(v as int * dt as int, FX_SCALE as int),
        -1_000_000_000_000 <= r <= 1_000_000_000_000,
{
    proof {
        assert(-1_000_000_000_000_000_000 <= (v as int) * (dt as int)
            <= 1_000_000_000_000_000_000) by (nonlinear_arith)
            requires
                -100_000_000_000 <= v as int <= 100_000_000_000,
                0 <= dt as int <= 10_000_000,
        ;
        lemma_trunc_div_mag((v as int) * (dt as int), FX_SCALE as int, 1_000_000_000_000_000_000);
    }
    mul_div(v, dt, FX_SCALE)
}

/// What the slide rejection makes of component `vc` of `v`, for normal
/// component `nc`: the vector rejection `v - (v . n) n` of `v` from the
/// unit normal `n`, in fixed point.
pub open spec fn spec_reject_comp(v: Vec3Fx, n: Vec3Fx, vc: int, nc: int) -> int {
    vc - trunc_div(spec_dot(v, n) * nc, (FX_SCALE as int) * (FX_SCALE as int))
}

/// The dot product of a bounded vector with a unit-scale normal stays
/// within `3 * m * FX_SCALE`.
pub proof fn lemma_dot_bound(v: Vec3Fx, n: Vec3Fx, m: int)
    requires
        0 <= m,
        v.abs_le(m),
        n.abs_le(FX_SCALE as int),
    ensures
        -3 * m * (FX_SCALE as int) <= spec_dot(v, n) <= 3 * m * (FX_SCALE as int),
        -m * (FX_SCALE as int) <= v.x * n.x <= m * (FX_SCALE as int),
        -m * (FX_SCALE as int) <= v.y * n.y <= m * (FX_SCALE as int),
        -m * (FX_SCALE as int) <= v.z * n.z <= m * (FX_SCALE as int),
{
    let s = FX_SCALE as int;
    assert(-m * s <= v.x * n.x <= m * s) by (nonlinear_arith)
        requires
            -m <= v.x <= m,
            -s <= n.x <= s,
            0 <= m,
            0 <= s,
    ;
    assert(-m * s <= v.y * n.y <= m * s) by (nonlinear_arith)
        requires
            -m <= v.y <= m,
            -s <= n.y <= s,
            0 <= m,
            0 <= s,
    ;
    assert(-m * s <= v.z * n.z <= m * s) by (nonlinear_arith)
        requires
            -m <= v.z <= m,
            -s <= n.z <= s,
            0 <= m,
            0 <= s,
    ;
}

/// Each rejected component moves by at most `3 m`: rejection at most
/// quadruples a component bound.
pub proof fn lemma_reject_comp_bound(v: Vec3Fx, n: Vec3Fx, vc: int, nc: int, m: int)
    requires
        0 <= m,
        v.abs_le(m),
        n.abs_le(FX_SCALE as int),
        -m <= vc <= m,
        -(FX_SCALE as int) <= nc <= FX_SCALE as int,
    ensures
        -4 * m <= spec_reject_comp(v, n, vc, nc) <= 4 * m,
{
    let s = FX_SCALE as int;
    lemma_dot_bound(v, n, m);
    let d = spec_dot(v, n);
    assert(-3 * m * s * s <= d * nc <= 3 * m * s * s) by (nonlinear_arith)
        requires
            -3 * m * s <= d <= 3 * m * s,
            -s <= nc <= s,
            0 <= m,
            0 < s,
    ;
    lemma_trunc_div_mag(d * nc, s * s, 3 * m * s * s);
    assert((3 * m * s * s) / (s * s) == 3 * m) by {
        assert(3 * m * s * s == (3 * m) * (s * s)) by (nonlinear_arith);
        vstd::arithmetic::div_mod::lemma_fundamental_div_mod_converse(
            (3 * m) * (s * s),
            s * s,
            3 * m,
            0,
        );
    }
}

/// The fixed-point vector rejection `v - (v . n) n` of `v` from the unit
/// normal `n`: what remains of a motion after the share pointing into the
/// contacted surface is removed.
pub fn reject_from_normal(v: Vec3Fx, n: Vec3Fx) -> (r: Vec3Fx)
    requires
        v.abs_le(FX_REJECT_LIMIT as int),
        n.abs_le(FX_SCALE as int),
    ensures
        r.x == spec_reject_comp(v, n, v.x as int, n.x as int),
        r.y == spec_reject_comp(v, n, v.y as int, n.y as int),
        r.z == spec_reject_comp(v, n, v.z as int, n.z as int),
        r.abs_le(4 * (FX_REJECT_LIMIT as int)),
{
    proof {
        lemma_dot_bound(v, n, FX_REJECT_LIMIT as int);
    }
    let dot: i128 = (v.x as i128) * (n.x as i128) + (v.y as i128) * (n.y as i128) + (v.z as i128)
        * (n.z as i128);
    let s2: i128 = 1_000_000_000_000;
    proof {
        assert(s2 == (FX_SCALE as int) * (FX_SCALE as int));
    }
    let rx = reject_comp_exec(dot, n.x, s2, Ghost(v), Ghost(n), Ghost(v.x as int));
    let ry = reject_comp_exec(dot, n.y, s2, Ghost(v), Ghost(n), Ghost(v.y as int));
    let rz = reject_comp_exec(dot, n.z, s2, Ghost(v), Ghost(n), Ghost(v.z as int));
    proof {
        lemma_reject_comp_bound(v, n, v.x as int, n.x as int, FX_REJECT_LIMIT as int);
        lemma_reject_comp_bound(v, n, v.y as int, n.y as int, FX_REJECT_LIMIT as int);
        lemma_reject_comp_bound(v, n, v.z as int, n.z as int, FX_REJECT_LIMIT as int);
    }
    Vec3Fx { x: v.x - rx, y: v.y - ry, z: v.z - rz }
}

/// The correction term `(v . n) nc / FX_SCALE^2` for one component.
fn reject_comp_exec(dot: i128, nc: i64, s2: i128, v: Ghost<Vec3Fx>, n: Ghost<Vec3Fx>, vc: Ghost<
    int,
>) -> (r: i64)
    requires
        dot == spec_dot(v@, n@),
        s2 == (FX_SCALE as int) * (FX_SCALE as int),
        v@.abs_le(FX_REJECT_LIMIT as int),
        n@.abs_le(FX_SCALE as int),
        -(FX_SCALE as int) <= nc <= FX_SCALE as int,
    ensures
        r == trunc_div(spec_dot(v@, n@) * nc, (FX_SCALE as int) * (FX_SCALE as int)),
{
    let ghost s = FX_SCALE as int;
    let ghost m = FX_REJECT_LIMIT as int;
    proof {
        lemma_dot_bound(v@, n@, m);
        assert(-3 * m * s * s <= (dot as int) * (nc as int) <= 3 * m * s * s)
            by (nonlinear_arith)
            requires
                -3 * m * s <= dot as int <= 3 * m * s,
                -s <= nc as int <= s,
                0 <= m,
                0 < s,
        ;
        lemma_trunc_div_mag((dot as int) * (nc as int), s * s, 3 * m * s * s);
        assert((3 * m * s * s) / (s * s) == 3 * m) by {
            assert(3 * m * s * s == (3 * m) * (s * s)) by (nonlinear_arith);
            vstd::arithmetic::div_mod::lemma_fundamental_div_mod_converse(
                (3 * m) * (s * s),
                s * s,
                3 * m,
                0,
            );
        }
    }
    let p: i128 = dot * (nc as i128);
    let q: i128 = if p >= 0 {
        proof {
            vstd::arithmetic::div_mod::lemma_div_is_ordered(p as int, 3 * m * s * s, s2 as int);
            vstd::arithmetic::div_mod::lemma_div_pos_is_pos(p as int, s2 as int);
        }
        ((p as u128) / (s2 as u128)) as i128
    } else {
        proof {
            vstd::arithmetic::div_mod::lemma_div_is_ordered(
                -(p as int),
                3 * m * s * s,
                s2 as int,
            );
            vstd::arithmetic::div_mod::lemma_div_pos_is_pos(-(p as int), s2 as int);
        }
        -((((-p) as u128) / (s2 as u128)) as i128)
    };
    q as i64
}

/// Rejection from an axis-aligned unit normal is exact: the component along
/// the normal's axis is removed outright and the other two components are
/// untouched.
pub proof fn lemma_reject_axis(v: Vec3Fx, n: Vec3Fx)
    requires
        v.abs_le(FX_REJECT_LIMIT as int),
        n.y == 0 && n.z == 0 && (n.x == FX_SCALE || n.x == -FX_SCALE),
    ensures
        spec_reject_comp(v, n, v.x as int, n.x as int) == 0,
        spec_reject_comp(v, n, v.y as int, n.y as int) == v.y,
        spec_reject_comp(v, n, v.z as int, n.z as int) == v.z,
{
    let s = FX_SCALE as int;
    let d = spec_dot(v, n);
    assert(d == v.x * n.x);
    assert(d * n.x == v.x * (s * s)) by (nonlinear_arith)
        requires
            d == v.x * n.x,
            n.x == s || n.x == -s,
    ;
    lemma_trunc_div_exact(v.x as int, s * s);
    assert(v.x * (s * s) == (v.x as int) * (s * s));
    assert(d * n.y == 0) by (nonlinear_arith)
        requires
            n.y == 0,
    ;
    assert(d * n.z == 0) by (nonlinear_arith)
        requires
            n.z == 0,
    ;
    assert(trunc_div(0, s * s) == 0) by {
        vstd::arithmetic::div_mod::lemma_fundamental_div_mod_converse(0, s * s, 0, 0);
    }
}

/// Truncating division leaves a remainder strictly smaller than the
/// divisor in magnitude.
proof fn lemma_trunc_div_remainder(a: int, b: int)
    requires
        b > 0,
    ensures
        -b < a - trunc_div(a, b) * b < b,
{
    if a >= 0 {
        vstd::arithmetic::div_mod::lemma_fundamental_div_mod(a, b);
        vstd::arithmetic::div_mod::lemma_mod_bound(a, b);
        assert(trunc_div(a, b) * b == b * (a / b)) by (nonlinear_arith)
            requires
                trunc_div(a, b) == a / b,
        ;
    } else {
        vstd::arithmetic::div_mod::lemma_fundamental_div_mod(-a, b);
        vstd::arithmetic::div_mod::lemma_mod_bound(-a, b);
        assert(a - trunc_div(a, b) * b == -((-a) - b * ((-a) / b))) by (nonlinear_arith)
            requires
                trunc_div(a, b) == -((-a) / b),
        ;
    }
}

/// Rejection from an exact unit normal removes the motion along the normal
/// up to fixed-point granularity: what remains of the rejected vector
/// along the normal is below three scale units — under three millionths of
/// a unit of speed — however the normal is oriented.
pub proof fn lemma_reject_residual_bound(v: Vec3Fx, n: Vec3Fx)
    requires
        v.abs_le(FX_REJECT_LIMIT as int),
        n.abs_le(FX_SCALE as int),
        n.x * n.x + n.y * n.y + n.z * n.z == (FX_SCALE as int) * (FX_SCALE as int),
    ensures
        ({
            let rx = spec_reject_comp(v, n, v.x as int, n.x as int);
            let ry = spec_reject_comp(v, n, v.y as int, n.y as int);
            let rz = spec_reject_comp(v, n, v.z as int, n.z as int);
            -3 * (FX_SCALE as int) < rx * n.x + ry * n.y + rz * n.z < 3 * (FX_SCALE as int)
        }),
{
    let s = FX_SCALE as int;
    let s2 = s * s;
    let d = spec_dot(v, n);
    let qx = trunc_div(d * n.x, s2);
    let qy = trunc_div(d * n.y, s2);
    let qz = trunc_div(d * n.z, s2);
    let rx = d * n.x - qx * s2;
    let ry = d * n.y - qy * s2;
    let rz = d * n.z - qz * s2;
    lemma_trunc_div_remainder(d * n.x, s2);
    lemma_trunc_div_remainder(d * n.y, s2);
    lemma_trunc_div_remainder(d * n.z, s2);
    let rem = rx * n.x + ry * n.y + rz * n.z;
    let res = (v.x - qx) * n.x + (v.y - qy) * n.y + (v.z - qz) * n.z;
    // rescale each correction term by the squared scale
    assert(qx * n.x * s2 == (d * n.x - rx) * n.x) by (nonlinear_arith)
        requires
            qx * s2 == d * n.x - rx,
    ;
    assert(qy * n.y * s2 == (d * n.y - ry) * n.y) by (nonlinear_arith)
        requires
            qy * s2 == d * n.y - ry,
    ;
    assert(qz * n.z * s2 == (d * n.z - rz) * n.z) by (nonlinear_arith)
        requires
            qz * s2 == d * n.z - rz,
    ;
    // summed, the corrections recover the whole dot product but for the
    // division remainders, because the normal has unit length
    assert((d * n.x - rx) * n.x == d * (n.x * n.x) - rx * n.x) by (nonlinear_arith);
    assert((d * n.y - ry) * n.y == d * (n.y * n.y) - ry * n.y) by (nonlinear_arith);
    assert((d * n.z - rz) * n.z == d * (n.z * n.z) - rz * n.z) by (nonlinear_arith);
    assert(d * (n.x * n.x) + d * (n.y * n.y) + d * (n.z * n.z) == d * s2) by (nonlinear_arith)
        requires
            n.x * n.x + n.y * n.y + n.z * n.z == s2,
    ;
    assert((d * n.x - rx) * n.x + (d * n.y - ry) * n.y + (d * n.z - rz) * n.z == d * s2 - rem);
    assert(res * s2 == (v.x * n.x + v.y * n.y + v.z * n.z) * s2 - (qx * n.x * s2 + qy * n.y * s2
        + qz * n.z * s2)) by (nonlinear_arith)
        requires
            res == (v.x - qx) * n.x + (v.y - qy) * n.y + (v.z - qz) * n.z,
    ;
    assert((v.x * n.x + v.y * n.y + v.z * n.z) * s2 == d * s2) by (nonlinear_arith)
        requires
            d == v.x * n.x + v.y * n.y + v.z * n.z,
    ;
    assert(res * s2 == rem);
    // each remainder term stays strictly below one scale unit rescaled
    assert(-3 * (s2 - 1) * s <= rem <= 3 * (s2 - 1) * s) by (nonlinear_arith)
        requires
            rem == rx * n.x + ry * n.y + rz * n.z,
            -s2 < rx < s2 && -s2 < ry < s2 && -s2 < rz < s2,
            -s <= n.x <= s && -s <= n.y <= s && -s <= n.z <= s,
            0 < s,
            s2 == s * s,
    ;
    // so the residual itself stays strictly below three scale units
    assert(-3 * s < res < 3 * s) by (nonlinear_arith)
        requires
            -3 * (s2 - 1) * s <= res * s2 <= 3 * (s2 - 1) * s,
            0 < s,
            s2 == s * s,
    ;
    assert(spec_reject_comp(v, n, v.x as int, n.x as int) == v.x - qx);
    assert(spec_reject_comp(v, n, v.y as int, n.y as int) == v.y - qy);
    assert(spec_reject_comp(v, n, v.z as int, n.z as int) == v.z - qz);
}

/// The same exactness for a normal on the `z` axis.
pub proof fn lemma_reject_axis_z(v: Vec3Fx, n: Vec3Fx)
    requires
        v.abs_le(FX_REJECT_LIMIT as int),
        n.x == 0 && n.y == 0 && (n.z == FX_SCALE || n.z == -FX_SCALE),
    ensures
        spec_reject_comp(v, n, v.x as int, n.x as int) == v.x,
        spec_reject_comp(v, n, v.y as int, n.y as int) == v.y,
        spec_reject_comp(v, n, v.z as int, n.z as int) == 0,
{
    let s = FX_SCALE as int;
    let d = spec_dot(v, n);
    assert(d == v.z * n.z);
    assert(d * n.z == v.z * (s * s)) by (nonlinear_arith)
        requires
            d == v.z * n.z,
            n.z == s || n.z == -s,
    ;
    lemma_trunc_div_exact(v.z as int, s * s);
    assert(d * n.x == 0) by (nonlinear_arith)
        requires
            n.x == 0,
    ;
    assert(d * n.y == 0) by (nonlinear_arith)
        requires
            n.y == 0,
    ;
    assert(trunc_div(0, s * s) == 0) by {
        vstd::arithmetic::div_mod::lemma_fundamental_div_mod_converse(0, s * s, 0, 0);
    }
}

} // verus!
