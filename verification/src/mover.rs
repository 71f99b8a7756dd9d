//! Collide-and-slide character mover: a bounded bounce loop that alternates
//! a vertical and a horizontal shape-cast sub-step. The host performs each
//! requested cast against the physics world and feeds the outcome back;
//! every decision in between is made here, in fixed point.

use vstd::prelude::*;

verus! {

use crate::fx::{
    lemma_reject_comp_bound, reject_from_normal, scale_component, spec_reject_comp, trunc_div,
    Vec3Fx, FX_REJECT_LIMIT, FX_SCALE,
};

/// Displacements whose components all stay within this bound count as spent:
/// the bounce loop ends early.
pub const FX_EPSILON: i64 = 100;

/// The hard cap on configured bounce counts.
pub const MOVER_BOUNCE_CAP: usize = 8;

/// The largest velocity component `begin` accepts.
pub const MOVER_VEL_LIMIT: i64 = 100_000_000_000;

/// The largest time step `begin` accepts.
pub const MOVER_DT_LIMIT: i64 = 10_000_000;

/// The largest position component `begin` accepts.
pub const MOVER_POS_LIMIT: i64 = 100_000_000_000_000_000;

/// The base bound on a displacement component entering the bounce loop.
pub const MOVER_VEL_BASE: i64 = 1_000_000_000_000;

/// The largest advance one sub-step can make.
pub const MOVER_STEP_MAX: i64 = 65_536_000_000_000_000;

/// Per-mover tuning of the collide-and-slide resolver.
#[derive(Clone, Copy, Debug, PartialEq, Eq, Structural)]
pub struct CollideAndSlideConfig {
    /// Maximum number of bounce iterations before the step gives up.
    pub max_bounces: usize,
    /// The gap kept between the collider and anything it hits.
    pub skin: i64,
    /// Whether casts ignore surfaces the collider already penetrates.
    pub ignore_origin_penetration: bool,
    /// The ledge height an automatic step could climb; configured but not
    /// resolved by the current mover.
    pub autostep: i64,
}

impl Default for CollideAndSlideConfig {
    fn default() -> (r: CollideAndSlideConfig)
        ensures
            r.max_bounces == 4,
            r.skin == 15_000,
            r.ignore_origin_penetration,
            r.autostep == 600_000,
    {
        CollideAndSlideConfig {
            max_bounces: 4,
            skin: 15_000,
            ignore_origin_penetration: true,
            autostep: 600_000,
        }
    }
}

/// Which sub-step of the current bounce runs next.
#[derive(Clone, Copy, Debug, PartialEq, Eq, Structural)]
pub enum MoverPhase {
    Vertical,
    Horizontal,
    Done,
}

/// Every component of the displacement is within the early-exit epsilon.
pub open spec fn spec_near_zero(v: Vec3Fx) -> bool {
    v.abs_le(FX_EPSILON as int)
}

pub fn near_zero(v: &Vec3Fx) -> (r: bool)
    ensures
        r == spec_near_zero(*v),
{
    -FX_EPSILON <= v.x && v.x <= FX_EPSILON && -FX_EPSILON <= v.y && v.y <= FX_EPSILON
        && -FX_EPSILON <= v.z && v.z <= FX_EPSILON
}

/// The bound on a displacement or velocity component after `b` bounces:
/// each slide rejection can grow a component at most fourfold.
pub open spec fn vel_bound(b: int) -> int {
    (MOVER_VEL_BASE as int) * (if b <= 0 {
        1int
    } else if b == 1 {
        4
    } else if b == 2 {
        16
    } else if b == 3 {
        64
    } else if b == 4 {
        256
    } else if b == 5 {
        1024
    } else if b == 6 {
        4096
    } else if b == 7 {
        16384
    } else {
        65536
    })
}

/// The allowed travel once the skin gap is held back, never negative.
pub open spec fn spec_allowed(distance: int, skin: int) -> int {
    if distance - skin > 0 {
        distance - skin
    } else {
        0
    }
}

/// One mover's progress through the bounce loop of a single tick.
#[derive(Clone, Copy, Debug, PartialEq, Eq, Structural)]
pub struct MoverState {
    /// Where the collider currently stands.
    pub position: Vec3Fx,
    /// The velocity carried across ticks; collisions strip components.
    pub velocity: Vec3Fx,
    /// The displacement still to travel this tick.
    pub vdt: Vec3Fx,
    /// Whether a downward hit has landed the mover this tick.
    pub grounded: bool,
    /// Bounces finished so far.
    pub bounces_done: usize,
    /// The configured bounce limit.
    pub max_bounces: usize,
    /// The configured skin gap.
    pub skin: i64,
    /// The sub-step that runs next.
    pub phase: MoverPhase,
}

impl MoverState {
    /// How many sub-step advances have happened.
    pub open spec fn steps_done(self) -> int {
        2 * self.bounces_done + (if self.phase == MoverPhase::Horizontal {
            1int
        } else {
            0
        })
    }

    pub open spec fn wf(self) -> bool {
        &&& self.max_bounces <= MOVER_BOUNCE_CAP
        &&& self.bounces_done <= self.max_bounces
        &&& (self.phase != MoverPhase::Done ==> self.bounces_done < self.max_bounces)
        &&& 0 <= self.skin <= FX_SCALE
        &&& self.vdt.abs_le(vel_bound(self.bounces_done as int))
        &&& self.velocity.abs_le(vel_bound(self.bounces_done as int))
        &&& self.position.abs_le(
            MOVER_POS_LIMIT as int + self.steps_done() * (MOVER_STEP_MAX as int),
        )
    }

    /// The target displacement of the sub-step that runs next: the vertical
    /// share of the remaining displacement, or its horizontal share.
    pub open spec fn phase_target(self) -> Vec3Fx {
        match self.phase {
            MoverPhase::Vertical => Vec3Fx { x: 0, y: self.vdt.y, z: 0 },
            MoverPhase::Horizontal => Vec3Fx { x: self.vdt.x, y: 0, z: self.vdt.z },
            MoverPhase::Done => Vec3Fx { x: 0, y: 0, z: 0 },
        }
    }
}

/// One shape-cast the mover asks the physics world to perform: sweep the
/// collider from `origin` along `target` and report the first blocking
/// surface, the cast's own collider excluded.
#[derive(Clone, Copy, Debug, PartialEq, Eq, Structural)]
pub struct CastRequest {
    pub origin: Vec3Fx,
    pub target: Vec3Fx,
}

impl CastRequest {
    /// A zero-length sweep needs no cast: the host answers `Clear`.
    pub fn needs_cast(&self) -> (r: bool)
        ensures
            r == (self.target != (Vec3Fx { x: 0, y: 0, z: 0 })),
    {
        self.target.x != 0 || self.target.y != 0 || self.target.z != 0
    }
}

/// What a shape-cast found: a clear path, or a first blocking surface at
/// `distance` along the sweep of full length `target_len`, with the
/// surface's unit contact normal in fixed point.
#[derive(Clone, Copy, Debug, PartialEq, Eq, Structural)]
pub enum CastOutcome {
    Clear,
    Hit { distance: i64, target_len: i64, normal: Vec3Fx },
}

/// Start one tick of collide-and-slide: the displacement to resolve is
/// `velocity * dt`, and the loop opens with a vertical sub-step unless the
/// displacement is already spent or no bounce is allowed.
pub fn begin(
    position: Vec3Fx,
    velocity: Vec3Fx,
    dt: i64,
    config: &CollideAndSlideConfig,
) -> (r: MoverState)
    requires
        position.abs_le(MOVER_POS_LIMIT as int),
        velocity.abs_le(MOVER_VEL_LIMIT as int),
        0 <= dt <= MOVER_DT_LIMIT,
        config.max_bounces <= MOVER_BOUNCE_CAP,
        0 <= config.skin <= FX_SCALE,
    ensures
        r.wf(),
        r.position == position,
        r.velocity == velocity,
        !r.grounded,
        r.bounces_done == 0,
        r.max_bounces == config.max_bounces,
        r.skin == config.skin,
        r.vdt.x == trunc_div(velocity.x as int * dt as int, FX_SCALE as int),
        r.vdt.y == trunc_div(velocity.y as int * dt as int, FX_SCALE as int),
        r.vdt.z == trunc_div(velocity.z as int * dt as int, FX_SCALE as int),
        r.phase == (if config.max_bounces == 0 || spec_near_zero(r.vdt) {
            MoverPhase::Done
        } else {
            MoverPhase::Vertical
        }),
{
    let vdt = Vec3Fx {
        x: crate::fx::scale_by_dt(velocity.x, dt),
        y: crate::fx::scale_by_dt(velocity.y, dt),
        z: crate::fx::scale_by_dt(velocity.z, dt),
    };
    let phase = if config.max_bounces == 0 || near_zero(&vdt) {
        MoverPhase::Done
    } else {
        MoverPhase::Vertical
    };
    MoverState {
        position,
        velocity,
        vdt,
        grounded: false,
        bounces_done: 0,
        max_bounces: config.max_bounces,
        skin: config.skin,
        phase,
    }
}

/// The cast the mover needs next, or nothing once the tick is resolved.
pub fn request(state: &MoverState) -> (r: Option<CastRequest>)
    requires
        state.wf(),
    ensures
        (state.phase == MoverPhase::Done) == (r is None),
        r matches Some(q) ==> q.origin == state.position && q.target == state.phase_target(),
{
    match state.phase {
        MoverPhase::Done => None,
        MoverPhase::Vertical => Some(
            CastRequest {
                origin: state.position,
                target: Vec3Fx { x: 0, y: state.vdt.y, z: 0 },
            },
        ),
        MoverPhase::Horizontal => Some(
            CastRequest {
                origin: state.position,
                target: Vec3Fx { x: state.vdt.x, y: 0, z: state.vdt.z },
            },
        ),
    }
}

/// Feed the outcome of the requested cast back into the mover and run one
/// sub-step.
///
/// A vertical hit stops vertical motion outright: the vertical displacement
/// and velocity are zeroed, and a downward attempt marks the mover
/// grounded. A horizontal hit redirects the remaining displacement and the
/// velocity by vector rejection from the contact normal, producing sliding.
/// Either sub-step advances the position by the allowed travel, the
/// configured skin gap held back from any hit.
pub fn apply(state: &mut MoverState, outcome: CastOutcome)
    requires
        old(state).wf(),
        old(state).phase != MoverPhase::Done,
        outcome matches CastOutcome::Hit { distance, target_len, normal } ==> {
            let t = old(state).phase_target();
            &&& 0 <= distance <= target_len
            &&& 0 < target_len
            &&& t.x <= target_len && -t.x <= target_len
            &&& t.y <= target_len && -t.y <= target_len
            &&& t.z <= target_len && -t.z <= target_len
            &&& normal.abs_le(FX_SCALE as int)
        },
    ensures
        final(state).wf(),
        final(state).max_bounces == old(state).max_bounces,
        final(state).skin == old(state).skin,
        old(state).phase == MoverPhase::Vertical ==> {
            &&& final(state).phase == MoverPhase::Horizontal
            &&& final(state).bounces_done == old(state).bounces_done
            &&& final(state).position.x == old(state).position.x
            &&& final(state).position.z == old(state).position.z
            &&& final(state).vdt.x == old(state).vdt.x
            &&& final(state).vdt.z == old(state).vdt.z
            &&& final(state).velocity.x == old(state).velocity.x
            &&& final(state).velocity.z == old(state).velocity.z
        },
        old(state).phase == MoverPhase::Vertical && outcome is Clear ==> {
            &&& final(state).position.y == old(state).position.y + old(state).vdt.y
            &&& final(state).vdt.y == 0
            &&& final(state).velocity.y == old(state).velocity.y
            &&& final(state).grounded == old(state).grounded
        },
        old(state).phase == MoverPhase::Vertical ==> (outcome matches CastOutcome::Hit {
            distance,
            target_len,
            normal,
        } ==> {
            let allowed = spec_allowed(distance as int, old(state).skin as int);
            &&& final(state).position.y == old(state).position.y + trunc_div(
                old(state).vdt.y as int * allowed,
                target_len as int,
            )
            &&& final(state).vdt.y == 0
            &&& final(state).velocity.y == 0
            &&& final(state).grounded == (old(state).grounded || old(state).vdt.y < 0)
        }),
        old(state).phase == MoverPhase::Horizontal ==> {
            &&& final(state).bounces_done == old(state).bounces_done + 1
            &&& final(state).phase == (if final(state).bounces_done == old(state).max_bounces
                || spec_near_zero(final(state).vdt) {
                MoverPhase::Done
            } else {
                MoverPhase::Vertical
            })
            &&& final(state).position.y == old(state).position.y
            &&& final(state).grounded == old(state).grounded
        },
        old(state).phase == MoverPhase::Horizontal && outcome is Clear ==> {
            &&& final(state).position.x == old(state).position.x + old(state).vdt.x
            &&& final(state).position.z == old(state).position.z + old(state).vdt.z
            &&& final(state).vdt.x == 0
            &&& final(state).vdt.y == old(state).vdt.y
            &&& final(state).vdt.z == 0
            &&& final(state).velocity == old(state).velocity
        },
        old(state).phase == MoverPhase::Horizontal ==> (outcome matches CastOutcome::Hit {
            distance,
            target_len,
            normal,
        } ==> {
            let allowed = spec_allowed(distance as int, old(state).skin as int);
            let advx = trunc_div(old(state).vdt.x as int * allowed, target_len as int);
            let advz = trunc_div(old(state).vdt.z as int * allowed, target_len as int);
            let vdt1 = Vec3Fx {
                x: (old(state).vdt.x - advx) as i64,
                y: old(state).vdt.y,
                z: (old(state).vdt.z - advz) as i64,
            };
            &&& final(state).position.x == old(state).position.x + advx
            &&& final(state).position.z == old(state).position.z + advz
            &&& final(state).vdt.x == spec_reject_comp(vdt1, normal, vdt1.x as int, normal.x as int)
            &&& final(state).vdt.y == spec_reject_comp(vdt1, normal, vdt1.y as int, normal.y as int)
            &&& final(state).vdt.z == spec_reject_comp(vdt1, normal, vdt1.z as int, normal.z as int)
            &&& final(state).velocity.x == spec_reject_comp(
                old(state).velocity,
                normal,
                old(state).velocity.x as int,
                normal.x as int,
            )
            &&& final(state).velocity.y == spec_reject_comp(
                old(state).velocity,
                normal,
                old(state).velocity.y as int,
                normal.y as int,
            )
            &&& final(state).velocity.z == spec_reject_comp(
                old(state).velocity,
                normal,
                old(state).velocity.z as int,
                normal.z as int,
            )
        }),
{
    let ghost pre = *state;
    proof {
        assert(vel_bound(pre.bounces_done as int) <= MOVER_STEP_MAX as int);
        assert(vel_bound(pre.bounces_done as int) <= FX_REJECT_LIMIT as int);
    }
    if matches!(state.phase, MoverPhase::Vertical) {
        match outcome {
            CastOutcome::Clear => {
                state.position.y = state.position.y + state.vdt.y;
                state.vdt.y = 0;
            },
            CastOutcome::Hit { distance, target_len, normal: _ } => {
                let allowed = if distance > state.skin {
                    distance - state.skin
                } else {
                    0
                };
                let adv = scale_component(state.vdt.y, allowed, target_len);
                state.position.y = state.position.y + adv;
                if state.vdt.y < 0 {
                    state.grounded = true;
                }
                state.vdt.y = 0;
                state.velocity.y = 0;
            },
        }
        state.phase = MoverPhase::Horizontal;
    } else {
        match outcome {
            CastOutcome::Clear => {
                state.position.x = state.position.x + state.vdt.x;
                state.position.z = state.position.z + state.vdt.z;
                state.vdt.x = 0;
                state.vdt.z = 0;
            },
            CastOutcome::Hit { distance, target_len, normal } => {
                let allowed = if distance > state.skin {
                    distance - state.skin
                } else {
                    0
                };
                let advx = scale_component(state.vdt.x, allowed, target_len);
                let advz = scale_component(state.vdt.z, allowed, target_len);
                state.position.x = state.position.x + advx;
                state.position.z = state.position.z + advz;
                state.vdt.x = state.vdt.x - advx;
                state.vdt.z = state.vdt.z - advz;
                let ghost m = vel_bound(pre.bounces_done as int);
                proof {
                    assert(state.vdt.abs_le(m));
                    assert(state.velocity.abs_le(m));
                }
                let new_vdt = reject_from_normal(state.vdt, normal);
                let new_velocity = reject_from_normal(state.velocity, normal);
                proof {
                    lemma_reject_comp_bound(
                        state.vdt,
                        normal,
                        state.vdt.x as int,
                        normal.x as int,
                        m,
                    );
                    lemma_reject_comp_bound(
                        state.vdt,
                        normal,
                        state.vdt.y as int,
                        normal.y as int,
                        m,
                    );
                    lemma_reject_comp_bound(
                        state.vdt,
                        normal,
                        state.vdt.z as int,
                        normal.z as int,
                        m,
                    );
                    lemma_reject_comp_bound(
                        state.velocity,
                        normal,
                        state.velocity.x as int,
                        normal.x as int,
                        m,
                    );
                    lemma_reject_comp_bound(
                        state.velocity,
                        normal,
                        state.velocity.y as int,
                        normal.y as int,
                        m,
                    );
                    lemma_reject_comp_bound(
                        state.velocity,
                        normal,
                        state.velocity.z as int,
                        normal.z as int,
                        m,
                    );
                }
                state.vdt = new_vdt;
                state.velocity = new_velocity;
            },
        }
        state.bounces_done = state.bounces_done + 1;
        state.phase = if state.bounces_done == state.max_bounces || near_zero(&state.vdt) {
            MoverPhase::Done
        } else {
            MoverPhase::Vertical
        };
    }
}

/// Speeds whose magnitude falls below this are snapped to zero by damping.
pub const SPEED_THRESHOLD: i64 = 10_000;

/// Gravitational acceleration, in fixed-point units per second squared.
pub const GRAVITY: i64 = 9_810_000;

/// One damping step of a speed component: scale by `factor`, then snap to
/// zero below the speed threshold.
pub open spec fn spec_damped(c: int, factor: int) -> int {
    let d = trunc_div(c * factor, FX_SCALE as int);
    if -(SPEED_THRESHOLD as int) < d < SPEED_THRESHOLD as int {
        0
    } else {
        d
    }
}

/// A speed component snapped to zero below the speed threshold, otherwise
/// kept.
pub open spec fn spec_thresholded(c: int) -> int {
    if -(SPEED_THRESHOLD as int) < c < SPEED_THRESHOLD as int {
        0
    } else {
        c
    }
}

fn threshold_component(c: i64) -> (r: i64)
    ensures
        r == spec_thresholded(c as int),
{
    if -SPEED_THRESHOLD < c && c < SPEED_THRESHOLD {
        0
    } else {
        c
    }
}

/// Damp a mover's velocity at the end of a tick: the horizontal components
/// shrink by `factor`, the vertical one only while flying, and any
/// component left below the speed threshold snaps to zero.
pub fn apply_movement_damping(v: &mut Vec3Fx, factor: i64, flying: bool)
    requires
        0 <= factor <= FX_SCALE,
    ensures
        final(v).x == spec_damped(old(v).x as int, factor as int),
        final(v).z == spec_damped(old(v).z as int, factor as int),
        flying ==> final(v).y == spec_damped(old(v).y as int, factor as int),
        !flying ==> final(v).y == spec_thresholded(old(v).y as int),
{
    v.x = scale_component(v.x, factor, FX_SCALE);
    v.z = scale_component(v.z, factor, FX_SCALE);
    if flying {
        v.y = scale_component(v.y, factor, FX_SCALE);
    }
    v.x = threshold_component(v.x);
    v.y = threshold_component(v.y);
    v.z = threshold_component(v.z);
}

/// Pull a mover's velocity down by one tick of gravity.
pub fn apply_gravity(v: &mut Vec3Fx, dt: i64)
    requires
        0 <= dt <= MOVER_DT_LIMIT,
        old(v).abs_le(FX_REJECT_LIMIT as int),
    ensures
        final(v).x == old(v).x,
        final(v).z == old(v).z,
        final(v).y == old(v).y - trunc_div(GRAVITY as int * dt as int, FX_SCALE as int),
{
    let g = crate::fx::scale_by_dt(GRAVITY, dt);
    v.y = v.y - g;
}

/// A mover falling straight down whose vertical cast hits a floor within
/// the step comes to rest on it: after the sub-step (`post` being the state
/// `apply` produces for that hit) the vertical velocity is zero, the mover
/// is grounded, and it has travelled exactly `distance - skin` down, so the
/// gap left to the reported surface is exactly the configured skin.
pub proof fn law_floor_landing(
    pre: MoverState,
    post: MoverState,
    distance: i64,
    target_len: i64,
)
    requires
        pre.wf(),
        pre.phase == MoverPhase::Vertical,
        pre.vdt.y < 0,
        target_len == -pre.vdt.y,
        pre.skin <= distance <= target_len,
        post.position.y == pre.position.y + trunc_div(
            pre.vdt.y as int * spec_allowed(distance as int, pre.skin as int),
            target_len as int,
        ),
        post.vdt.y == 0,
        post.velocity.y == 0,
        post.grounded == (pre.grounded || pre.vdt.y < 0),
    ensures
        post.velocity.y == 0,
        post.grounded,
        pre.position.y - post.position.y == distance - pre.skin,
{
    let allowed = spec_allowed(distance as int, pre.skin as int);
    assert(allowed == distance - pre.skin);
    let b = target_len as int;
    assert(pre.vdt.y as int * allowed == -(allowed * b)) by (nonlinear_arith)
        requires
            b == -(pre.vdt.y as int),
    ;
    crate::fx::lemma_trunc_div_exact(allowed, b);
    if allowed == 0 {
        assert(trunc_div(0, b) == 0) by {
            vstd::arithmetic::div_mod::lemma_div_basics(b);
        }
    } else {
        assert((allowed * b) / b == allowed) by {
            vstd::arithmetic::div_mod::lemma_fundamental_div_mod_converse(
                allowed * b,
                b,
                allowed,
                0,
            );
        }
        assert(trunc_div(-(allowed * b), b) == -allowed) by {
            assert(allowed * b > 0) by (nonlinear_arith)
                requires
                    allowed > 0,
                    b > 0,
            ;
        }
    }
}

/// A mover running without vertical motion into a wall whose contact normal
/// is an axis-aligned horizontal unit vector — any vertical wall of a
/// unit-cube world — slides instead of stopping: after the sub-step
/// (`post` holding the values `apply` produces for the hit) the velocity
/// component along the wall normal is removed exactly, the tangential
/// component survives unchanged, and the hit does not ground the mover.
pub proof fn law_wall_slide(pre: MoverState, post: MoverState, normal: Vec3Fx)
    requires
        pre.wf(),
        pre.phase == MoverPhase::Horizontal,
        pre.velocity.y == 0,
        !pre.grounded,
        normal.y == 0,
        (normal.x == FX_SCALE || normal.x == (-1 * FX_SCALE) as i64) && normal.z == 0 || (
        normal.z == FX_SCALE || normal.z == (-1 * FX_SCALE) as i64) && normal.x == 0,
        post.velocity.x == spec_reject_comp(
            pre.velocity,
            normal,
            pre.velocity.x as int,
            normal.x as int,
        ),
        post.velocity.y == spec_reject_comp(
            pre.velocity,
            normal,
            pre.velocity.y as int,
            normal.y as int,
        ),
        post.velocity.z == spec_reject_comp(
            pre.velocity,
            normal,
            pre.velocity.z as int,
            normal.z as int,
        ),
        post.grounded == pre.grounded,
    ensures
        normal.x != 0 ==> post.velocity.x == 0 && post.velocity.z == pre.velocity.z,
        normal.z != 0 ==> post.velocity.z == 0 && post.velocity.x == pre.velocity.x,
        post.velocity.y == 0,
        !post.grounded,
{
    assert(vel_bound(pre.bounces_done as int) <= FX_REJECT_LIMIT as int);
    if normal.x != 0 {
        crate::fx::lemma_reject_axis(pre.velocity, normal);
    } else {
        crate::fx::lemma_reject_axis_z(pre.velocity, normal);
    }
}

/// A mover hitting a wall with any exact unit contact normal slides: the
/// velocity `apply` produces is the fixed-point rejection, whose remaining
/// motion along the normal stays below three fixed-point ticks per unit of
/// normal scale — component removal as exact as truncating arithmetic
/// permits — and a horizontal hit never grounds the mover.
pub proof fn law_wall_slide_residual(pre: MoverState, post: MoverState, normal: Vec3Fx)
    requires
        pre.wf(),
        pre.phase == MoverPhase::Horizontal,
        !pre.grounded,
        normal.abs_le(FX_SCALE as int),
        normal.x * normal.x + normal.y * normal.y + normal.z * normal.z == (FX_SCALE as int) * (
        FX_SCALE as int),
        post.velocity.x == spec_reject_comp(
            pre.velocity,
            normal,
            pre.velocity.x as int,
            normal.x as int,
        ),
        post.velocity.y == spec_reject_comp(
            pre.velocity,
            normal,
            pre.velocity.y as int,
            normal.y as int,
        ),
        post.velocity.z == spec_reject_comp(
            pre.velocity,
            normal,
            pre.velocity.z as int,
            normal.z as int,
        ),
        post.grounded == pre.grounded,
    ensures
        -3 * (FX_SCALE as int) < post.velocity.x * normal.x + post.velocity.y * normal.y
            + post.velocity.z * normal.z < 3 * (FX_SCALE as int),
        !post.grounded,
{
    assert(vel_bound(pre.bounces_done as int) <= FX_REJECT_LIMIT as int);
    crate::fx::lemma_reject_residual_bound(pre.velocity, normal);
}

} // verus!
