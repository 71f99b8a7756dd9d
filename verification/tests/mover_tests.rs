use voxcraft::fx::{Vec3Fx, FX_SCALE};
use voxcraft::mover::{
    apply, apply_gravity, apply_movement_damping, begin, near_zero, request, CastOutcome,
    CollideAndSlideConfig, MoverPhase, MoverState, GRAVITY,
};

const UNIT: i64 = FX_SCALE;

fn default_config() -> CollideAndSlideConfig {
    CollideAndSlideConfig::default()
}

/// Drive one tick to completion against a world with nothing in the way.
fn run_clear(mut state: MoverState) -> MoverState {
    while request(&state).is_some() {
        apply(&mut state, CastOutcome::Clear);
    }
    state
}

#[test]
fn default_config_values() {
    let config = default_config();
    assert_eq!(config.max_bounces, 4);
    assert_eq!(config.skin, 15_000);
    assert!(config.ignore_origin_penetration);
    assert_eq!(config.autostep, 600_000);
}

#[test]
fn zero_velocity_resolves_immediately() {
    let state = begin(Vec3Fx::zero(), Vec3Fx::zero(), UNIT, &default_config());
    assert_eq!(state.phase, MoverPhase::Done);
    assert!(request(&state).is_none());
    assert!(!state.grounded);
}

#[test]
fn unobstructed_motion_travels_the_full_displacement() {
    let start = Vec3Fx::new(UNIT, 10 * UNIT, -UNIT);
    let velocity = Vec3Fx::new(2 * UNIT, -3 * UNIT, UNIT);
    let state = run_clear(begin(start, velocity, UNIT, &default_config()));
    assert_eq!(state.position, Vec3Fx::new(3 * UNIT, 7 * UNIT, 0));
    assert_eq!(state.velocity, velocity);
    assert!(!state.grounded);
    assert!(near_zero(&state.vdt));
}

#[test]
fn falling_onto_a_floor_lands_the_mover() {
    // straight down at 10 units per second, floor contact 4 units below
    let config = default_config();
    let start = Vec3Fx::new(0, 5 * UNIT, 0);
    let velocity = Vec3Fx::new(0, -10 * UNIT, 0);
    let mut state = begin(start, velocity, UNIT, &config);

    let req = request(&state).expect("the vertical sub-step casts first");
    assert_eq!(req.target, Vec3Fx::new(0, -10 * UNIT, 0));
    assert!(req.needs_cast());
    apply(
        &mut state,
        CastOutcome::Hit {
            distance: 4 * UNIT,
            target_len: 10 * UNIT,
            normal: Vec3Fx::new(0, FX_SCALE, 0),
        },
    );
    let state = run_clear(state);

    // vertical velocity zeroed, grounded set, and the mover stops exactly
    // the configured skin short of the reported contact
    assert_eq!(state.velocity, Vec3Fx::zero());
    assert!(state.grounded);
    assert_eq!(state.position, Vec3Fx::new(0, 5 * UNIT - (4 * UNIT - config.skin), 0));
    assert_eq!(state.position.y, UNIT + config.skin);
}

#[test]
fn an_upward_hit_stops_vertical_motion_without_grounding() {
    let mut state = begin(
        Vec3Fx::zero(),
        Vec3Fx::new(0, 8 * UNIT, 0),
        UNIT,
        &default_config(),
    );
    apply(
        &mut state,
        CastOutcome::Hit {
            distance: 2 * UNIT,
            target_len: 8 * UNIT,
            normal: Vec3Fx::new(0, -FX_SCALE, 0),
        },
    );
    assert_eq!(state.velocity.y, 0);
    assert!(!state.grounded);
    let state = run_clear(state);
    assert!(!state.grounded);
}

#[test]
fn sliding_along_a_wall_keeps_tangential_motion() {
    // moving diagonally (3, 0, 4) into a wall whose normal faces -X
    let config = default_config();
    let velocity = Vec3Fx::new(3 * UNIT, 0, 4 * UNIT);
    let mut state = begin(Vec3Fx::zero(), velocity, UNIT, &config);

    // no vertical motion: the vertical sub-step has a zero target
    let req = request(&state).expect("vertical sub-step");
    assert!(!req.needs_cast());
    apply(&mut state, CastOutcome::Clear);

    let req = request(&state).expect("horizontal sub-step");
    assert_eq!(req.target, Vec3Fx::new(3 * UNIT, 0, 4 * UNIT));
    apply(
        &mut state,
        CastOutcome::Hit {
            distance: UNIT,
            target_len: 5 * UNIT,
            normal: Vec3Fx::new(-FX_SCALE, 0, 0),
        },
    );

    // the velocity component into the wall is removed, not the whole
    // velocity: tangential motion survives
    assert_eq!(state.velocity, Vec3Fx::new(0, 0, 4 * UNIT));
    let allowed = UNIT - config.skin;
    let advx = 3 * allowed / 5;
    let advz = 4 * allowed / 5;
    assert_eq!(state.position, Vec3Fx::new(advx, 0, advz));
    // the remaining displacement slides along the wall too
    assert_eq!(state.vdt.x, 0);
    assert_eq!(state.vdt.z, 4 * UNIT - advz);

    // the rest of the tick continues along the wall
    let state = run_clear(state);
    assert_eq!(state.position, Vec3Fx::new(advx, 0, 4 * UNIT));
    assert_eq!(state.velocity, Vec3Fx::new(0, 0, 4 * UNIT));
}

#[test]
fn sliding_along_a_diagonal_wall_removes_the_normal_component() {
    // head-on into a wall at a 3-4-5 angle: the contact normal
    // (-0.6, 0, -0.8) is an exact unit vector in fixed point
    let mut state = begin(
        Vec3Fx::zero(),
        Vec3Fx::new(UNIT, 0, 0),
        UNIT,
        &default_config(),
    );
    apply(&mut state, CastOutcome::Clear);
    apply(
        &mut state,
        CastOutcome::Hit {
            distance: 0,
            target_len: UNIT,
            normal: Vec3Fx::new(-600_000, 0, -800_000),
        },
    );
    assert_eq!(state.velocity, Vec3Fx::new(640_000, 0, -480_000));
    // the motion along the wall normal is gone; the tangential remainder
    // keeps sliding along the wall
    let along_normal =
        state.velocity.x as i128 * -600_000 + state.velocity.z as i128 * -800_000;
    assert_eq!(along_normal, 0);
    assert!(!state.grounded);
}

#[test]
fn the_bounce_loop_stops_at_the_configured_limit() {
    let mut config = default_config();
    config.max_bounces = 2;
    let mut state = begin(
        Vec3Fx::zero(),
        Vec3Fx::new(4 * UNIT, 0, 4 * UNIT),
        UNIT,
        &config,
    );
    let mut bounces = 0;
    while let Some(req) = request(&state) {
        // a wall keeps redirecting the motion without consuming it
        let outcome = if req.needs_cast() {
            bounces += 1;
            CastOutcome::Hit {
                distance: 0,
                target_len: 8 * UNIT,
                normal: Vec3Fx::new(-700_000, 0, -700_000),
            }
        } else {
            CastOutcome::Clear
        };
        apply(&mut state, outcome);
    }
    assert_eq!(state.bounces_done, 2);
    assert!(bounces <= 2);
}

#[test]
fn damping_scales_and_snaps_small_speeds_to_zero() {
    let mut v = Vec3Fx::new(UNIT, 5_000, 2 * UNIT);
    apply_movement_damping(&mut v, 900_000, false);
    assert_eq!(v, Vec3Fx::new(900_000, 0, 1_800_000));

    // a walking mover keeps its vertical speed undamped
    let mut v = Vec3Fx::new(0, -3 * UNIT, 0);
    apply_movement_damping(&mut v, 900_000, false);
    assert_eq!(v, Vec3Fx::new(0, -3 * UNIT, 0));

    // a flying mover damps vertically too
    let mut v = Vec3Fx::new(0, -3 * UNIT, 0);
    apply_movement_damping(&mut v, 900_000, true);
    assert_eq!(v, Vec3Fx::new(0, -2_700_000, 0));
}

#[test]
fn gravity_pulls_velocity_down() {
    let mut v = Vec3Fx::new(UNIT, 0, 0);
    apply_gravity(&mut v, UNIT);
    assert_eq!(v, Vec3Fx::new(UNIT, -GRAVITY, 0));
    apply_gravity(&mut v, UNIT / 2);
    assert_eq!(v, Vec3Fx::new(UNIT, -GRAVITY - GRAVITY / 2, 0));
}
