//! Integration — gravity, acceleration, clamping, damping — and the
//! ground-contact post-processing that reads the kinematic controller's
//! resolved output.

use vstd::prelude::*;
use crate::constants::{
    COORD_LIMIT, DUST_EMITTER_RAISE, DUST_HIT_SPEED_THRESHOLD, GRAVITY_PER_TICK,
    GROUNDED_BIAS_VELOCITY, TICKS_PER_SECOND, VELOCITY_SNAP_EPSILON,
};
use crate::math::{clamp_i64, clamped, div_trunc, div_trunc_i64, scale_milli, scale_spec, Vec2Fx};
use crate::state::{Acceleration, GravityDir, GroundDetector, Jump, Player, Velocity, WithPrevious};

verus! {

/// The (signed) change gravity makes to the vertical velocity in one tick.
/// The slow-down factor softens the pull only while the actor is falling;
/// a rising actor always feels the full pull.
pub open spec fn gravity_delta(v_y: int, g: GravityDir) -> int {
    if v_y < 0 {
        scale_spec(scale_spec(-GRAVITY_PER_TICK as int, g.dir as int), g.slow_down as int)
    } else {
        scale_spec(-GRAVITY_PER_TICK as int, g.dir as int)
    }
}

/// The horizontal velocity after damping, with speeds below the snap
/// threshold flushed to zero so the actor never creeps.
pub open spec fn damped_x(v_x: int, damping: int) -> int {
    let s = scale_spec(v_x, 1000 - damping);
    if -VELOCITY_SNAP_EPSILON < s < VELOCITY_SNAP_EPSILON {
        0
    } else {
        s
    }
}

/// One world-unit-per-second velocity component turned into this tick's
/// displacement.
pub open spec fn per_tick(v: int) -> int {
    div_trunc(v, TICKS_PER_SECOND as int)
}

/// The velocity and acceleration `apply_velocity_to_kinematic_controller`
/// leaves behind, and the translation it returns: gravity and acceleration
/// added, the velocity clamped, the translation taken from the grab system
/// or derived per tick, the horizontal component damped and snapped, the
/// accumulator cleared.
pub open spec fn integration_step(
    v: Velocity,
    a: Acceleration,
    g: GravityDir,
    translation_in: Option<Vec2Fx>,
) -> (Velocity, Acceleration, Vec2Fx) {
    let vy = clamped(
        v.current.y + gravity_delta(v.current.y as int, g) + a.current.y,
        -v.max.y as int,
        v.max.y as int,
    );
    let vx = clamped(v.current.x + a.current.x, -v.max.x as int, v.max.x as int);
    let translation = match translation_in {
        Some(t) => t,
        None => Vec2Fx { x: per_tick(vx) as i64, y: per_tick(vy) as i64 },
    };
    (
        Velocity {
            current: Vec2Fx { x: damped_x(vx, v.damping as int) as i64, y: vy as i64 },
            ..v
        },
        Acceleration { current: Vec2Fx { x: 0, y: 0 } },
        translation,
    )
}

/// Integrate gravity and the accumulated acceleration into the velocity,
/// clamp it to the component-wise maximum, and produce the translation this
/// tick submits to the kinematic controller.
///
/// A translation already chosen by the grab system (`translation_in`) is
/// passed through instead of the velocity-derived one. Afterwards the
/// horizontal velocity is damped and snapped, and the acceleration
/// accumulator is cleared — it never carries into the next tick.
pub fn apply_velocity_to_kinematic_controller(
    velocity: &mut Velocity,
    acceleration: &mut Acceleration,
    gravity_dir: &GravityDir,
    translation_in: Option<Vec2Fx>,
) -> (translation: Vec2Fx)
    requires
        old(velocity).integrable(),
        old(acceleration).wf(),
        gravity_dir.wf(),
    ensures
        final(velocity).wf(),
        final(velocity).is_clamped(),
        final(velocity).max == old(velocity).max,
        final(velocity).damping == old(velocity).damping,
        final(acceleration).current == (Vec2Fx { x: 0, y: 0 }),
        final(velocity).current.y == clamped(
            old(velocity).current.y + gravity_delta(old(velocity).current.y as int, *gravity_dir)
                + old(acceleration).current.y,
            -old(velocity).max.y as int,
            old(velocity).max.y as int,
        ),
        final(velocity).current.x == damped_x(
            clamped(
                old(velocity).current.x + old(acceleration).current.x,
                -old(velocity).max.x as int,
                old(velocity).max.x as int,
            ),
            old(velocity).damping as int,
        ),
        translation == (match translation_in {
            Some(t) => t,
            None => Vec2Fx {
                x: per_tick(clamped(
                    old(velocity).current.x + old(acceleration).current.x,
                    -old(velocity).max.x as int,
                    old(velocity).max.x as int,
                )) as i64,
                y: per_tick(final(velocity).current.y as int) as i64,
            },
        }),
        (*final(velocity), *final(acceleration), translation) == integration_step(
            *old(velocity),
            *old(acceleration),
            *gravity_dir,
            translation_in,
        ),
{
    let ghost g = *gravity_dir;

    let base = scale_milli(-GRAVITY_PER_TICK, gravity_dir.dir);
    proof {
        crate::math::lemma_scale_magnitude(-GRAVITY_PER_TICK as int, gravity_dir.dir as int);
    }
    let delta = if velocity.current.y < 0 {
        proof {
            crate::math::lemma_scale_shrinks(base as int, gravity_dir.slow_down as int);
        }
        scale_milli(base, gravity_dir.slow_down)
    } else {
        base
    };
    proof {
        assert(delta == gravity_delta(old(velocity).current.y as int, g));
        assert(-GRAVITY_PER_TICK <= delta <= GRAVITY_PER_TICK);
    }

    velocity.current.y = velocity.current.y + delta;

    velocity.current.x = velocity.current.x + acceleration.current.x;
    velocity.current.y = velocity.current.y + acceleration.current.y;

    velocity.current.x = clamp_i64(velocity.current.x, -velocity.max.x, velocity.max.x);
    velocity.current.y = clamp_i64(velocity.current.y, -velocity.max.y, velocity.max.y);

    let translation = match translation_in {
        Some(t) => t,
        None => Vec2Fx {
            x: div_trunc_i64(velocity.current.x, TICKS_PER_SECOND),
            y: div_trunc_i64(velocity.current.y, TICKS_PER_SECOND),
        },
    };

    proof {
        crate::math::lemma_scale_shrinks(velocity.current.x as int, 1000 - velocity.damping as int);
    }
    velocity.current.x = scale_milli(velocity.current.x, 1000 - velocity.damping);
    if -VELOCITY_SNAP_EPSILON < velocity.current.x && velocity.current.x < VELOCITY_SNAP_EPSILON {
        velocity.current.x = 0;
    }

    acceleration.current = Vec2Fx { x: 0, y: 0 };

    translation
}

/// The grounded-edge bookkeeping one controller result causes: the grounded
/// flag is recorded with edge memory, and on the tick it changes the
/// pre-bias vertical speed is captured for the landing-effect system.
pub open spec fn ground_update(d: GroundDetector, grounded: bool, v_y: i64) -> GroundDetector {
    GroundDetector {
        is_on_ground: WithPrevious { current: grounded, previous: Some(d.is_on_ground.current) },
        hit_speed: if d.is_on_ground.current != grounded {
            v_y
        } else {
            d.hit_speed
        },
    }
}

/// The velocity and detector `clear_velocity_if_kinematic_on_ground`
/// leaves behind.
pub open spec fn ground_step(
    v: Velocity,
    j: Jump,
    p: Player,
    d: GroundDetector,
    grounded: bool,
) -> (Velocity, GroundDetector) {
    (
        Velocity {
            current: Vec2Fx {
                x: v.current.x,
                y: if grounded && !j.is_jumping && !p.is_respawning {
                    GROUNDED_BIAS_VELOCITY
                } else {
                    v.current.y
                },
            },
            ..v
        },
        ground_update(d, grounded, v.current.y),
    )
}

/// React to the kinematic controller's resolved output: a grounded actor
/// that is neither jumping nor respawning gets a small downward bias
/// velocity that glues it to slopes, and the ground detector records the
/// grounded edge together with the speed the actor landed at.
pub fn clear_velocity_if_kinematic_on_ground(
    velocity: &mut Velocity,
    jump: &Jump,
    player: &Player,
    detector: &mut GroundDetector,
    grounded: bool,
)
    ensures
        final(velocity).current.x == old(velocity).current.x,
        final(velocity).max == old(velocity).max,
        final(velocity).damping == old(velocity).damping,
        final(velocity).current.y == (
        if grounded && !jump.is_jumping && !player.is_respawning {
            GROUNDED_BIAS_VELOCITY as int
        } else {
            old(velocity).current.y as int
        }),
        *final(detector) == ground_update(*old(detector), grounded, old(velocity).current.y),
        (*final(velocity), *final(detector)) == ground_step(
            *old(velocity),
            *jump,
            *player,
            *old(detector),
            grounded,
        ),
{
    let original = velocity.current.y;
    if grounded && !jump.is_jumping && !player.is_respawning {
        velocity.current.y = GROUNDED_BIAS_VELOCITY;
    }

    detector.is_on_ground.update_value(grounded);
    if !detector.is_on_ground.is_same_as_previous() {
        detector.hit_speed = original;
    }
}

/// A landing hard enough to kick up dust: the actor just switched to
/// grounded, and it came in at or below the dust threshold speed.
pub open spec fn emits_dust(d: GroundDetector) -> bool {
    &&& d.is_on_ground.current
    &&& !d.is_on_ground.same_as_previous_spec()
    &&& d.hit_speed <= DUST_HIT_SPEED_THRESHOLD
}

/// Whether this tick's landing fires the one-shot dust emission. The caller
/// owns the particle system and spawns the burst.
pub fn hit_ground(detector: &GroundDetector) -> (emit: bool)
    ensures
        emit == emits_dust(*detector),
{
    if detector.is_on_ground.current && !detector.is_on_ground.is_same_as_previous() {
        detector.hit_speed <= DUST_HIT_SPEED_THRESHOLD
    } else {
        false
    }
}

/// The landing effect is edge-triggered, not level-triggered: however the
/// detector stood before, after two grounded-state recordings without a
/// change in between, the second one cannot fire the dust emission again.
pub proof fn lemma_landing_effect_edge_triggered(
    d: GroundDetector,
    grounded: bool,
    v_y1: i64,
    v_y2: i64,
)
    ensures
        !emits_dust(ground_update(ground_update(d, grounded, v_y1), grounded, v_y2)),
{
}

/// Where the dust emitter rides: at the actor, a little above the feet.
pub fn sync_emitter_position(player_position: Vec2Fx) -> (emitter_position: Vec2Fx)
    requires
        player_position.in_range(),
    ensures
        emitter_position.x == player_position.x,
        emitter_position.y == player_position.y + DUST_EMITTER_RAISE,
{
    Vec2Fx { x: player_position.x, y: player_position.y + DUST_EMITTER_RAISE }
}

} // verus!
