//! The per-tick movement pipeline, in its one hard-contracted order.

use vstd::prelude::*;
use crate::constants::{GROUNDED_BIAS_VELOCITY, PLAYER_MAXIMUM_STRETCH};
use crate::horizontal::{
    ceiling_shuffle_step, horizontal_controls, horizontal_controls_on_ceiling, horizontal_step,
};
use crate::jumping::{
    bounce_off_ceiling, bounce_step, jumping_controls, jumping_step, update_can_jump_flag,
};
use crate::math::Vec2Fx;
use crate::physics::{
    apply_velocity_to_kinematic_controller, clear_velocity_if_kinematic_on_ground, emits_dust,
    ground_step, hit_ground, integration_step,
};
use crate::state::{Acceleration, GravityDir, GroundDetector, InputState, Jump, Player, Velocity};
use crate::stretching::{
    grab_ceiling, grab_step, stretching_controls, stretching_step, ungrab_ceiling, ungrab_step,
};

verus! {

/// The results of the tick's shape-cast probes, all sampled against
/// start-of-tick position and stretch. None of the systems that run before
/// a probe's consumer moves the position or the stretch, so sampling them
/// up front is equivalent to sampling each at its consumer.
#[derive(Clone, Copy, Debug)]
pub struct ProbeHits {
    /// `probes::side_probe` to the left reported a wall.
    pub blocked_left: bool,
    /// `probes::side_probe` to the right reported a wall.
    pub blocked_right: bool,
    /// `probes::ceiling_slide_probe` still finds the grabbed ceiling.
    pub ceiling_above: bool,
    /// `probes::bounce_probe` reports a ceiling just overhead.
    pub bounce_hit: bool,
    /// `probes::stretch_probe` reports the next stretch step obstructed.
    pub stretch_obstructed: bool,
}

/// What one tick of the pipeline hands back to the driver.
#[derive(Clone, Copy, Debug)]
pub struct MovementOutcome {
    /// The desired translation to submit to the kinematic controller.
    pub translation: Vec2Fx,
    /// Whether the landing-dust one-shot fires this tick.
    pub dust: bool,
}

/// The actor state the pipeline reads and writes, bundled for the
/// tick-level transition function.
#[derive(Clone, Copy, Debug)]
pub struct TickStates {
    pub player: Player,
    pub velocity: Velocity,
    pub acceleration: Acceleration,
    pub jump: Jump,
    pub gravity_dir: GravityDir,
    pub detector: GroundDetector,
}

/// The whole tick as one transition function: the leaf steps composed in
/// the pipeline's mandatory order — horizontal movement, ceiling shuffle,
/// jumping, jump gating, ceiling bonk, stretching, grab, ungrab, the single
/// integration step, then the reaction to the controller's `grounded`
/// output of the previous move.
pub open spec fn movement_tick_spec(
    s: TickStates,
    i: InputState,
    probes: ProbeHits,
    grounded: bool,
) -> (TickStates, MovementOutcome) {
    let v1 = horizontal_step(s.velocity, s.player, i, probes.blocked_left, probes.blocked_right);
    let (v2, p2) = ceiling_shuffle_step(v1, s.player, i, probes.ceiling_above);
    let (j3, vy3) = jumping_step(s.jump, v2.current.y as int, p2.is_respawning, i);
    let v3 = Velocity { current: Vec2Fx { x: v2.current.x, y: vy3 as i64 }, ..v2 };
    let j4 = Jump { can_jump: grounded, ..j3 };
    let (v5, j5) = bounce_step(v3, j4, p2, probes.bounce_hit);
    let (p6, j6, g6) = stretching_step(p2, j5, s.gravity_dir, i, probes.stretch_obstructed);
    let (p7, g7, v7, grab_translation) = grab_step(p6, g6, v5);
    let p8 = ungrab_step(p7, i);
    let (v9, a9, translation) = integration_step(v7, s.acceleration, g7, grab_translation);
    let (v10, d10) = ground_step(v9, j6, p8, s.detector, grounded);
    (
        TickStates {
            player: p8,
            velocity: v10,
            acceleration: a9,
            jump: j6,
            gravity_dir: g7,
            detector: d10,
        },
        MovementOutcome { translation, dust: emits_dust(d10) },
    )
}

/// One simulation tick of the movement pipeline: exactly the transition
/// `movement_tick_spec` describes, applied to the actor's components.
///
/// The returned translation is what the driver submits to the controller
/// for this tick's resolve.
pub fn movement_tick(
    player: &mut Player,
    velocity: &mut Velocity,
    acceleration: &mut Acceleration,
    jump: &mut Jump,
    gravity_dir: &mut GravityDir,
    detector: &mut GroundDetector,
    input: &InputState,
    probes: &ProbeHits,
    grounded: bool,
) -> (outcome: MovementOutcome)
    requires
        old(player).wf(),
        old(jump).wf(),
        old(velocity).wf(),
        old(acceleration).wf(),
        old(gravity_dir).wf(),
    ensures
        // The stretch ends the tick inside [0, PLAYER_MAXIMUM_STRETCH].
        final(player).wf(),
        0 <= final(player).stretch <= PLAYER_MAXIMUM_STRETCH,
        final(jump).wf(),
        final(velocity).wf(),
        final(gravity_dir).wf(),
        // The acceleration accumulator never carries into the next tick.
        final(acceleration).current == (Vec2Fx { x: 0, y: 0 }),
        final(acceleration).wf(),
        // The velocity is clamped by the integration step; afterwards only
        // the anti-jitter bias may replace the vertical component.
        -final(velocity).max.x <= final(velocity).current.x <= final(velocity).max.x,
        -final(velocity).max.y <= final(velocity).current.y <= final(velocity).max.y
            || final(velocity).current.y == GROUNDED_BIAS_VELOCITY,
        // The jump gate mirrors the controller's grounded output, and the
        // detector has recorded the grounded edge.
        final(jump).can_jump == grounded,
        final(detector).is_on_ground.current == grounded,
        final(detector).is_on_ground.previous == Some(old(detector).is_on_ground.current),
        // The dust one-shot fires exactly when the recorded edge is a hard
        // landing.
        outcome.dust == emits_dust(*final(detector)),
        // While the grab holds, gravity is switched off.
        final(player).grabbed_ceiling ==> final(gravity_dir).dir == 0,
        // The tick's full outcome is fixed by its inputs: the final state
        // and the returned command are the composed leaf steps.
        ({
            let (end, out) = movement_tick_spec(
                TickStates {
                    player: *old(player),
                    velocity: *old(velocity),
                    acceleration: *old(acceleration),
                    jump: *old(jump),
                    gravity_dir: *old(gravity_dir),
                    detector: *old(detector),
                },
                *input,
                *probes,
                grounded,
            );
            &&& *final(player) == end.player
            &&& *final(velocity) == end.velocity
            &&& *final(acceleration) == end.acceleration
            &&& *final(jump) == end.jump
            &&& *final(gravity_dir) == end.gravity_dir
            &&& *final(detector) == end.detector
            &&& outcome == out
        }),
{
    horizontal_controls(velocity, player, input, probes.blocked_left, probes.blocked_right);
    horizontal_controls_on_ceiling(velocity, player, input, probes.ceiling_above);
    jumping_controls(velocity, jump, player, input);
    update_can_jump_flag(jump, grounded);
    bounce_off_ceiling(velocity, jump, player, probes.bounce_hit);
    stretching_controls(player, jump, gravity_dir, input, probes.stretch_obstructed);
    let grab_translation = grab_ceiling(player, gravity_dir, velocity);
    ungrab_ceiling(player, input);

    let translation = apply_velocity_to_kinematic_controller(
        velocity,
        acceleration,
        gravity_dir,
        grab_translation,
    );

    clear_velocity_if_kinematic_on_ground(velocity, jump, player, detector, grounded);
    let dust = hit_ground(detector);

    MovementOutcome { translation, dust }
}

} // verus!
