use platformer_core::constants::{
    DEFAULT_MAX_VELOCITY_X, DEFAULT_MAX_VELOCITY_Y, GROUNDED_BIAS_VELOCITY, JUMP_HOLD_TICKS,
    PLAYER_HORIZONTAL_MOVE_SPEED, PLAYER_JUMP_SPEED, PLAYER_MAXIMUM_STRETCH, PLAYER_STRETCH_SPEED,
};
use platformer_core::horizontal::{horizontal_controls, horizontal_controls_on_ceiling};
use platformer_core::jumping::{bounce_off_ceiling, jumping_controls, update_can_jump_flag};
use platformer_core::math::Vec2Fx;
use platformer_core::physics::{
    apply_velocity_to_kinematic_controller, clear_velocity_if_kinematic_on_ground, hit_ground,
    sync_emitter_position,
};
use platformer_core::state::{Acceleration, GravityDir, GroundDetector, InputState, Jump, Player, Velocity};
use platformer_core::stretching::{grab_ceiling, stretching_controls, ungrab_ceiling};
use platformer_core::tick::{movement_tick, ProbeHits};

fn no_input() -> InputState {
    InputState::released()
}

fn no_hits() -> ProbeHits {
    ProbeHits {
        blocked_left: false,
        blocked_right: false,
        ceiling_above: false,
        bounce_hit: false,
        stretch_obstructed: false,
    }
}

fn normal_gravity() -> GravityDir {
    GravityDir { dir: 1000, slow_down: 1000 }
}

#[test]
fn horizontal_sets_run_speed() {
    let mut velocity = Velocity::default();
    let player = Player::default();
    let mut input = no_input();
    input.right_pressed = true;

    horizontal_controls(&mut velocity, &player, &input, false, false);
    assert_eq!(velocity.current.x, PLAYER_HORIZONTAL_MOVE_SPEED);

    input.right_pressed = false;
    input.left_pressed = true;
    horizontal_controls(&mut velocity, &player, &input, false, false);
    assert_eq!(velocity.current.x, -PLAYER_HORIZONTAL_MOVE_SPEED);
}

#[test]
fn horizontal_blocked_by_wall_probe() {
    let mut velocity = Velocity::default();
    velocity.current.x = 77_000;
    let player = Player::default();
    let mut input = no_input();
    input.left_pressed = true;

    horizontal_controls(&mut velocity, &player, &input, true, false);
    assert_eq!(velocity.current.x, 0);
}

#[test]
fn horizontal_skips_respawning_actor() {
    let mut velocity = Velocity::default();
    velocity.current.x = 12_345;
    let mut player = Player::default();
    player.is_respawning = true;
    let mut input = no_input();
    input.right_pressed = true;

    horizontal_controls(&mut velocity, &player, &input, false, false);
    assert_eq!(velocity.current.x, 12_345);
}

#[test]
fn ceiling_shuffle_nudges_and_releases() {
    let mut velocity = Velocity::default();
    let mut player = Player::default();
    player.grabbed_ceiling = true;
    let mut input = no_input();
    input.right_pressed = true;

    // Ceiling still there: slow nudge, grab kept.
    horizontal_controls_on_ceiling(&mut velocity, &mut player, &input, true);
    assert_eq!(velocity.current.x, 100_000);
    assert!(player.grabbed_ceiling);

    // Ceiling gone: grab dropped, no horizontal motion.
    horizontal_controls_on_ceiling(&mut velocity, &mut player, &input, false);
    assert_eq!(velocity.current.x, 0);
    assert!(!player.grabbed_ceiling);
}

#[test]
fn jump_starts_with_jump_speed() {
    let mut velocity = Velocity::default();
    let mut jump = Jump::default();
    jump.can_jump = true;
    let player = Player::default();
    let mut input = no_input();
    input.jump_pressed = true;
    input.jump_just_pressed = true;

    jumping_controls(&mut velocity, &mut jump, &player, &input);
    assert_eq!(velocity.current.y, PLAYER_JUMP_SPEED);
    assert!(jump.is_jumping);
    assert_eq!(jump.jump_timer.remaining, JUMP_HOLD_TICKS);
}

#[test]
fn jump_refused_without_ground() {
    let mut velocity = Velocity::default();
    let mut jump = Jump::default();
    let player = Player::default();
    let mut input = no_input();
    input.jump_just_pressed = true;

    jumping_controls(&mut velocity, &mut jump, &player, &input);
    assert_eq!(velocity.current.y, 0);
    assert!(!jump.is_jumping);
}

#[test]
fn jump_refused_while_respawning() {
    let mut velocity = Velocity::default();
    let mut jump = Jump::default();
    jump.can_jump = true;
    let mut player = Player::default();
    player.is_respawning = true;
    let mut input = no_input();
    input.jump_just_pressed = true;

    jumping_controls(&mut velocity, &mut jump, &player, &input);
    assert_eq!(velocity.current.y, 0);
    assert!(!jump.is_jumping);
}

#[test]
fn hold_force_decays_linearly() {
    let mut velocity = Velocity::default();
    let mut jump = Jump::default();
    jump.can_jump = true;
    let player = Player::default();

    let mut press = no_input();
    press.jump_pressed = true;
    press.jump_just_pressed = true;
    jumping_controls(&mut velocity, &mut jump, &player, &press);

    let mut hold = no_input();
    hold.jump_pressed = true;
    jumping_controls(&mut velocity, &mut jump, &player, &hold);

    // One held tick: 17 of 18 ticks left -> 944 per mille -> 18_880 extra.
    assert_eq!(velocity.current.y, PLAYER_JUMP_SPEED + 18_880);
}

#[test]
fn holding_past_timer_stops_adding_force() {
    // Scenario: the jump key is held longer than the hold window.
    let mut velocity = Velocity::default();
    let mut jump = Jump::default();
    jump.can_jump = true;
    let player = Player::default();

    let mut press = no_input();
    press.jump_pressed = true;
    press.jump_just_pressed = true;
    jumping_controls(&mut velocity, &mut jump, &player, &press);

    let mut hold = no_input();
    hold.jump_pressed = true;
    for _ in 0..JUMP_HOLD_TICKS {
        jumping_controls(&mut velocity, &mut jump, &player, &hold);
    }

    // The window is exhausted: the holding phase has ended even though the
    // key is still down, and no further force is added.
    assert!(!jump.is_jumping);
    assert_eq!(jump.jump_timer.remaining, 0);
    let vy_after_window = velocity.current.y;
    jumping_controls(&mut velocity, &mut jump, &player, &hold);
    assert_eq!(velocity.current.y, vy_after_window);
    assert!(!jump.is_jumping);
}

#[test]
fn releasing_early_ends_holding_phase() {
    let mut velocity = Velocity::default();
    let mut jump = Jump::default();
    jump.can_jump = true;
    let player = Player::default();

    let mut press = no_input();
    press.jump_pressed = true;
    press.jump_just_pressed = true;
    jumping_controls(&mut velocity, &mut jump, &player, &press);
    let vy = velocity.current.y;

    let mut release = no_input();
    release.jump_just_released = true;
    jumping_controls(&mut velocity, &mut jump, &player, &release);
    assert!(!jump.is_jumping);
    // The release does not touch the velocity itself.
    assert_eq!(velocity.current.y, vy);
}

#[test]
fn can_jump_mirrors_grounded_output() {
    let mut jump = Jump::default();
    update_can_jump_flag(&mut jump, true);
    assert!(jump.can_jump);
    update_can_jump_flag(&mut jump, false);
    assert!(!jump.can_jump);
}

#[test]
fn ceiling_bonk_cancels_jump() {
    let mut velocity = Velocity::default();
    velocity.current.y = 120_000;
    let mut jump = Jump::default();
    jump.is_jumping = true;
    let player = Player::default();

    bounce_off_ceiling(&mut velocity, &mut jump, &player, true);
    assert_eq!(velocity.current.y, -10_000);
    assert!(!jump.is_jumping);
}

#[test]
fn ceiling_bonk_spares_grabbed_actor() {
    let mut velocity = Velocity::default();
    velocity.current.y = 120_000;
    let mut jump = Jump::default();
    jump.is_jumping = true;
    let mut player = Player::default();
    player.grabbed_ceiling = true;

    bounce_off_ceiling(&mut velocity, &mut jump, &player, true);
    assert_eq!(velocity.current.y, 120_000);
    assert!(jump.is_jumping);
}

#[test]
fn stretch_grows_and_shrinks_with_the_key() {
    let mut player = Player::default();
    let mut jump = Jump::default();
    let mut gravity = normal_gravity();
    let mut held = no_input();
    held.stretch_pressed = true;

    stretching_controls(&mut player, &mut jump, &mut gravity, &held, false);
    assert_eq!(player.stretch, PLAYER_STRETCH_SPEED);
    assert_eq!(gravity.slow_down, 200);

    stretching_controls(&mut player, &mut jump, &mut gravity, &no_input(), false);
    assert_eq!(player.stretch, 0);
    assert_eq!(gravity.slow_down, 1000);

    // Shrinking at zero stays at zero.
    stretching_controls(&mut player, &mut jump, &mut gravity, &no_input(), false);
    assert_eq!(player.stretch, 0);
}

#[test]
fn stretch_stays_clamped_at_maximum() {
    // Scenario: the stretch key is held while already fully extended.
    let mut player = Player::default();
    player.stretch = PLAYER_MAXIMUM_STRETCH;
    let mut jump = Jump::default();
    let mut gravity = normal_gravity();
    let mut held = no_input();
    held.stretch_pressed = true;

    for _ in 0..5 {
        stretching_controls(&mut player, &mut jump, &mut gravity, &held, false);
        assert_eq!(player.stretch, PLAYER_MAXIMUM_STRETCH);
    }
}

#[test]
fn stretch_never_leaves_its_range() {
    let mut player = Player::default();
    let mut jump = Jump::default();
    let mut gravity = normal_gravity();
    let mut held = no_input();
    held.stretch_pressed = true;

    for _ in 0..30 {
        stretching_controls(&mut player, &mut jump, &mut gravity, &held, false);
        assert!(0 <= player.stretch && player.stretch <= PLAYER_MAXIMUM_STRETCH);
    }
    // 88 is not a multiple of the growth step: the last step is clamped.
    assert_eq!(player.stretch, PLAYER_MAXIMUM_STRETCH);

    for _ in 0..30 {
        stretching_controls(&mut player, &mut jump, &mut gravity, &no_input(), false);
        assert!(0 <= player.stretch && player.stretch <= PLAYER_MAXIMUM_STRETCH);
    }
    assert_eq!(player.stretch, 0);
}

#[test]
fn obstructed_growth_becomes_ceiling_grab() {
    let mut player = Player::default();
    player.stretch = 20_000;
    let mut jump = Jump::default();
    jump.is_jumping = true;
    let mut gravity = normal_gravity();
    let mut held = no_input();
    held.stretch_pressed = true;

    stretching_controls(&mut player, &mut jump, &mut gravity, &held, true);
    assert!(player.grabbed_ceiling);
    assert!(!jump.is_jumping);
    assert_eq!(player.stretch, 20_000);
}

#[test]
fn grab_suspends_and_winches_upward() {
    let mut player = Player::default();
    player.grabbed_ceiling = true;
    player.stretch = 8_000;
    let mut gravity = normal_gravity();
    let mut velocity = Velocity::default();
    velocity.current.y = -50_000;

    let translation = grab_ceiling(&mut player, &mut gravity, &mut velocity);
    assert_eq!(gravity.dir, 0);
    assert_eq!(translation, Some(Vec2Fx { x: 0, y: PLAYER_STRETCH_SPEED }));
    assert_eq!(player.stretch, 3_000);
    assert_eq!(velocity.current.y, 0);

    // The next drain would go below zero: it stops at zero.
    let translation = grab_ceiling(&mut player, &mut gravity, &mut velocity);
    assert_eq!(translation, Some(Vec2Fx { x: 0, y: PLAYER_STRETCH_SPEED }));
    assert_eq!(player.stretch, 0);

    // Drained: the actor hangs still.
    let translation = grab_ceiling(&mut player, &mut gravity, &mut velocity);
    assert_eq!(translation, None);
    assert_eq!(gravity.dir, 0);
}

#[test]
fn jump_key_releases_grab() {
    let mut player = Player::default();
    player.grabbed_ceiling = true;
    let mut input = no_input();
    input.jump_just_pressed = true;

    ungrab_ceiling(&mut player, &input);
    assert!(!player.grabbed_ceiling);
}

#[test]
fn integration_clamps_velocity_componentwise() {
    // Velocity obeys the component-wise maximum after integration.
    let mut velocity = Velocity::default();
    velocity.current = Vec2Fx { x: 500_000, y: 500_000 };
    let mut acceleration = Acceleration::default();
    acceleration.current = Vec2Fx { x: 10_000, y: 0 };
    let gravity = normal_gravity();

    let translation =
        apply_velocity_to_kinematic_controller(&mut velocity, &mut acceleration, &gravity, None);

    assert_eq!(velocity.current.x, DEFAULT_MAX_VELOCITY_X);
    // Rising: full gravity, then clamped.
    assert_eq!(velocity.current.y, DEFAULT_MAX_VELOCITY_Y);
    assert_eq!(translation, Vec2Fx { x: DEFAULT_MAX_VELOCITY_X / 60, y: DEFAULT_MAX_VELOCITY_Y / 60 });
}

#[test]
fn integration_clears_acceleration() {
    // The acceleration accumulator is zero after every integration step.
    let mut velocity = Velocity::default();
    let mut acceleration = Acceleration::default();
    acceleration.current = Vec2Fx { x: 9_000, y: -7_000 };
    let gravity = normal_gravity();

    apply_velocity_to_kinematic_controller(&mut velocity, &mut acceleration, &gravity, None);
    assert_eq!(acceleration.current, Vec2Fx { x: 0, y: 0 });
}

#[test]
fn gravity_softens_only_while_falling() {
    let gravity = GravityDir { dir: 1000, slow_down: 200 };

    // Falling: the slow-down applies (15 * 0.2 = 3 units of pull).
    let mut velocity = Velocity::default();
    velocity.current.y = -10_000;
    let mut acceleration = Acceleration::default();
    apply_velocity_to_kinematic_controller(&mut velocity, &mut acceleration, &gravity, None);
    assert_eq!(velocity.current.y, -13_000);

    // Rising: the full pull.
    let mut velocity = Velocity::default();
    velocity.current.y = 50_000;
    let mut acceleration = Acceleration::default();
    apply_velocity_to_kinematic_controller(&mut velocity, &mut acceleration, &gravity, None);
    assert_eq!(velocity.current.y, 35_000);
}

#[test]
fn integration_damps_and_snaps_horizontal_velocity() {
    let mut velocity = Velocity::default();
    velocity.current.x = 10_000;
    velocity.damping = 500;
    let mut acceleration = Acceleration::default();
    let gravity = GravityDir { dir: 0, slow_down: 1000 };

    apply_velocity_to_kinematic_controller(&mut velocity, &mut acceleration, &gravity, None);
    assert_eq!(velocity.current.x, 5_000);

    // Below a tenth of a unit the speed snaps to zero.
    let mut velocity = Velocity::default();
    velocity.current.x = 150;
    velocity.damping = 500;
    let mut acceleration = Acceleration::default();
    apply_velocity_to_kinematic_controller(&mut velocity, &mut acceleration, &gravity, None);
    assert_eq!(velocity.current.x, 0);
}

#[test]
fn grab_translation_preempts_velocity_translation() {
    let mut velocity = Velocity::default();
    velocity.current = Vec2Fx { x: 60_000, y: 60_000 };
    let mut acceleration = Acceleration::default();
    let gravity = GravityDir { dir: 0, slow_down: 1000 };
    let grab = Some(Vec2Fx { x: 0, y: 5_000 });

    let translation =
        apply_velocity_to_kinematic_controller(&mut velocity, &mut acceleration, &gravity, grab);
    assert_eq!(translation, Vec2Fx { x: 0, y: 5_000 });
}

#[test]
fn grounded_actor_gets_bias_velocity() {
    let mut velocity = Velocity::default();
    velocity.current.y = -120_000;
    let jump = Jump::default();
    let player = Player::default();
    let mut detector = GroundDetector::default();

    clear_velocity_if_kinematic_on_ground(&mut velocity, &jump, &player, &mut detector, true);
    assert_eq!(velocity.current.y, GROUNDED_BIAS_VELOCITY);
    assert!(detector.is_on_ground.current);
}

#[test]
fn hard_landing_fires_dust_exactly_once() {
    // Scenario: airborne at -250 units/s, then the floor arrives.
    let mut velocity = Velocity::default();
    velocity.current.y = -250_000;
    let jump = Jump::default();
    let player = Player::default();
    let mut detector = GroundDetector::default();

    // Airborne tick: no edge, no dust.
    clear_velocity_if_kinematic_on_ground(&mut velocity, &jump, &player, &mut detector, false);
    assert!(!hit_ground(&detector));

    // Landing tick: the pre-bias speed is captured and the dust fires.
    clear_velocity_if_kinematic_on_ground(&mut velocity, &jump, &player, &mut detector, true);
    assert_eq!(detector.hit_speed, -250_000);
    assert!(hit_ground(&detector));

    // Still grounded one tick later: the edge is gone, no second burst.
    clear_velocity_if_kinematic_on_ground(&mut velocity, &jump, &player, &mut detector, true);
    assert!(!hit_ground(&detector));
}

#[test]
fn landing_effect_is_edge_triggered_not_level_triggered() {
    // Running the detector twice with no grounded-state change in between
    // must not re-trigger the landing effect.
    let mut velocity = Velocity::default();
    velocity.current.y = -250_000;
    let jump = Jump::default();
    let player = Player::default();
    let mut detector = GroundDetector::default();

    clear_velocity_if_kinematic_on_ground(&mut velocity, &jump, &player, &mut detector, false);
    clear_velocity_if_kinematic_on_ground(&mut velocity, &jump, &player, &mut detector, true);
    assert!(hit_ground(&detector));
    // Two more recordings of the same grounded state: never again.
    clear_velocity_if_kinematic_on_ground(&mut velocity, &jump, &player, &mut detector, true);
    assert!(!hit_ground(&detector));
    clear_velocity_if_kinematic_on_ground(&mut velocity, &jump, &player, &mut detector, true);
    assert!(!hit_ground(&detector));
}

#[test]
fn soft_landing_kicks_up_no_dust() {
    let mut velocity = Velocity::default();
    velocity.current.y = -199_999;
    let jump = Jump::default();
    let player = Player::default();
    let mut detector = GroundDetector::default();

    clear_velocity_if_kinematic_on_ground(&mut velocity, &jump, &player, &mut detector, false);
    clear_velocity_if_kinematic_on_ground(&mut velocity, &jump, &player, &mut detector, true);
    assert!(!hit_ground(&detector));
}

#[test]
fn threshold_landing_still_fires() {
    let mut velocity = Velocity::default();
    velocity.current.y = -200_000;
    let jump = Jump::default();
    let player = Player::default();
    let mut detector = GroundDetector::default();

    clear_velocity_if_kinematic_on_ground(&mut velocity, &jump, &player, &mut detector, false);
    clear_velocity_if_kinematic_on_ground(&mut velocity, &jump, &player, &mut detector, true);
    assert!(hit_ground(&detector));
}

#[test]
fn emitter_rides_above_the_actor() {
    let position = Vec2Fx { x: 7_000, y: 11_000 };
    let emitter = sync_emitter_position(position);
    assert_eq!(emitter, Vec2Fx { x: 7_000, y: 14_000 });
}

#[test]
fn full_tick_walks_right_on_open_floor() {
    let mut player = Player::default();
    let mut velocity = Velocity::default();
    let mut acceleration = Acceleration::default();
    let mut jump = Jump::default();
    let mut gravity = normal_gravity();
    let mut detector = GroundDetector::default();
    let mut input = no_input();
    input.right_pressed = true;

    let outcome = movement_tick(
        &mut player,
        &mut velocity,
        &mut acceleration,
        &mut jump,
        &mut gravity,
        &mut detector,
        &input,
        &no_hits(),
        true,
    );

    // Run speed is clamped to the maximum, then divided into one tick.
    assert_eq!(outcome.translation.x, DEFAULT_MAX_VELOCITY_X / 60);
    assert_eq!(velocity.current.x, DEFAULT_MAX_VELOCITY_X);
    // Grounded, not jumping: the anti-jitter bias.
    assert_eq!(velocity.current.y, GROUNDED_BIAS_VELOCITY);
    assert!(jump.can_jump);
    assert_eq!(acceleration.current, Vec2Fx { x: 0, y: 0 });
    assert!(!outcome.dust);
}

#[test]
fn full_tick_keeps_invariants_over_many_ticks() {
    let mut player = Player::default();
    let mut velocity = Velocity::default();
    let mut acceleration = Acceleration::default();
    let mut jump = Jump::default();
    let mut gravity = normal_gravity();
    let mut detector = GroundDetector::default();

    for t in 0..120u64 {
        let mut input = no_input();
        input.right_pressed = t % 3 == 0;
        input.stretch_pressed = t % 2 == 0;
        input.jump_pressed = t % 5 < 2;
        input.jump_just_pressed = t % 5 == 0;
        input.jump_just_released = t % 5 == 2;
        let probes = ProbeHits {
            blocked_left: false,
            blocked_right: t % 7 == 0,
            ceiling_above: t % 4 == 0,
            bounce_hit: t % 11 == 0,
            stretch_obstructed: t % 13 == 0,
        };
        movement_tick(
            &mut player,
            &mut velocity,
            &mut acceleration,
            &mut jump,
            &mut gravity,
            &mut detector,
            &input,
            &probes,
            t % 6 != 0,
        );

        assert!(0 <= player.stretch && player.stretch <= PLAYER_MAXIMUM_STRETCH);
        assert_eq!(acceleration.current, Vec2Fx { x: 0, y: 0 });
        assert!(velocity.current.x.abs() <= velocity.max.x);
        assert!(
            velocity.current.y.abs() <= velocity.max.y
                || velocity.current.y == GROUNDED_BIAS_VELOCITY
        );
    }
}
