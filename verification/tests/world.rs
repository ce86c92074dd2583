use platformer_core::constants::{
    PLATFORM_DROP_TICKS, PLATFORM_RESTART_TICKS, PLAYER_HIT_RESPAWN_TICKS, PLAYER_JUMP_SPEED,
    RESPAWN_ANIMATION_TICKS,
};
use platformer_core::entities::{
    Checkpoint, Elevator, Exit, Interaction, Level, Limb, LimbType, Pin, PinState, Platform,
    RequiredKeys,
};
use platformer_core::interactions::{
    handle_activate_checkpoint, handle_exit_door, handle_player_interaction, open_exit,
    reset_overlaps,
};
use platformer_core::math::Vec2Fx;
use platformer_core::pins::{handle_pin, pickup_pin, reset_level_after_restart, restart_pin};
use platformer_core::platforms::{
    activate_platforms, elevator_handle, handle_platform_dropping, handle_platform_off_screen,
};
use platformer_core::progress::GameState;
use platformer_core::respawn::{
    handle_player_hurt_collision, respawn_animation, respawn_player, restart_player_pos,
};
use platformer_core::state::{InputState, Jump, Player, Velocity, WithPrevious};
use platformer_core::timer::TickTimer;

#[test]
fn with_previous_tracks_edges() {
    let mut w: WithPrevious<bool> = WithPrevious::new(false);
    assert!(!w.is_same_as_previous());

    w.update_value(false);
    assert!(w.is_same_as_previous());

    w.update_value(true);
    assert!(!w.is_same_as_previous());

    w.update_value(true);
    assert!(w.is_same_as_previous());
}

#[test]
fn tick_timer_counts_down_once() {
    let mut t = TickTimer::from_ticks(3);
    assert!(!t.finished());
    t.tick();
    t.tick();
    assert!(!t.just_finished());
    t.tick();
    assert!(t.finished());
    assert!(t.just_finished());
    t.tick();
    assert!(t.finished());
    assert!(!t.just_finished());
}

#[test]
fn tick_timer_percent_left() {
    let mut t = TickTimer::from_ticks(18);
    assert_eq!(t.percent_left_milli(), 1000);
    t.tick();
    assert_eq!(t.percent_left_milli(), 944);
    for _ in 0..17 {
        t.tick();
    }
    assert_eq!(t.percent_left_milli(), 0);
}

#[test]
fn overlaps_reset_every_tick() {
    let mut sensors = vec![
        Interaction { is_overlapping: true, disabled: false },
        Interaction { is_overlapping: true, disabled: true },
    ];
    reset_overlaps(&mut sensors);
    assert!(!sensors[0].is_overlapping);
    assert!(!sensors[1].is_overlapping);
    assert!(sensors[1].disabled);
}

#[test]
fn swept_hit_flags_one_sensor() {
    let mut sensors = vec![Interaction::default(), Interaction::default()];
    handle_player_interaction(&mut sensors, Some(1));
    assert!(!sensors[0].is_overlapping);
    assert!(sensors[1].is_overlapping);
}

#[test]
fn disabled_sensor_is_never_flagged() {
    let mut sensors = vec![Interaction { is_overlapping: false, disabled: true }];
    handle_player_interaction(&mut sensors, Some(0));
    assert!(!sensors[0].is_overlapping);
}

#[test]
fn missed_sweep_changes_nothing() {
    let mut sensors = vec![Interaction::default()];
    handle_player_interaction(&mut sensors, None);
    assert!(!sensors[0].is_overlapping);
    handle_player_interaction(&mut sensors, Some(5));
    assert!(!sensors[0].is_overlapping);
}

#[test]
fn at_most_one_checkpoint_active() {
    // Activating one checkpoint deactivates every other in the same step.
    let mut checkpoints = vec![Checkpoint::default(), Checkpoint::default(), Checkpoint::default()];

    handle_activate_checkpoint(&mut checkpoints, Some(0));
    assert_eq!(
        checkpoints.iter().filter(|c| c.is_active).count(),
        1
    );
    assert!(checkpoints[0].is_active);

    handle_activate_checkpoint(&mut checkpoints, Some(2));
    assert_eq!(
        checkpoints.iter().filter(|c| c.is_active).count(),
        1
    );
    assert!(!checkpoints[0].is_active);
    assert!(checkpoints[2].is_active);
}

#[test]
fn touching_active_checkpoint_changes_nothing() {
    let mut checkpoints = vec![
        Checkpoint { is_active: true },
        Checkpoint::default(),
    ];
    handle_activate_checkpoint(&mut checkpoints, Some(0));
    assert!(checkpoints[0].is_active);
    assert!(!checkpoints[1].is_active);
}

#[test]
fn exit_opens_on_full_pin_count() {
    let mut exits = vec![Exit::default()];
    let mut game = GameState::default();
    game.picked_keys = 0;
    game.required_keys = 2;

    open_exit(&mut exits, &game);
    assert!(!exits[0].is_open);

    game.picked_keys = 2;
    open_exit(&mut exits, &game);
    assert!(exits[0].is_open);
}

#[test]
fn exit_door_consumes_exact_pin_count() {
    let mut game = GameState::default();
    game.picked_keys = 3;
    let overlapped = Interaction { is_overlapping: true, disabled: false };

    // Wrong count: no transition.
    assert!(!handle_exit_door(&overlapped, &RequiredKeys(2), &mut game));
    assert_eq!(game.picked_keys, 3);

    // Not overlapping: no transition.
    assert!(!handle_exit_door(&Interaction::default(), &RequiredKeys(3), &mut game));

    // Overlapping with the exact count: transition, pins consumed.
    assert!(handle_exit_door(&overlapped, &RequiredKeys(3), &mut game));
    assert_eq!(game.picked_keys, 0);
}

#[test]
fn pin_pickup_and_animation_edge() {
    let mut pin = Pin::at(Vec2Fx { x: 10_000, y: 20_000 });
    let mut game = GameState::default();

    assert!(pickup_pin(&mut pin, true, &mut game));
    assert_eq!(game.picked_keys, 1);
    assert!(matches!(pin.state.current, PinState::Picked));

    // The pickup edge plays the animation exactly once.
    assert!(handle_pin(&mut pin));
    assert!(pin.picked);
    assert!(!handle_pin(&mut pin));

    // A picked pin cannot be picked again.
    assert!(!pickup_pin(&mut pin, true, &mut game));
    assert_eq!(game.picked_keys, 1);
}

#[test]
fn level_reset_restores_pins_and_exits() {
    let mut player = Player::default();
    player.respawning_animation_timer = TickTimer::from_ticks(1);
    let mut velocity = Velocity::default();
    // Run the pop-out to its end so the reset edge fires.
    respawn_animation(&mut player, &mut velocity);

    let mut pin = Pin::at(Vec2Fx { x: 1_000, y: 2_000 });
    let mut game = GameState::default();
    pickup_pin(&mut pin, true, &mut game);
    handle_pin(&mut pin);
    let mut pins = vec![pin];
    let mut exits = vec![Exit { is_open: true }];

    assert!(reset_level_after_restart(&player, &mut pins, &mut exits, &mut game));
    assert_eq!(game.picked_keys, 0);
    assert!(!exits[0].is_open);
    assert!(matches!(pins[0].state.current, PinState::Idle));

    // The reset edge then restores the pin's rest position and pickup.
    let mut position = Vec2Fx { x: 999, y: 999 };
    let mut pin = pins[0];
    assert!(restart_pin(&mut pin, &mut position));
    assert_eq!(position, Vec2Fx { x: 1_000, y: 2_000 });
    assert!(!pin.picked);
    assert!(!restart_pin(&mut pin, &mut position));
}

#[test]
fn platform_activates_once_and_drops_after_delay() {
    let mut platform = Platform::at(Vec2Fx { x: 0, y: 0 });

    assert!(!activate_platforms(&mut platform, false));
    assert!(activate_platforms(&mut platform, true));
    assert!(platform.is_stepped_on);
    // Already stepped on: no second activation.
    assert!(!activate_platforms(&mut platform, true));

    let mut y: i64 = 0;
    for _ in 0..PLATFORM_DROP_TICKS - 1 {
        handle_platform_dropping(&mut platform, &mut y);
    }
    assert_eq!(y, 0);
    // The tick the drop delay elapses, the platform starts sinking.
    handle_platform_dropping(&mut platform, &mut y);
    assert_eq!(y, -3_000);
    handle_platform_dropping(&mut platform, &mut y);
    assert_eq!(y, -6_000);
}

#[test]
fn platform_off_screen_restores_after_delay() {
    let mut platform = Platform::at(Vec2Fx { x: 0, y: 50_000 });
    activate_platforms(&mut platform, true);

    // Still on screen: nothing happens.
    assert!(!handle_platform_off_screen(&mut platform, Vec2Fx { x: 0, y: -29_000 }));
    assert!(platform.is_stepped_on);

    // Below the screen: the stepped-on flag drops and the delay starts.
    let below = Vec2Fx { x: 0, y: -31_000 };
    assert!(!handle_platform_off_screen(&mut platform, below));
    assert!(!platform.is_stepped_on);

    // The first below-screen call already consumed one tick of the delay.
    let mut restored = false;
    for _ in 0..PLATFORM_RESTART_TICKS - 1 {
        assert!(!restored);
        restored = handle_platform_off_screen(&mut platform, below);
    }
    assert!(restored);
    // The restore command fires only once.
    assert!(!handle_platform_off_screen(&mut platform, below));
}

#[test]
fn elevator_reverses_at_upper_travel_bound() {
    // Scenario: the elevator reaches its upper bound and turns around the
    // very next tick, overshooting by no more than one tick's movement.
    let mut elevator = Elevator {
        initial_position: Vec2Fx { x: 0, y: 0 },
        direction: Vec2Fx { x: 0, y: 300 },
    };
    let level = Level(2);
    let upper: i64 = 2 * 24_000;
    let mut position = Vec2Fx { x: 0, y: upper - 100 };

    elevator_handle(&mut position, &mut elevator, &level);
    assert_eq!(position.y, upper + 200);
    assert!(position.y <= upper + 300);
    assert_eq!(elevator.direction.y, -300);

    elevator_handle(&mut position, &mut elevator, &level);
    assert_eq!(position.y, upper - 100);
    assert_eq!(elevator.direction.y, -300);
}

#[test]
fn elevator_reverses_at_lower_bound_and_negative_levels_descend() {
    let mut elevator = Elevator {
        initial_position: Vec2Fx { x: 0, y: 0 },
        direction: Vec2Fx { x: 0, y: -300 },
    };
    let level = Level(-1);
    let lower: i64 = -24_000;
    let mut position = Vec2Fx { x: 0, y: lower + 100 };

    elevator_handle(&mut position, &mut elevator, &level);
    assert_eq!(position.y, lower - 200);
    assert_eq!(elevator.direction.y, 300);
}

#[test]
fn disabled_elevator_stays_put() {
    let mut elevator = Elevator {
        initial_position: Vec2Fx { x: 0, y: 0 },
        direction: Vec2Fx { x: 0, y: 300 },
    };
    let mut position = Vec2Fx { x: 5, y: 7 };
    elevator_handle(&mut position, &mut elevator, &Level(0));
    assert_eq!(position, Vec2Fx { x: 5, y: 7 });
    assert_eq!(elevator.direction.y, 300);
}

#[test]
fn hazard_hit_starts_respawn_and_knocks_back() {
    let mut player = Player::default();
    let mut velocity = Velocity::default();

    assert!(handle_player_hurt_collision(&mut player, &mut velocity, true, true));
    assert!(player.is_respawning);
    assert_eq!(player.respawn_timer.remaining, PLAYER_HIT_RESPAWN_TICKS);
    assert_eq!(velocity.current.y, 200_000);
    assert_eq!(velocity.current.x, 200_000);
}

#[test]
fn hazard_hit_during_invulnerability_is_ignored() {
    // Scenario: the actor overlaps a hazard while already respawning.
    let mut player = Player::default();
    let mut velocity = Velocity::default();
    handle_player_hurt_collision(&mut player, &mut velocity, true, true);
    let timer_after_first = player.respawn_timer;
    velocity.current.x = -1;

    // A second hit within the window must not restart the countdown.
    assert!(!handle_player_hurt_collision(&mut player, &mut velocity, false, true));
    assert_eq!(player.respawn_timer, timer_after_first);
    assert_eq!(velocity.current.x, -1);
    assert!(player.is_respawning);
}

#[test]
fn respawn_returns_actor_to_spawn_point() {
    let mut player = Player::default();
    let mut velocity = Velocity::default();
    handle_player_hurt_collision(&mut player, &mut velocity, false, true);
    assert_eq!(velocity.current.x, -200_000);

    let mut jump = Jump::default();
    let mut position = Vec2Fx { x: 77_000, y: -5_000 };
    let spawn = Some(Vec2Fx { x: 4_000, y: 6_000 });

    for _ in 0..PLAYER_HIT_RESPAWN_TICKS - 1 {
        respawn_player(&mut player, &mut velocity, &mut jump, &mut position, spawn);
    }
    assert_eq!(position.x, 77_000);

    // The tick the countdown elapses: teleport, launch, animation window.
    respawn_player(&mut player, &mut velocity, &mut jump, &mut position, spawn);
    assert_eq!(position, Vec2Fx { x: 4_000, y: 16_000 });
    assert_eq!(velocity.current.y, PLAYER_JUMP_SPEED);
    assert!(jump.is_jumping);
    assert_eq!(player.respawning_animation_timer.remaining, RESPAWN_ANIMATION_TICKS);

    // The pop-out window then counts down and ends the suspension.
    let mut finished = false;
    for _ in 0..RESPAWN_ANIMATION_TICKS {
        finished = respawn_animation(&mut player, &mut velocity);
    }
    assert!(finished);
    assert!(!player.is_respawning);
}

#[test]
fn restart_key_teleports_to_spawn() {
    let mut position = Vec2Fx { x: 50_000, y: 50_000 };
    let spawn = Some(Vec2Fx { x: 1_000, y: 2_000 });
    let mut input = InputState::released();

    restart_player_pos(&mut position, spawn, &input);
    assert_eq!(position.x, 50_000);

    input.restart_just_pressed = true;
    restart_player_pos(&mut position, spawn, &input);
    assert_eq!(position, Vec2Fx { x: 1_000, y: 2_000 });
}

#[test]
fn game_state_unlocks_levels_monotonically() {
    let mut game = GameState::default();
    assert_eq!(game.unlocked_levels, 1);

    game.current_level = 3;
    game.update_unlocked_levels();
    assert_eq!(game.unlocked_levels, 3);

    game.current_level = 2;
    game.update_unlocked_levels();
    assert_eq!(game.unlocked_levels, 3);
}

#[test]
fn limbs_remember_their_kind() {
    let limb = Limb::new(LimbType::Extension);
    assert!(matches!(limb.limb_type, LimbType::Extension));
}
