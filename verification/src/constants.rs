//! Tuning constants of the simulation.
//!
//! Scalars are fixed-point milliunits (1 world unit = 1000) unless the name
//! says otherwise; timers are whole simulation ticks at 60 ticks per second.

use vstd::prelude::*;

verus! {

/// Fixed-point scale: milliunits per world unit.
pub const UNIT: i64 = 1000;

/// Simulation rate, ticks per second.
pub const TICKS_PER_SECOND: i64 = 60;

/// Upper bound on the magnitude of any coordinate, velocity or acceleration
/// component the simulation works with. Well-formed states stay within it so
/// that fixed-point arithmetic cannot overflow an `i64`.
pub const COORD_LIMIT: i64 = 1_000_000_000_000;

/// Looser bound that velocity components may reach between the input systems
/// and the integration step of one tick (the hold force can push a component
/// slightly past `COORD_LIMIT` before the clamp pulls it back).
pub const MID_TICK_LIMIT: i64 = 2_000_000_000_000;

/// Longest the player's elastic extension can get (88 units).
pub const PLAYER_MAXIMUM_STRETCH: i64 = 88_000;

/// How much the stretch grows or shrinks in one tick (5 units).
pub const PLAYER_STRETCH_SPEED: i64 = 5_000;

/// Horizontal run speed (400 units/s).
pub const PLAYER_HORIZONTAL_MOVE_SPEED: i64 = 400_000;

/// Vertical speed given on jump initiation (140 units/s).
pub const PLAYER_JUMP_SPEED: i64 = 140_000;

/// Extra upward force per tick while the jump key is held (20 units/s).
pub const JUMP_HOLD_FORCE: i64 = 20_000;

/// Length of the jump hold-force window: 0.30 s.
pub const JUMP_HOLD_TICKS: u64 = 18;

/// Time between taking a hit and reappearing at the spawn point: 1 s.
pub const PLAYER_HIT_RESPAWN_TICKS: u64 = 60;

/// Length of the pop-out-of-the-box animation after a respawn: 0.30 s.
pub const RESPAWN_ANIMATION_TICKS: u64 = 18;

/// Downward gravity added to vertical velocity every tick (15 units/s).
pub const GRAVITY_PER_TICK: i64 = 15_000;

/// `GravityDir::dir` value in normal play: full gravity.
pub const GRAVITY_DIR_NORMAL: i64 = 1000;

/// Fraction (per mille) of gravity that applies while falling mid-stretch.
pub const STRETCH_SLOW_DOWN: i64 = 200;

/// Fraction (per mille) of gravity that applies otherwise.
pub const NORMAL_SLOW_DOWN: i64 = 1000;

/// Velocity forced while grounded so the actor stays glued to slopes
/// (-40 units/s).
pub const GROUNDED_BIAS_VELOCITY: i64 = -40_000;

/// Downward speed given when the head bumps a ceiling (-10 units/s).
pub const CEILING_BOUNCE_VELOCITY: i64 = -10_000;

/// Horizontal nudge speed while sliding along a grabbed ceiling (100 units/s).
pub const CEILING_SLIDE_SPEED: i64 = 100_000;

/// Horizontal speeds smaller than this snap to zero after damping (0.1 units/s).
pub const VELOCITY_SNAP_EPSILON: i64 = 100;

/// Denominator of the per-mille damping factor.
pub const DAMPING_SCALE: i64 = 1000;

/// Default component-wise velocity bound (100, 200 units/s).
pub const DEFAULT_MAX_VELOCITY_X: i64 = 100_000;
pub const DEFAULT_MAX_VELOCITY_Y: i64 = 200_000;

/// Landing speed at or below which a landing kicks up dust (-200 units/s).
pub const DUST_HIT_SPEED_THRESHOLD: i64 = -200_000;

/// How far above the actor's feet the dust emitter rides (3 units).
pub const DUST_EMITTER_RAISE: i64 = 3_000;

/// Vertical knockback speed when a hazard connects (200 units/s).
pub const HAZARD_KNOCKBACK_SPEED: i64 = 200_000;

/// Height above the spawn point at which the actor reappears (10 units).
pub const RESPAWN_RAISE: i64 = 10_000;

/// One storey of elevator travel (24 units), scaled by the level field.
pub const ELEVATOR_TRAVEL_STEP: i64 = 24_000;

/// How long a platform carries the player before it starts to sink: 1 s.
pub const PLATFORM_DROP_TICKS: u64 = 60;

/// Pause before an off-screen platform flies back to its start: 1 s.
pub const PLATFORM_RESTART_TICKS: u64 = 60;

/// How far a sinking platform drops per tick (3 units).
pub const PLATFORM_SINK_STEP: i64 = 3_000;

/// Platforms below this height count as off-screen (-30 units).
pub const PLATFORM_OFF_SCREEN_Y: i64 = -30_000;

/// Half extents of the player's collision box (6 x 9 units).
pub const PLAYER_HALF_WIDTH: i64 = 6_000;
pub const PLAYER_HALF_HEIGHT: i64 = 9_000;

/// Half width of the upward probe used while growing the stretch (4 units).
pub const STRETCH_PROBE_HALF_WIDTH: i64 = 4_000;

/// How far a sideways wall probe is offset toward the move (0.2 units).
pub const SIDE_PROBE_OFFSET_X: i64 = 200;

/// How far a sideways wall probe is raised above the feet, beyond half the
/// stretch (0.1 units).
pub const SIDE_PROBE_RAISE: i64 = 100;

/// Extra reach of the ceiling-slide probe beyond the stretch (2 units).
pub const CEILING_SLIDE_PROBE_MARGIN: i64 = 2_000;

/// Upward sweep of the ceiling-bonk probe (2 units).
pub const BOUNCE_PROBE_RISE: i64 = 2_000;

/// Upward sweep of the stretch-growth probe (1 unit).
pub const STRETCH_PROBE_RISE: i64 = 1_000;

/// Time-of-impact bound handed to every shape cast (1.0, in per mille).
pub const CAST_MAX_TOI: i64 = 1000;

/// Grid cell size of the wall layer (24 units).
pub const WALL_GRID_SIZE: i64 = 24_000;

} // verus!
