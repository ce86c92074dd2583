//! Core simulation of a 2D platformer with an elastic "stretch" mechanic.
//!
//! The library is the deterministic, fixed-tick movement pipeline of the game:
//! horizontal movement, variable-height jumping, the stretch/ceiling-grab state
//! machine, gravity and velocity integration, ground-contact edge detection,
//! platform and elevator kinematics, and the checkpoint/hazard/pickup
//! interaction layer.
//!
//! All quantities are fixed-point integers in *milliunits*: one world unit is
//! 1000, so a velocity of 400 units/s is stored as `400_000`. Timers count
//! whole simulation ticks at 60 ticks per second.
//!
//! The physics engine, renderer, input device and level loader are external
//! collaborators. They are represented by plain values: shape-cast results
//! arrive as booleans, the kinematic controller's resolved output arrives as a
//! grounded flag, and the desired per-tick translation is returned to the
//! caller, who submits it to the controller. The driver must run the systems
//! in this order, once per tick:
//!
//! 1. `horizontal_controls`, `horizontal_controls_on_ceiling`,
//!    `jumping_controls`, `update_can_jump_flag`, `bounce_off_ceiling`,
//!    `stretching_controls`, `grab_ceiling`, `ungrab_ceiling`
//! 2. `apply_velocity_to_kinematic_controller` (integration; exactly once),
//!    whose translation goes to the controller for this tick's resolve
//! 3. `clear_velocity_if_kinematic_on_ground`, `hit_ground`, the
//!    platform/elevator systems and the interaction systems.
//!
//! The controller resolves asynchronously to the pipeline: the `grounded`
//! flag the systems read is the output of the previous tick's resolve.
//! `movement_tick` packages the three steps in that exact order. Shape-cast
//! probes for one tick are all sampled against start-of-tick position and
//! stretch; `probes` describes their geometry.

pub mod constants;
pub mod entities;
pub mod geometry;
pub mod horizontal;
pub mod interactions;
pub mod jumping;
pub mod math;
pub mod physics;
pub mod pins;
pub mod platforms;
pub mod probes;
pub mod progress;
pub mod respawn;
pub mod state;
pub mod stretching;
pub mod tick;
pub mod timer;
