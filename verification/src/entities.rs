//! Level entities the core interacts with: checkpoints, hazards, pickups,
//! exits, platforms, elevators, and the descriptors the level loader hands
//! over when it instantiates them.

use vstd::prelude::*;
use crate::math::Vec2Fx;
use crate::timer::TickTimer;

verus! {

/// A respawn marker; at most one is active at a time.
#[derive(Clone, Copy, Debug)]
pub struct Checkpoint {
    pub is_active: bool,
}

impl Default for Checkpoint {
    fn default() -> (r: Checkpoint)
        ensures
            !r.is_active,
    {
        Checkpoint { is_active: false }
    }
}

/// Overlap state of a sensor entity. `is_overlapping` is rebuilt from scratch
/// every tick; `disabled` suppresses detection entirely.
#[derive(Clone, Copy, Debug)]
pub struct Interaction {
    pub is_overlapping: bool,
    pub disabled: bool,
}

impl Default for Interaction {
    fn default() -> (r: Interaction)
        ensures
            !r.is_overlapping,
            !r.disabled,
    {
        Interaction { is_overlapping: false, disabled: false }
    }
}

/// A level exit; opens once every pickup of the level has been collected.
#[derive(Clone, Copy, Debug)]
pub struct Exit {
    pub is_open: bool,
}

impl Default for Exit {
    fn default() -> (r: Exit)
        ensures
            !r.is_open,
    {
        Exit { is_open: false }
    }
}

/// Marks an entity whose touch hurts the player.
#[derive(Clone, Copy, Debug, Default)]
pub struct HitComponent {}

/// Marks the level's spawn position.
#[derive(Clone, Copy, Debug, Default)]
pub struct SpawnPoint {}

/// Marks one grid cell of solid wall before the cells are merged into
/// collider rectangles.
#[derive(Clone, Copy, Debug, Default)]
pub struct WallDefinition {}

/// Lifecycle of a collectable pin.
#[derive(Clone, Copy, Debug)]
pub enum PinState {
    Idle,
    Picked,
}

impl PartialEq for PinState {
    fn eq(&self, other: &PinState) -> (r: bool) {
        match (self, other) {
            (PinState::Idle, PinState::Idle) => true,
            (PinState::Picked, PinState::Picked) => true,
            _ => false,
        }
    }
}

impl vstd::std_specs::cmp::PartialEqSpecImpl for PinState {
    open spec fn obeys_eq_spec() -> bool {
        true
    }

    open spec fn eq_spec(&self, other: &PinState) -> bool {
        match (*self, *other) {
            (PinState::Idle, PinState::Idle) => true,
            (PinState::Picked, PinState::Picked) => true,
            _ => false,
        }
    }
}

impl Default for PinState {
    fn default() -> (r: PinState)
        ensures
            r is Idle,
    {
        PinState::Idle
    }
}

/// A collectable pin: its lifecycle state with edge memory, where it rests,
/// and whether its pickup has been consumed.
#[derive(Clone, Copy, Debug)]
pub struct Pin {
    pub state: crate::state::WithPrevious<PinState>,
    pub initial_position: Vec2Fx,
    pub picked: bool,
}

impl Pin {
    /// An idle pin resting at `initial_position`.
    pub fn at(initial_position: Vec2Fx) -> (r: Pin)
        ensures
            r.state.current is Idle,
            r.state.previous is None,
            r.initial_position == initial_position,
            !r.picked,
    {
        Pin {
            state: crate::state::WithPrevious::new(PinState::Idle),
            initial_position,
            picked: false,
        }
    }
}

/// A platform that sinks after carrying the player and later flies back.
#[derive(Clone, Copy, Debug)]
pub struct Platform {
    pub drop_timer: TickTimer,
    pub is_stepped_on: bool,
    pub initial_pos: Vec2Fx,
    pub restart_timer: TickTimer,
}

impl Platform {
    pub open spec fn wf(self) -> bool {
        &&& self.drop_timer.wf()
        &&& self.restart_timer.wf()
    }

    /// A fresh platform resting at `initial_pos`.
    pub fn at(initial_pos: Vec2Fx) -> (r: Platform)
        ensures
            r.initial_pos == initial_pos,
            !r.is_stepped_on,
            r.drop_timer.remaining == 0,
            r.restart_timer.remaining == 0,
            r.wf(),
    {
        Platform {
            drop_timer: TickTimer::expired(),
            is_stepped_on: false,
            initial_pos,
            restart_timer: TickTimer::expired(),
        }
    }
}

/// An elevator oscillating along its scripted direction between its initial
/// position and a level-defined travel bound.
#[derive(Clone, Copy, Debug)]
pub struct Elevator {
    pub initial_position: Vec2Fx,
    pub direction: Vec2Fx,
}

/// The level-editor's signed storey count for an elevator: how many grid
/// steps of travel, and in which direction.
#[derive(Clone, Copy, Debug, PartialEq, Eq, Structural)]
pub struct Level(pub i32);

/// How many pins an exit demands before it lets the player through.
#[derive(Clone, Copy, Debug, PartialEq, Eq, Structural)]
pub struct RequiredKeys(pub i32);

/// A level-editor point field: where a scripted entity travels to.
#[derive(Clone, Copy, Debug, PartialEq, Eq, Structural)]
pub struct PointTo {
    pub x: i32,
    pub y: i32,
}

/// The player is drawn in parts; the body part rides the stretch.
#[derive(Clone, Copy, Debug)]
pub enum LimbType {
    Body,
    Hands,
    Legs,
    Extension,
}

/// One drawn part of the player.
#[derive(Clone, Copy, Debug)]
pub struct Limb {
    pub limb_type: LimbType,
}

impl Limb {
    pub fn new(limb_type: LimbType) -> (r: Limb)
        ensures
            r.limb_type == limb_type,
    {
        Limb { limb_type }
    }
}

/// Marks a freshly loaded platform entity.
#[derive(Clone, Copy, Debug, Default)]
pub struct PlatformInstance {}

/// Marks a freshly loaded elevator entity.
#[derive(Clone, Copy, Debug, Default)]
pub struct ElevatorInstance {}

/// Marks a freshly loaded exit entity.
#[derive(Clone, Copy, Debug, Default)]
pub struct ExitInstance {}

/// Marks a freshly loaded pin entity.
#[derive(Clone, Copy, Debug, Default)]
pub struct PinInstance {}

/// Marks a freshly loaded sharpener (moving hazard) entity.
#[derive(Clone, Copy, Debug, Default)]
pub struct SharpenerInstance {}

/// What the level loader hands over for a spawn point.
#[derive(Clone, Copy, Debug, Default)]
pub struct SpawnPointBundle {
    pub spawn_point: SpawnPoint,
}

/// What the level loader hands over for an elevator.
#[derive(Clone, Copy, Debug)]
pub struct ElevatorBundle {
    pub level: Level,
    pub elevator: ElevatorInstance,
}

/// What the level loader hands over for a platform.
#[derive(Clone, Copy, Debug, Default)]
pub struct PlatformBundle {
    pub platform_instance: PlatformInstance,
}

/// What the level loader hands over for an exit.
#[derive(Clone, Copy, Debug)]
pub struct ExitBundle {
    pub exit_instance: ExitInstance,
    pub required_keys: RequiredKeys,
}

/// What the level loader hands over for a pin.
#[derive(Clone, Copy, Debug, Default)]
pub struct PinBundle {
    pub pin_instance: PinInstance,
}

/// What the level loader hands over for a sharpener.
#[derive(Clone, Copy, Debug)]
pub struct SharpenerBundle {
    pub point_to: PointTo,
    pub sharpener_instance: SharpenerInstance,
}

} // verus!
