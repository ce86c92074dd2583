//! Per-actor components of the movement pipeline: velocity, acceleration,
//! gravity direction, jump state, the player's stretch/grab/respawn state,
//! the grounded-edge detector and the sampled input of one tick.

use vstd::prelude::*;
use vstd::std_specs::cmp::PartialEqSpec;
use crate::constants::{
    COORD_LIMIT, DEFAULT_MAX_VELOCITY_X, DEFAULT_MAX_VELOCITY_Y, PLAYER_MAXIMUM_STRETCH,
};
use crate::math::Vec2Fx;
use crate::timer::TickTimer;

verus! {

/// A value together with the value it had before the last update, so that
/// edges (changes) can be told apart from levels (states).
#[derive(Clone, Copy, Debug)]
pub struct WithPrevious<T> {
    pub current: T,
    pub previous: Option<T>,
}

impl<T: Copy + PartialEq> WithPrevious<T> {
    pub fn new(initial_value: T) -> (r: WithPrevious<T>)
        ensures
            r.current == initial_value,
            r.previous is None,
    {
        WithPrevious { current: initial_value, previous: None }
    }

    /// Record a new value, remembering the one it replaces.
    pub fn update_value(&mut self, new_value: T)
        ensures
            final(self).current == new_value,
            final(self).previous == Some(old(self).current),
    {
        self.previous = Some(self.current);
        self.current = new_value;
    }

    /// Whether the current value equals the remembered one; a fresh pair with
    /// no remembered value counts as changed.
    pub open spec fn same_as_previous_spec(self) -> bool {
        match self.previous {
            Some(p) => p.eq_spec(&self.current),
            None => false,
        }
    }

    /// Whether the last update left the value unchanged. A pair that has
    /// never been updated counts as changed, whatever the value type.
    pub fn is_same_as_previous(&self) -> (r: bool)
        ensures
            T::obeys_eq_spec() ==> r == self.same_as_previous_spec(),
            self.previous is None ==> !r,
    {
        match &self.previous {
            None => false,
            Some(p) => *p == self.current,
        }
    }
}

/// Current and maximum velocity, and the per-mille horizontal damping factor.
#[derive(Clone, Copy, Debug)]
pub struct Velocity {
    pub current: Vec2Fx,
    pub max: Vec2Fx,
    pub damping: i64,
}

impl Velocity {
    /// Bounds that keep the integration arithmetic exact: a nonnegative
    /// in-range maximum, an in-range current value, damping below one.
    pub open spec fn wf(self) -> bool {
        &&& self.current.in_range()
        &&& 0 <= self.max.x <= COORD_LIMIT
        &&& 0 <= self.max.y <= COORD_LIMIT
        &&& 0 <= self.damping < 1000
    }

    /// The current velocity obeys the component-wise maximum.
    pub open spec fn is_clamped(self) -> bool {
        &&& -self.max.x <= self.current.x <= self.max.x
        &&& -self.max.y <= self.current.y <= self.max.y
    }

    /// What the integration step needs of a velocity: the bounds of `wf`,
    /// except that the current value may drift as far as the mid-tick limit.
    pub open spec fn integrable(self) -> bool {
        &&& -crate::constants::MID_TICK_LIMIT <= self.current.x <= crate::constants::MID_TICK_LIMIT
        &&& -crate::constants::MID_TICK_LIMIT <= self.current.y <= crate::constants::MID_TICK_LIMIT
        &&& 0 <= self.max.x <= crate::constants::COORD_LIMIT
        &&& 0 <= self.max.y <= crate::constants::COORD_LIMIT
        &&& 0 <= self.damping < 1000
    }
}

impl Default for Velocity {
    /// At rest, with the stock maximum of (100, 200) units/s and no damping.
    fn default() -> (r: Velocity)
        ensures
            r.current.x == 0,
            r.current.y == 0,
            r.max.x == DEFAULT_MAX_VELOCITY_X,
            r.max.y == DEFAULT_MAX_VELOCITY_Y,
            r.damping == 0,
            r.wf(),
            r.is_clamped(),
    {
        Velocity {
            current: Vec2Fx { x: 0, y: 0 },
            max: Vec2Fx { x: DEFAULT_MAX_VELOCITY_X, y: DEFAULT_MAX_VELOCITY_Y },
            damping: 0,
        }
    }
}

/// The single-tick impulse accumulator; cleared by every integration step.
#[derive(Clone, Copy, Debug)]
pub struct Acceleration {
    pub current: Vec2Fx,
}

impl Acceleration {
    pub open spec fn wf(self) -> bool {
        self.current.in_range()
    }
}

impl Default for Acceleration {
    fn default() -> (r: Acceleration)
        ensures
            r.current.x == 0,
            r.current.y == 0,
            r.wf(),
    {
        Acceleration { current: Vec2Fx { x: 0, y: 0 } }
    }
}

/// Per-mille multipliers on the gravity constant: `dir` is the signed
/// direction (zero while hanging from a ceiling), `slow_down` the extra
/// factor that softens the fall while the player is stretching.
#[derive(Clone, Copy, Debug)]
pub struct GravityDir {
    pub dir: i64,
    pub slow_down: i64,
}

impl GravityDir {
    pub open spec fn wf(self) -> bool {
        &&& -1000 <= self.dir <= 1000
        &&& 0 <= self.slow_down <= 1000
    }
}

impl Default for GravityDir {
    fn default() -> (r: GravityDir)
        ensures
            r.dir == 0,
            r.slow_down == 0,
            r.wf(),
    {
        GravityDir { dir: 0, slow_down: 0 }
    }
}

/// Jump gating and the hold-force window.
#[derive(Clone, Copy, Debug)]
pub struct Jump {
    pub can_jump: bool,
    pub jump_timer: TickTimer,
    pub is_jumping: bool,
}

impl Jump {
    pub open spec fn wf(self) -> bool {
        self.jump_timer.wf()
    }
}

impl Default for Jump {
    fn default() -> (r: Jump)
        ensures
            !r.can_jump,
            !r.is_jumping,
            r.jump_timer.remaining == 0,
            r.wf(),
    {
        Jump { can_jump: false, jump_timer: TickTimer::expired(), is_jumping: false }
    }
}

/// The player's elastic extension, ceiling grab and respawn suspension state.
#[derive(Clone, Copy, Debug)]
pub struct Player {
    pub stretch: i64,
    pub grabbed_ceiling: bool,
    pub is_respawning: bool,
    pub respawn_timer: TickTimer,
    pub respawning_animation_timer: TickTimer,
}

impl Player {
    /// The stretch stays within `[0, PLAYER_MAXIMUM_STRETCH]` and the timers
    /// are well formed.
    pub open spec fn wf(self) -> bool {
        &&& 0 <= self.stretch <= PLAYER_MAXIMUM_STRETCH
        &&& self.respawn_timer.wf()
        &&& self.respawning_animation_timer.wf()
    }
}

impl Default for Player {
    fn default() -> (r: Player)
        ensures
            r.stretch == 0,
            !r.grabbed_ceiling,
            !r.is_respawning,
            r.respawn_timer.remaining == 0,
            r.respawning_animation_timer.remaining == 0,
            r.wf(),
    {
        Player {
            stretch: 0,
            grabbed_ceiling: false,
            is_respawning: false,
            respawn_timer: TickTimer::expired(),
            respawning_animation_timer: TickTimer::expired(),
        }
    }
}

/// Grounded-state edge tracking, and the vertical speed the actor had on the
/// tick the grounded flag last changed.
#[derive(Clone, Copy, Debug)]
pub struct GroundDetector {
    pub is_on_ground: WithPrevious<bool>,
    pub hit_speed: i64,
}

impl Default for GroundDetector {
    fn default() -> (r: GroundDetector)
        ensures
            !r.is_on_ground.current,
            r.is_on_ground.previous is None,
            r.hit_speed == 0,
    {
        GroundDetector {
            is_on_ground: WithPrevious { current: false, previous: None },
            hit_speed: 0,
        }
    }
}

/// The keyboard state one tick works from, already mapped to actions.
#[derive(Clone, Copy, Debug)]
pub struct InputState {
    /// Left movement key held.
    pub left_pressed: bool,
    /// Right movement key held.
    pub right_pressed: bool,
    /// Jump key held.
    pub jump_pressed: bool,
    /// Jump key went down this tick.
    pub jump_just_pressed: bool,
    /// Jump key went up this tick.
    pub jump_just_released: bool,
    /// Stretch key held.
    pub stretch_pressed: bool,
    /// Restart key went down this tick.
    pub restart_just_pressed: bool,
}

impl InputState {
    /// No key held and no edge seen.
    pub fn released() -> (r: InputState)
        ensures
            !r.left_pressed,
            !r.right_pressed,
            !r.jump_pressed,
            !r.jump_just_pressed,
            !r.jump_just_released,
            !r.stretch_pressed,
            !r.restart_just_pressed,
    {
        InputState {
            left_pressed: false,
            right_pressed: false,
            jump_pressed: false,
            jump_just_pressed: false,
            jump_just_released: false,
            stretch_pressed: false,
            restart_just_pressed: false,
        }
    }
}

} // verus!
