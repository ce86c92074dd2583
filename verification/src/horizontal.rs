//! Input-driven horizontal movement, with wall probing, and the sideways
//! shuffle along a grabbed ceiling.

use vstd::prelude::*;
use crate::constants::{CEILING_SLIDE_SPEED, PLAYER_HORIZONTAL_MOVE_SPEED};
use crate::math::Vec2Fx;
use crate::state::{InputState, Player, Velocity};

verus! {

/// The velocity `horizontal_controls` leaves behind.
pub open spec fn horizontal_step(
    v: Velocity,
    p: Player,
    i: InputState,
    blocked_left: bool,
    blocked_right: bool,
) -> Velocity {
    if p.grabbed_ceiling || p.is_respawning {
        v
    } else if i.left_pressed {
        Velocity {
            current: Vec2Fx {
                x: if blocked_left {
                    0
                } else {
                    (-PLAYER_HORIZONTAL_MOVE_SPEED as int) as i64
                },
                y: v.current.y,
            },
            ..v
        }
    } else if i.right_pressed {
        Velocity {
            current: Vec2Fx {
                x: if blocked_right {
                    0
                } else {
                    PLAYER_HORIZONTAL_MOVE_SPEED
                },
                y: v.current.y,
            },
            ..v
        }
    } else {
        v
    }
}

/// The velocity and player `horizontal_controls_on_ceiling` leave behind.
pub open spec fn ceiling_shuffle_step(
    v: Velocity,
    p: Player,
    i: InputState,
    ceiling_above: bool,
) -> (Velocity, Player) {
    if !p.grabbed_ceiling {
        (v, p)
    } else if ceiling_above {
        (
            Velocity {
                current: Vec2Fx {
                    x: if i.right_pressed {
                        CEILING_SLIDE_SPEED
                    } else if i.left_pressed {
                        (-CEILING_SLIDE_SPEED as int) as i64
                    } else {
                        0
                    },
                    y: v.current.y,
                },
                ..v
            },
            p,
        )
    } else {
        (
            Velocity { current: Vec2Fx { x: 0, y: v.current.y }, ..v },
            Player { grabbed_ceiling: false, ..p },
        )
    }
}

/// Set the horizontal velocity from the held movement keys.
///
/// A held key normally commands full run speed in its direction, but a wall
/// probe that reports a hit zeroes the horizontal velocity instead. The left
/// key wins over the right one. A grabbed or respawning actor is not moved
/// here. `blocked_left` and `blocked_right` are the results of the sideways
/// shape casts described by `probes::side_probe`, sampled against
/// start-of-tick state.
pub fn horizontal_controls(
    velocity: &mut Velocity,
    player: &Player,
    input: &InputState,
    blocked_left: bool,
    blocked_right: bool,
)
    ensures
        final(velocity).current.y == old(velocity).current.y,
        final(velocity).max == old(velocity).max,
        final(velocity).damping == old(velocity).damping,
        player.grabbed_ceiling || player.is_respawning ==> *final(velocity) == *old(velocity),
        !player.grabbed_ceiling && !player.is_respawning ==> {
            &&& input.left_pressed ==> final(velocity).current.x == (if blocked_left {
                0int
            } else {
                -PLAYER_HORIZONTAL_MOVE_SPEED as int
            })
            &&& !input.left_pressed && input.right_pressed ==> final(velocity).current.x == (
            if blocked_right {
                0int
            } else {
                PLAYER_HORIZONTAL_MOVE_SPEED as int
            })
            &&& !input.left_pressed && !input.right_pressed ==> *final(velocity) == *old(velocity)
        },
        *final(velocity) == horizontal_step(
            *old(velocity),
            *player,
            *input,
            blocked_left,
            blocked_right,
        ),
{
    if player.grabbed_ceiling {
        return ;
    }

    if player.is_respawning {
        return ;
    }

    if input.left_pressed {
        if blocked_left {
            velocity.current.x = 0;
            return ;
        }
        velocity.current.x = -PLAYER_HORIZONTAL_MOVE_SPEED;
    } else if input.right_pressed {
        if blocked_right {
            velocity.current.x = 0;
            return ;
        }
        velocity.current.x = PLAYER_HORIZONTAL_MOVE_SPEED;
    }
}

/// Shuffle sideways along a grabbed ceiling, or drop the grab when the
/// ceiling is gone.
///
/// Only acts on a grabbed actor. The upward probe (`probes::ceiling_slide_probe`)
/// re-checks that a ceiling is still within reach: if it is, the held
/// movement keys command a slow nudge (the right key wins over the left one);
/// if it is not, the grab is released and the actor hangs still.
pub fn horizontal_controls_on_ceiling(
    velocity: &mut Velocity,
    player: &mut Player,
    input: &InputState,
    ceiling_above: bool,
)
    ensures
        final(velocity).current.y == old(velocity).current.y,
        final(velocity).max == old(velocity).max,
        final(velocity).damping == old(velocity).damping,
        !old(player).grabbed_ceiling ==> {
            &&& *final(velocity) == *old(velocity)
            &&& *final(player) == *old(player)
        },
        old(player).grabbed_ceiling && ceiling_above ==> {
            &&& *final(player) == *old(player)
            &&& final(velocity).current.x == (if input.right_pressed {
                CEILING_SLIDE_SPEED as int
            } else if input.left_pressed {
                -CEILING_SLIDE_SPEED as int
            } else {
                0int
            })
        },
        old(player).grabbed_ceiling && !ceiling_above ==> {
            &&& *final(player) == (Player { grabbed_ceiling: false, ..*old(player) })
            &&& final(velocity).current.x == 0
        },
        (*final(velocity), *final(player)) == ceiling_shuffle_step(
            *old(velocity),
            *old(player),
            *input,
            ceiling_above,
        ),
{
    if !player.grabbed_ceiling {
        return ;
    }

    velocity.current.x = 0;

    if ceiling_above {
        if input.left_pressed {
            velocity.current.x = -CEILING_SLIDE_SPEED;
        }
        if input.right_pressed {
            velocity.current.x = CEILING_SLIDE_SPEED;
        }
    } else {
        player.grabbed_ceiling = false;
    }
}

} // verus!
