//! The elastic-stretch and ceiling-grab state machine.
//!
//! While free, holding the stretch key grows the extension by a fixed rate
//! per tick up to `PLAYER_MAXIMUM_STRETCH`; each growth step is validated by
//! an upward shape cast, and an obstruction turns the stretch into a ceiling
//! grab instead. Releasing the key shrinks the extension at the same rate,
//! never below zero. While grabbed, gravity is switched off and the actor is
//! winched toward the ceiling as the stretch drains.
//!
//! Two design points admit more than one defensible rule; this module fixes
//! them as follows. The stretch is clamped into `[0, PLAYER_MAXIMUM_STRETCH]`
//! on every tick: growth never overshoots the maximum, not even transiently.
//! And a grab persists until the jump key releases it or the stretch drains;
//! there is no per-tick re-validation cast of its own
//! (`horizontal_controls_on_ceiling` still drops the grab when the slide
//! probe finds empty space above).

use vstd::prelude::*;
use crate::constants::{
    GRAVITY_DIR_NORMAL, NORMAL_SLOW_DOWN, PLAYER_MAXIMUM_STRETCH, PLAYER_STRETCH_SPEED,
    STRETCH_SLOW_DOWN,
};
use crate::math::Vec2Fx;
use crate::state::{GravityDir, InputState, Jump, Player, Velocity};

verus! {

/// One tick of shrinking: the stretch recedes by the stretch rate, stopping
/// at zero.
pub open spec fn shrunk_stretch(s: int) -> int {
    if s - PLAYER_STRETCH_SPEED < 0 {
        0
    } else {
        s - PLAYER_STRETCH_SPEED
    }
}

/// One tick of growing: the stretch extends by the stretch rate, stopping at
/// the maximum.
pub open spec fn grown_stretch(s: int) -> int {
    if s + PLAYER_STRETCH_SPEED > PLAYER_MAXIMUM_STRETCH {
        PLAYER_MAXIMUM_STRETCH as int
    } else {
        s + PLAYER_STRETCH_SPEED
    }
}

/// The player, jump and gravity state `stretching_controls` leaves behind.
pub open spec fn stretching_step(
    p: Player,
    j: Jump,
    g: GravityDir,
    i: InputState,
    obstructed_above: bool,
) -> (Player, Jump, GravityDir) {
    if p.grabbed_ceiling {
        (p, j, g)
    } else if p.is_respawning {
        (Player { stretch: shrunk_stretch(p.stretch as int) as i64, ..p }, j, g)
    } else if i.stretch_pressed {
        if p.stretch >= PLAYER_MAXIMUM_STRETCH {
            (
                Player { stretch: PLAYER_MAXIMUM_STRETCH, ..p },
                j,
                GravityDir { slow_down: NORMAL_SLOW_DOWN, ..g },
            )
        } else if obstructed_above {
            (
                Player { grabbed_ceiling: true, ..p },
                Jump { is_jumping: false, ..j },
                GravityDir { slow_down: NORMAL_SLOW_DOWN, ..g },
            )
        } else {
            (
                Player { stretch: grown_stretch(p.stretch as int) as i64, ..p },
                j,
                GravityDir { slow_down: STRETCH_SLOW_DOWN, ..g },
            )
        }
    } else {
        (
            Player { stretch: shrunk_stretch(p.stretch as int) as i64, ..p },
            j,
            GravityDir { slow_down: NORMAL_SLOW_DOWN, ..g },
        )
    }
}

/// The player, gravity and velocity state `grab_ceiling` leaves behind,
/// together with the translation it hands the integration step.
pub open spec fn grab_step(p: Player, g: GravityDir, v: Velocity) -> (
    Player,
    GravityDir,
    Velocity,
    Option<Vec2Fx>,
) {
    if p.grabbed_ceiling {
        if p.stretch > 0 {
            (
                Player { stretch: shrunk_stretch(p.stretch as int) as i64, ..p },
                GravityDir { dir: 0, ..g },
                Velocity { current: Vec2Fx { x: v.current.x, y: 0 }, ..v },
                Some(Vec2Fx { x: 0, y: PLAYER_STRETCH_SPEED }),
            )
        } else {
            (p, GravityDir { dir: 0, ..g }, v, None)
        }
    } else {
        (p, GravityDir { dir: GRAVITY_DIR_NORMAL, ..g }, v, None)
    }
}

/// The player state `ungrab_ceiling` leaves behind.
pub open spec fn ungrab_step(p: Player, i: InputState) -> Player {
    Player { grabbed_ceiling: p.grabbed_ceiling && !i.jump_just_pressed, ..p }
}

/// Grow or shrink the stretch from the held stretch key, entering the
/// ceiling grab when the growth probe is obstructed.
///
/// `obstructed_above` is the result of the upward shape cast described by
/// `probes::stretch_probe`, sampled against start-of-tick state.
pub fn stretching_controls(
    player: &mut Player,
    jump: &mut Jump,
    gravity_dir: &mut GravityDir,
    input: &InputState,
    obstructed_above: bool,
)
    requires
        old(player).wf(),
    ensures
        final(player).wf(),
        final(gravity_dir).dir == old(gravity_dir).dir,
        // A grabbed player is owned by the grab systems: nothing moves here.
        old(player).grabbed_ceiling ==> {
            &&& *final(player) == *old(player)
            &&& *final(jump) == *old(jump)
            &&& *final(gravity_dir) == *old(gravity_dir)
        },
        // Respawn suspension: the stretch only recedes.
        !old(player).grabbed_ceiling && old(player).is_respawning ==> {
            &&& *final(player) == (Player {
                stretch: shrunk_stretch(old(player).stretch as int) as i64,
                ..*old(player)
            })
            &&& *final(jump) == *old(jump)
            &&& *final(gravity_dir) == *old(gravity_dir)
        },
        // Active, key held, already fully extended: stay at the maximum.
        !old(player).grabbed_ceiling && !old(player).is_respawning && input.stretch_pressed
            && old(player).stretch == PLAYER_MAXIMUM_STRETCH ==> {
            &&& *final(player) == *old(player)
            &&& *final(jump) == *old(jump)
            &&& *final(gravity_dir) == (GravityDir { slow_down: NORMAL_SLOW_DOWN, ..*old(gravity_dir) })
        },
        // Active, key held, growth blocked: become a ceiling grab.
        !old(player).grabbed_ceiling && !old(player).is_respawning && input.stretch_pressed
            && old(player).stretch < PLAYER_MAXIMUM_STRETCH && obstructed_above ==> {
            &&& *final(player) == (Player { grabbed_ceiling: true, ..*old(player) })
            &&& *final(jump) == (Jump { is_jumping: false, ..*old(jump) })
            &&& *final(gravity_dir) == (GravityDir { slow_down: NORMAL_SLOW_DOWN, ..*old(gravity_dir) })
        },
        // Active, key held, growth free: extend, and fall more slowly.
        !old(player).grabbed_ceiling && !old(player).is_respawning && input.stretch_pressed
            && old(player).stretch < PLAYER_MAXIMUM_STRETCH && !obstructed_above ==> {
            &&& *final(player) == (Player {
                stretch: grown_stretch(old(player).stretch as int) as i64,
                ..*old(player)
            })
            &&& *final(jump) == *old(jump)
            &&& *final(gravity_dir) == (GravityDir { slow_down: STRETCH_SLOW_DOWN, ..*old(gravity_dir) })
        },
        // Active, key released: recede.
        !old(player).grabbed_ceiling && !old(player).is_respawning && !input.stretch_pressed ==> {
            &&& *final(player) == (Player {
                stretch: shrunk_stretch(old(player).stretch as int) as i64,
                ..*old(player)
            })
            &&& *final(jump) == *old(jump)
            &&& *final(gravity_dir) == (GravityDir { slow_down: NORMAL_SLOW_DOWN, ..*old(gravity_dir) })
        },
        (*final(player), *final(jump), *final(gravity_dir)) == stretching_step(
            *old(player),
            *old(jump),
            *old(gravity_dir),
            *input,
            obstructed_above,
        ),
{
    if player.grabbed_ceiling {
        return ;
    }

    if player.is_respawning {
        player.stretch = player.stretch - PLAYER_STRETCH_SPEED;
        if player.stretch < 0 {
            player.stretch = 0;
        }
        return ;
    }

    gravity_dir.slow_down = NORMAL_SLOW_DOWN;
    if input.stretch_pressed {
        if player.stretch >= PLAYER_MAXIMUM_STRETCH {
            player.stretch = PLAYER_MAXIMUM_STRETCH;
            return ;
        }

        if obstructed_above {
            jump.is_jumping = false;
            player.grabbed_ceiling = true;
            return ;
        }

        player.stretch = player.stretch + PLAYER_STRETCH_SPEED;
        if player.stretch > PLAYER_MAXIMUM_STRETCH {
            player.stretch = PLAYER_MAXIMUM_STRETCH;
        }
        gravity_dir.slow_down = STRETCH_SLOW_DOWN;
        return ;
    }

    player.stretch = player.stretch - PLAYER_STRETCH_SPEED;
    if player.stretch < 0 {
        player.stretch = 0;
    }
}

/// While grabbed, suspend the actor: zero the gravity direction, winch it
/// one stretch step toward the ceiling and drain the stretch; the returned
/// translation, if any, pre-empts the integration step's own. While free,
/// restore the normal gravity direction.
pub fn grab_ceiling(
    player: &mut Player,
    gravity_dir: &mut GravityDir,
    velocity: &mut Velocity,
) -> (translation: Option<Vec2Fx>)
    requires
        old(player).wf(),
    ensures
        final(player).wf(),
        final(gravity_dir).slow_down == old(gravity_dir).slow_down,
        final(velocity).max == old(velocity).max,
        final(velocity).damping == old(velocity).damping,
        final(velocity).current.x == old(velocity).current.x,
        old(player).grabbed_ceiling ==> {
            &&& final(gravity_dir).dir == 0
            &&& old(player).stretch > 0 ==> {
                &&& translation == Some(Vec2Fx { x: 0, y: PLAYER_STRETCH_SPEED })
                &&& *final(player) == (Player {
                    stretch: shrunk_stretch(old(player).stretch as int) as i64,
                    ..*old(player)
                })
                &&& final(velocity).current.y == 0
            }
            &&& old(player).stretch == 0 ==> {
                &&& translation is None
                &&& *final(player) == *old(player)
                &&& *final(velocity) == *old(velocity)
            }
        },
        !old(player).grabbed_ceiling ==> {
            &&& final(gravity_dir).dir == GRAVITY_DIR_NORMAL
            &&& translation is None
            &&& *final(player) == *old(player)
            &&& *final(velocity) == *old(velocity)
        },
        (*final(player), *final(gravity_dir), *final(velocity), translation) == grab_step(
            *old(player),
            *old(gravity_dir),
            *old(velocity),
        ),
{
    let mut translation: Option<Vec2Fx> = None;

    if player.grabbed_ceiling {
        gravity_dir.dir = 0;
        if player.stretch > 0 {
            translation = Some(Vec2Fx { x: 0, y: PLAYER_STRETCH_SPEED });
            player.stretch = player.stretch - PLAYER_STRETCH_SPEED;
            velocity.current.y = 0;
        }
    } else {
        gravity_dir.dir = GRAVITY_DIR_NORMAL;
    }

    if player.stretch <= 0 {
        player.stretch = 0;
    }

    translation
}

/// Pressing the jump key releases a ceiling grab unconditionally.
pub fn ungrab_ceiling(player: &mut Player, input: &InputState)
    ensures
        *final(player) == ungrab_step(*old(player), *input),
{
    if input.jump_just_pressed {
        player.grabbed_ceiling = false;
    }
}

} // verus!
