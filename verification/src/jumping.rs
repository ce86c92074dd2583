//! Jump initiation, the decaying hold force for variable jump height, the
//! grounded-gating flag and the ceiling bonk.

use vstd::prelude::*;
use crate::constants::{
    CEILING_BOUNCE_VELOCITY, JUMP_HOLD_FORCE, JUMP_HOLD_TICKS, PLAYER_JUMP_SPEED,
};
use crate::math::{scale_milli, scale_spec, Vec2Fx};
use crate::state::{InputState, Jump, Player, Velocity};
use crate::timer::TickTimer;

verus! {

/// The extra upward speed one held tick adds: the hold force, scaled by the
/// fraction the (already ticked) hold timer has left. It decays linearly
/// from full force to zero over the hold window.
pub open spec fn jump_hold_force(t: TickTimer) -> int {
    scale_spec(JUMP_HOLD_FORCE as int, t.percent_left_spec())
}

/// A fresh hold-force window.
pub open spec fn fresh_hold_timer() -> TickTimer {
    TickTimer { remaining: JUMP_HOLD_TICKS, total: JUMP_HOLD_TICKS, fired: false }
}

/// What one tick of `jumping_controls` does to the jump state and the
/// vertical velocity, in three phases. First, while the key is held inside
/// an open hold window, the window advances and the decaying hold force is
/// added. Second, a key press starts a jump — full jump speed and a fresh
/// hold window — but only for an actor that may jump and is not respawning;
/// a refused press ends the tick's work at once. Third, releasing the key or
/// exhausting the window ends the holding phase, leaving the velocity as it
/// is.
pub open spec fn jumping_step(j: Jump, v_y: int, respawning: bool, i: InputState) -> (Jump, int) {
    let held = i.jump_pressed && j.is_jumping && j.jump_timer.remaining > 0;
    let t1 = if held {
        j.jump_timer.ticked_spec()
    } else {
        j.jump_timer
    };
    let j1 = Jump { jump_timer: t1, ..j };
    let vy1 = if held {
        v_y + jump_hold_force(t1)
    } else {
        v_y
    };
    if i.jump_just_pressed && (!j1.can_jump || respawning) {
        (j1, vy1)
    } else {
        let j2 = if i.jump_just_pressed {
            Jump { is_jumping: true, jump_timer: fresh_hold_timer(), ..j1 }
        } else {
            j1
        };
        let vy2 = if i.jump_just_pressed {
            PLAYER_JUMP_SPEED as int
        } else {
            vy1
        };
        if i.jump_just_released || j2.jump_timer.remaining == 0 {
            (Jump { is_jumping: false, ..j2 }, vy2)
        } else {
            (j2, vy2)
        }
    }
}

/// Start, hold and end jumps from the jump key.
pub fn jumping_controls(
    velocity: &mut Velocity,
    jump: &mut Jump,
    player: &Player,
    input: &InputState,
)
    requires
        old(jump).wf(),
        old(velocity).wf(),
    ensures
        final(jump).wf(),
        final(velocity).current.x == old(velocity).current.x,
        final(velocity).max == old(velocity).max,
        final(velocity).damping == old(velocity).damping,
        (*final(jump), final(velocity).current.y as int) == jumping_step(
            *old(jump),
            old(velocity).current.y as int,
            player.is_respawning,
            *input,
        ),
        // Once the hold window is exhausted, only a fresh press keeps the
        // holding phase alive.
        !input.jump_just_pressed && final(jump).jump_timer.remaining == 0
            ==> !final(jump).is_jumping,
        // The vertical velocity either becomes the jump speed or moves up by
        // at most one hold-force step.
        final(velocity).current.y == PLAYER_JUMP_SPEED
            || old(velocity).current.y <= final(velocity).current.y
                <= old(velocity).current.y + JUMP_HOLD_FORCE,
{
    if input.jump_pressed && jump.is_jumping && !jump.jump_timer.finished() {
        jump.jump_timer.tick();
        let pct = jump.jump_timer.percent_left_milli();
        let force = scale_milli(JUMP_HOLD_FORCE, pct as i64);
        proof {
            crate::math::lemma_scale_shrinks(JUMP_HOLD_FORCE as int, pct as int);
        }
        velocity.current.y = velocity.current.y + force;
    }

    if input.jump_just_pressed {
        if !jump.can_jump {
            return ;
        }

        if player.is_respawning {
            return ;
        }

        velocity.current.y = PLAYER_JUMP_SPEED;
        jump.is_jumping = true;
        jump.jump_timer = TickTimer::from_ticks(JUMP_HOLD_TICKS);
    }

    if input.jump_just_released || jump.jump_timer.finished() {
        jump.is_jumping = false;
    }
}

/// Refresh the jump gate from the kinematic controller's grounded output,
/// its single source.
pub fn update_can_jump_flag(jump: &mut Jump, grounded: bool)
    ensures
        *final(jump) == (Jump { can_jump: grounded, ..*old(jump) }),
{
    jump.can_jump = grounded;
}

/// The velocity and jump state `bounce_off_ceiling` leaves behind.
pub open spec fn bounce_step(v: Velocity, j: Jump, p: Player, ceiling_hit: bool) -> (
    Velocity,
    Jump,
) {
    if p.grabbed_ceiling || !ceiling_hit {
        (v, j)
    } else {
        (
            Velocity { current: Vec2Fx { x: v.current.x, y: CEILING_BOUNCE_VELOCITY }, ..v },
            Jump { is_jumping: false, ..j },
        )
    }
}

/// Cancel a jump whose head hits a ceiling: a small upward probe that
/// reports a hit zeroes the rise into a slight push-down and ends the
/// holding phase. A grabbed actor hangs from the ceiling on purpose and is
/// left alone; the bonk is otherwise gated only by the probe itself, since
/// a grounded actor can never stand close enough under a ceiling for the
/// probe to reach it. `ceiling_hit` is the result of the shape cast
/// described by `probes::bounce_probe`.
pub fn bounce_off_ceiling(
    velocity: &mut Velocity,
    jump: &mut Jump,
    player: &Player,
    ceiling_hit: bool,
)
    ensures
        final(velocity).current.x == old(velocity).current.x,
        final(velocity).max == old(velocity).max,
        final(velocity).damping == old(velocity).damping,
        player.grabbed_ceiling || !ceiling_hit ==> {
            &&& *final(velocity) == *old(velocity)
            &&& *final(jump) == *old(jump)
        },
        !player.grabbed_ceiling && ceiling_hit ==> {
            &&& final(velocity).current.y == CEILING_BOUNCE_VELOCITY
            &&& *final(jump) == (Jump { is_jumping: false, ..*old(jump) })
        },
        (*final(velocity), *final(jump)) == bounce_step(
            *old(velocity),
            *old(jump),
            *player,
            ceiling_hit,
        ),
{
    if player.grabbed_ceiling {
        return ;
    }

    if ceiling_hit {
        velocity.current.y = CEILING_BOUNCE_VELOCITY;
        jump.is_jumping = false;
    }
}

} // verus!
