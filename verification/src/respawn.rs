//! Taking a hit, the respawn suspension, and the return to the spawn point.

use vstd::prelude::*;
use crate::constants::{
    HAZARD_KNOCKBACK_SPEED, JUMP_HOLD_FORCE, PLAYER_HIT_RESPAWN_TICKS, PLAYER_JUMP_SPEED,
    RESPAWN_ANIMATION_TICKS, RESPAWN_RAISE,
};
use crate::math::{scale_milli, scale_spec, Vec2Fx};
use crate::state::{InputState, Jump, Player, Velocity};
use crate::timer::TickTimer;

verus! {

/// React to the player's swept volume hitting a hazard. While the respawn
/// countdown runs the actor is invulnerable: a hit inside that window
/// changes nothing. A hit outside it starts the countdown, raises the
/// respawn suspension flag and throws the actor up and away from the
/// hazard, toward the side it is facing.
pub fn handle_player_hurt_collision(
    player: &mut Player,
    velocity: &mut Velocity,
    facing_right: bool,
    hazard_hit: bool,
) -> (hurt: bool)
    requires
        old(player).wf(),
    ensures
        final(player).wf(),
        hurt == (old(player).respawn_timer.remaining == 0 && hazard_hit),
        !hurt ==> {
            &&& *final(player) == *old(player)
            &&& *final(velocity) == *old(velocity)
        },
        hurt ==> {
            &&& *final(player) == (Player {
                is_respawning: true,
                respawn_timer: TickTimer {
                    remaining: PLAYER_HIT_RESPAWN_TICKS,
                    total: PLAYER_HIT_RESPAWN_TICKS,
                    fired: false,
                },
                ..*old(player)
            })
            &&& final(velocity).current.y == HAZARD_KNOCKBACK_SPEED
            &&& final(velocity).current.x == (if facing_right {
                HAZARD_KNOCKBACK_SPEED as int
            } else {
                -HAZARD_KNOCKBACK_SPEED as int
            })
            &&& final(velocity).max == old(velocity).max
            &&& final(velocity).damping == old(velocity).damping
        },
{
    if !player.respawn_timer.finished() {
        return false;
    }

    if !hazard_hit {
        return false;
    }

    player.respawn_timer = TickTimer::from_ticks(PLAYER_HIT_RESPAWN_TICKS);
    player.is_respawning = true;

    velocity.current.y = HAZARD_KNOCKBACK_SPEED;
    velocity.current.x = if facing_right {
        HAZARD_KNOCKBACK_SPEED
    } else {
        -HAZARD_KNOCKBACK_SPEED
    };

    true
}

/// Run the respawn countdown; the tick it elapses, and a spawn point
/// exists, the actor is set a little above it, launched upward with jump
/// speed, and the short pop-out animation window opens.
pub fn respawn_player(
    player: &mut Player,
    velocity: &mut Velocity,
    jump: &mut Jump,
    position: &mut Vec2Fx,
    spawn_point: Option<Vec2Fx>,
)
    requires
        old(player).wf(),
        spawn_point matches Some(sp) ==> sp.in_range(),
    ensures
        final(player).wf(),
        final(player).respawn_timer == old(player).respawn_timer.ticked_spec(),
        final(player).stretch == old(player).stretch,
        final(player).grabbed_ceiling == old(player).grabbed_ceiling,
        final(player).is_respawning == old(player).is_respawning,
        final(velocity).max == old(velocity).max,
        final(velocity).damping == old(velocity).damping,
        final(velocity).current.x == old(velocity).current.x,
        match spawn_point {
            Some(sp) => {
                &&& old(player).respawn_timer.remaining == 1 ==> {
                    &&& *final(position) == (Vec2Fx { x: sp.x, y: (sp.y + RESPAWN_RAISE) as i64 })
                    &&& final(velocity).current.y == PLAYER_JUMP_SPEED
                    &&& final(player).respawning_animation_timer == (TickTimer {
                        remaining: RESPAWN_ANIMATION_TICKS,
                        total: RESPAWN_ANIMATION_TICKS,
                        fired: false,
                    })
                    &&& *final(jump) == (Jump { is_jumping: true, ..*old(jump) })
                }
                &&& old(player).respawn_timer.remaining != 1 ==> {
                    &&& *final(position) == *old(position)
                    &&& final(velocity).current.y == old(velocity).current.y
                    &&& final(player).respawning_animation_timer
                        == old(player).respawning_animation_timer
                    &&& *final(jump) == *old(jump)
                }
            },
            None => {
                &&& *final(position) == *old(position)
                &&& final(velocity).current.y == old(velocity).current.y
                &&& final(player).respawning_animation_timer
                    == old(player).respawning_animation_timer
                &&& *final(jump) == *old(jump)
            },
        },
{
    player.respawn_timer.tick();

    if player.respawn_timer.just_finished() {
        if let Some(sp) = spawn_point {
            position.x = sp.x;
            position.y = sp.y + RESPAWN_RAISE;
            velocity.current.y = PLAYER_JUMP_SPEED;
            player.respawning_animation_timer = TickTimer::from_ticks(RESPAWN_ANIMATION_TICKS);
            jump.is_jumping = true;
        }
    }
}

/// Run the pop-out animation window: while it is open the actor gets the
/// same decaying upward force as a held jump; the tick it closes, the
/// respawn suspension ends (the `true` result, so the driver can restore
/// the collider and spawn-point art).
pub fn respawn_animation(player: &mut Player, velocity: &mut Velocity) -> (finished: bool)
    requires
        old(player).wf(),
        old(velocity).wf(),
    ensures
        final(player).wf(),
        final(player).respawning_animation_timer
            == old(player).respawning_animation_timer.ticked_spec(),
        final(player).stretch == old(player).stretch,
        final(player).grabbed_ceiling == old(player).grabbed_ceiling,
        final(player).respawn_timer == old(player).respawn_timer,
        final(velocity).max == old(velocity).max,
        final(velocity).damping == old(velocity).damping,
        final(velocity).current.x == old(velocity).current.x,
        final(velocity).current.y == (
        if final(player).respawning_animation_timer.remaining > 0 {
            old(velocity).current.y + scale_spec(
                JUMP_HOLD_FORCE as int,
                final(player).respawning_animation_timer.percent_left_spec(),
            )
        } else {
            old(velocity).current.y as int
        }),
        finished == final(player).respawning_animation_timer.fired,
        final(player).is_respawning == (old(player).is_respawning && !finished),
{
    player.respawning_animation_timer.tick();

    if !player.respawning_animation_timer.finished() {
        let pct = player.respawning_animation_timer.percent_left_milli();
        let force = scale_milli(JUMP_HOLD_FORCE, pct as i64);
        proof {
            crate::math::lemma_scale_shrinks(JUMP_HOLD_FORCE as int, pct as int);
        }
        velocity.current.y = velocity.current.y + force;
    }

    if player.respawning_animation_timer.just_finished() {
        player.is_respawning = false;
    }

    player.respawning_animation_timer.just_finished()
}

/// The restart key teleports the actor straight back to the spawn point.
pub fn restart_player_pos(
    position: &mut Vec2Fx,
    spawn_point: Option<Vec2Fx>,
    input: &InputState,
)
    ensures
        *final(position) == (match spawn_point {
            Some(sp) => if input.restart_just_pressed {
                sp
            } else {
                *old(position)
            },
            None => *old(position),
        }),
{
    if input.restart_just_pressed {
        if let Some(sp) = spawn_point {
            position.x = sp.x;
            position.y = sp.y;
        }
    }
}

} // verus!
