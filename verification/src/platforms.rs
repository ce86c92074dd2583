//! Kinematics of ridable platforms and scripted elevators.

use vstd::prelude::*;
use crate::constants::{
    COORD_LIMIT, ELEVATOR_TRAVEL_STEP, PLATFORM_DROP_TICKS, PLATFORM_OFF_SCREEN_Y,
    PLATFORM_RESTART_TICKS, PLATFORM_SINK_STEP,
};
use crate::entities::{Elevator, Level, Platform};
use crate::math::Vec2Fx;
use crate::timer::TickTimer;

verus! {

/// The high end of an elevator's travel band: `level` storeys above the
/// initial position when positive, the initial position itself when
/// negative.
pub open spec fn elevator_upper(e: Elevator, lvl: int) -> int {
    if lvl > 0 {
        e.initial_position.y + lvl * ELEVATOR_TRAVEL_STEP
    } else {
        e.initial_position.y as int
    }
}

/// The low end of an elevator's travel band.
pub open spec fn elevator_lower(e: Elevator, lvl: int) -> int {
    if lvl > 0 {
        e.initial_position.y as int
    } else {
        e.initial_position.y as int + lvl * ELEVATOR_TRAVEL_STEP
    }
}

/// The elevator never strays more than one tick's movement outside its
/// band, and outside the band its direction always points back in.
pub open spec fn elevator_in_band(pos_y: int, e: Elevator, lvl: int) -> bool {
    let step = if e.direction.y >= 0 {
        e.direction.y as int
    } else {
        -e.direction.y as int
    };
    &&& elevator_lower(e, lvl) - step <= pos_y <= elevator_upper(e, lvl) + step
    &&& pos_y > elevator_upper(e, lvl) ==> e.direction.y < 0
    &&& pos_y < elevator_lower(e, lvl) ==> e.direction.y > 0
}

/// Move an elevator one tick along its scripted direction, reversing the
/// vertical direction whenever the new position has left the travel band
/// that the level field defines. A zero level disables the elevator. The
/// oscillation is a deterministic triangle wave: once inside its band with
/// a direction, the elevator overshoots either bound by at most one tick's
/// movement before turning around. The reversal fires on strictly
/// exceeding a bound; a move that lands exactly on it reverses with the
/// next move, still within the one-step overshoot.
pub fn elevator_handle(position: &mut Vec2Fx, elevator: &mut Elevator, level: &Level)
    requires
        old(position).in_range(),
        old(elevator).initial_position.in_range(),
        old(elevator).direction.in_range(),
    ensures
        final(elevator).initial_position == old(elevator).initial_position,
        final(elevator).direction.x == old(elevator).direction.x,
        level.0 == 0 ==> {
            &&& *final(position) == *old(position)
            &&& *final(elevator) == *old(elevator)
        },
        level.0 != 0 ==> {
            &&& final(position).x == old(position).x + old(elevator).direction.x
            &&& final(position).y == old(position).y + old(elevator).direction.y
            &&& final(elevator).direction.y == (
            if final(position).y > elevator_upper(*old(elevator), level.0 as int)
                || final(position).y < elevator_lower(*old(elevator), level.0 as int) {
                -old(elevator).direction.y as int
            } else {
                old(elevator).direction.y as int
            })
        },
        // An elevator inside (or just past) its band stays there.
        level.0 != 0 && old(elevator).direction.y != 0
            && elevator_in_band(old(position).y as int, *old(elevator), level.0 as int)
            ==> elevator_in_band(final(position).y as int, *final(elevator), level.0 as int),
{
    if level.0 == 0 {
        return ;
    }

    position.x = position.x + elevator.direction.x;
    position.y = position.y + elevator.direction.y;

    let travel_bound: i64 = elevator.initial_position.y + (level.0 as i64) * ELEVATOR_TRAVEL_STEP;

    if level.0 < 0 {
        if position.y > elevator.initial_position.y {
            elevator.direction.y = -elevator.direction.y;
        } else if position.y < travel_bound {
            elevator.direction.y = -elevator.direction.y;
        }
        return ;
    }

    if position.y > travel_bound {
        elevator.direction.y = -elevator.direction.y;
    } else if position.y < elevator.initial_position.y {
        elevator.direction.y = -elevator.direction.y;
    }
}

/// First contact with the kinematic controller marks a platform stepped-on
/// and starts its drop countdown; the driver is told so it can play the
/// little dip animation. `hit` says whether the controller's collision list
/// of this tick contains the platform.
pub fn activate_platforms(platform: &mut Platform, hit: bool) -> (activated: bool)
    ensures
        !hit || old(platform).is_stepped_on ==> {
            &&& *final(platform) == *old(platform)
            &&& !activated
        },
        hit && !old(platform).is_stepped_on ==> {
            &&& *final(platform) == (Platform {
                is_stepped_on: true,
                drop_timer: TickTimer {
                    remaining: PLATFORM_DROP_TICKS,
                    total: PLATFORM_DROP_TICKS,
                    fired: false,
                },
                ..*old(platform)
            })
            &&& activated
        },
        old(platform).wf() ==> final(platform).wf(),
{
    if !hit {
        return false;
    }

    if platform.is_stepped_on {
        return false;
    }

    platform.is_stepped_on = true;
    platform.drop_timer = TickTimer::from_ticks(PLATFORM_DROP_TICKS);
    true
}

/// Run the drop countdown; once it has elapsed, a platform still being
/// stood on sinks a small step every tick.
pub fn handle_platform_dropping(platform: &mut Platform, position_y: &mut i64)
    requires
        -COORD_LIMIT <= *old(position_y) <= COORD_LIMIT,
    ensures
        final(platform).drop_timer == old(platform).drop_timer.ticked_spec(),
        final(platform).is_stepped_on == old(platform).is_stepped_on,
        final(platform).restart_timer == old(platform).restart_timer,
        final(platform).initial_pos == old(platform).initial_pos,
        *final(position_y) == (
        if final(platform).drop_timer.remaining == 0 && old(platform).is_stepped_on {
            *old(position_y) - PLATFORM_SINK_STEP
        } else {
            *old(position_y) as int
        }),
        old(platform).wf() ==> final(platform).wf(),
{
    platform.drop_timer.tick();

    if platform.drop_timer.finished() && platform.is_stepped_on {
        *position_y = *position_y - PLATFORM_SINK_STEP;
    }
}

/// Watch for a platform that has sunk off the bottom of the screen: there
/// it stops counting as stepped-on and, after a restart delay, asks the
/// driver (with a `true` result) to fly it back to its initial position.
pub fn handle_platform_off_screen(platform: &mut Platform, position: Vec2Fx) -> (restore: bool)
    ensures
        position.y > PLATFORM_OFF_SCREEN_Y ==> {
            &&& *final(platform) == *old(platform)
            &&& !restore
        },
        position.y <= PLATFORM_OFF_SCREEN_Y ==> {
            &&& !final(platform).is_stepped_on
            &&& final(platform).restart_timer == (if old(platform).is_stepped_on {
                TickTimer {
                    remaining: PLATFORM_RESTART_TICKS,
                    total: PLATFORM_RESTART_TICKS,
                    fired: false,
                }
            } else {
                old(platform).restart_timer
            }).ticked_spec()
            &&& final(platform).drop_timer == old(platform).drop_timer
            &&& final(platform).initial_pos == old(platform).initial_pos
            &&& restore == final(platform).restart_timer.fired
        },
        old(platform).wf() ==> final(platform).wf(),
{
    if position.y > PLATFORM_OFF_SCREEN_Y {
        return false;
    }

    if platform.is_stepped_on {
        platform.restart_timer = TickTimer::from_ticks(PLATFORM_RESTART_TICKS);
    }

    platform.is_stepped_on = false;
    platform.restart_timer.tick();

    platform.restart_timer.just_finished()
}

} // verus!
