//! Collectable pins: pickup, the pickup animation edge, and the reset when
//! the level restarts.

use vstd::prelude::*;
use crate::entities::{Exit, Pin, PinState};
use crate::progress::GameState;
use crate::state::Player;

verus! {

/// The player overlaps an idle pin: its state flips to picked and the
/// collected-pin count rises. The `true` result tells the driver to refresh
/// the pin tally shown on screen.
pub fn pickup_pin(pin: &mut Pin, is_overlapping: bool, game: &mut GameState) -> (picked_now: bool)
    requires
        old(game).picked_keys < i64::MAX,
    ensures
        picked_now == (is_overlapping && !old(pin).picked),
        picked_now ==> {
            &&& final(pin).state.current is Picked
            &&& final(pin).state.previous == Some(old(pin).state.current)
            &&& final(pin).picked == old(pin).picked
            &&& final(pin).initial_position == old(pin).initial_position
            &&& *final(game) == (GameState {
                picked_keys: (old(game).picked_keys + 1) as i64,
                ..*old(game)
            })
        },
        !picked_now ==> {
            &&& *final(pin) == *old(pin)
            &&& *final(game) == *old(game)
        },
{
    if is_overlapping && !pin.picked {
        pin.state.update_value(PinState::Picked);
        game.picked_keys = game.picked_keys + 1;
        return true;
    }

    false
}

/// Consume the pickup edge: the tick a pin's state newly becomes picked,
/// mark the pickup consumed and tell the driver (`true`) to play the
/// rise-and-fade animation exactly once.
pub fn handle_pin(pin: &mut Pin) -> (animate: bool)
    ensures
        animate == (!old(pin).picked && old(pin).state.current is Picked
            && !old(pin).state.same_as_previous_spec()),
        animate ==> *final(pin) == (Pin { picked: true, ..*old(pin) }),
        !animate ==> *final(pin) == *old(pin),
{
    let newly_picked = matches!(pin.state.current, PinState::Picked)
        && !pin.state.is_same_as_previous();
    if !pin.picked && newly_picked {
        pin.picked = true;
        return true;
    }

    false
}

/// Consume the reset edge: the tick a pin's state newly becomes idle, the
/// pin returns to its resting position with its pickup restored, and the
/// driver (`true`) restarts the idle bobbing animation.
pub fn restart_pin(pin: &mut Pin, position: &mut crate::math::Vec2Fx) -> (animate: bool)
    ensures
        animate == (old(pin).state.current is Idle && !old(pin).state.same_as_previous_spec()),
        animate ==> {
            &&& *final(position) == old(pin).initial_position
            &&& final(pin).state.current is Idle
            &&& final(pin).state.previous == Some(old(pin).state.current)
            &&& !final(pin).picked
            &&& final(pin).initial_position == old(pin).initial_position
        },
        !animate ==> {
            &&& *final(pin) == *old(pin)
            &&& *final(position) == *old(position)
        },
{
    let newly_idle = matches!(pin.state.current, PinState::Idle)
        && !pin.state.is_same_as_previous();
    if newly_idle {
        position.x = pin.initial_position.x;
        position.y = pin.initial_position.y;
        pin.picked = false;
        pin.state.update_value(PinState::Idle);
        return true;
    }

    false
}

/// The tick the respawn pop-out completes, the level's collectables reset:
/// the pin tally empties, every pin goes back to idle and every exit
/// closes. The `true` result tells the driver to refresh the pin tally.
pub fn reset_level_after_restart(
    player: &Player,
    pins: &mut Vec<Pin>,
    exits: &mut Vec<Exit>,
    game: &mut GameState,
) -> (reset: bool)
    ensures
        reset == player.respawning_animation_timer.fired,
        final(pins)@.len() == old(pins)@.len(),
        final(exits)@.len() == old(exits)@.len(),
        !reset ==> {
            &&& final(pins)@ == old(pins)@
            &&& final(exits)@ == old(exits)@
            &&& *final(game) == *old(game)
        },
        reset ==> {
            &&& *final(game) == (GameState { picked_keys: 0, ..*old(game) })
            &&& forall|i: int|
                0 <= i < old(pins)@.len() ==> final(pins)@[i] == (Pin {
                    state: crate::state::WithPrevious {
                        current: PinState::Idle,
                        previous: Some(old(pins)@[i].state.current),
                    },
                    ..old(pins)@[i]
                })
            &&& forall|i: int|
                0 <= i < old(exits)@.len() ==> final(exits)@[i] == (Exit { is_open: false })
        },
{
    if !player.respawning_animation_timer.just_finished() {
        return false;
    }

    game.picked_keys = 0;

    let n = pins.len();
    let mut idx: usize = 0;
    while idx < n
        invariant
            n == pins@.len(),
            idx <= n,
            pins@.len() == old(pins)@.len(),
            forall|i: int|
                0 <= i < idx ==> pins@[i] == (Pin {
                    state: crate::state::WithPrevious {
                        current: PinState::Idle,
                        previous: Some(old(pins)@[i].state.current),
                    },
                    ..old(pins)@[i]
                }),
            forall|i: int| idx <= i < n ==> pins@[i] == old(pins)@[i],
        decreases n - idx,
    {
        pins[idx].state.update_value(PinState::Idle);
        idx = idx + 1;
    }

    let m = exits.len();
    let mut jdx: usize = 0;
    while jdx < m
        invariant
            m == exits@.len(),
            jdx <= m,
            exits@.len() == old(exits)@.len(),
            forall|i: int| 0 <= i < jdx ==> exits@[i] == (Exit { is_open: false }),
            forall|i: int| jdx <= i < m ==> exits@[i] == old(exits)@[i],
        decreases m - jdx,
    {
        exits[jdx].is_open = false;
        jdx = jdx + 1;
    }

    true
}

} // verus!
