//! The sensor-overlap layer: per-tick overlap flags, checkpoint activation
//! and the exit door.
//!
//! Each tick the driver first clears every sensor's overlap flag, then
//! sweeps the player's collision volume (`probes::swept_sensor_probe`)
//! against sensor colliders. The cast returns at most the first hit, so at
//! most one sensor is flagged per tick — a documented first-hit tie-break,
//! not an exhaustive overlap test. The driver translates the hit entity to
//! an index into the matching component list; a hit on an entity without
//! the component arrives as `None`.

use vstd::prelude::*;
use crate::entities::{Checkpoint, Exit, Interaction, RequiredKeys};
use crate::progress::GameState;

verus! {

/// No two checkpoints are active at once.
pub open spec fn at_most_one_active(s: Seq<Checkpoint>) -> bool {
    forall|i: int, j: int|
        0 <= i < s.len() && 0 <= j < s.len() && s[i].is_active && s[j].is_active ==> i == j
}

/// Start-of-tick reset: no sensor counts as overlapped until this tick's
/// sweep says so.
pub fn reset_overlaps(interactions: &mut Vec<Interaction>)
    ensures
        final(interactions)@.len() == old(interactions)@.len(),
        forall|i: int|
            0 <= i < old(interactions)@.len() ==> final(interactions)@[i] == (Interaction {
                is_overlapping: false,
                ..old(interactions)@[i]
            }),
{
    let n = interactions.len();
    let mut idx: usize = 0;
    while idx < n
        invariant
            n == interactions@.len(),
            idx <= n,
            interactions@.len() == old(interactions)@.len(),
            forall|i: int|
                0 <= i < idx ==> interactions@[i] == (Interaction {
                    is_overlapping: false,
                    ..old(interactions)@[i]
                }),
            forall|i: int| idx <= i < n ==> interactions@[i] == old(interactions)@[i],
        decreases n - idx,
    {
        interactions[idx].is_overlapping = false;
        idx = idx + 1;
    }
}

/// Flag the sensor the player's swept volume hit this tick, unless that
/// sensor is disabled. At most this one entry changes.
pub fn handle_player_interaction(interactions: &mut Vec<Interaction>, hit: Option<usize>)
    ensures
        final(interactions)@.len() == old(interactions)@.len(),
        match hit {
            Some(i) => {
                &&& i < old(interactions)@.len() && !old(interactions)@[i as int].disabled
                    ==> final(interactions)@ == old(interactions)@.update(
                    i as int,
                    Interaction { is_overlapping: true, ..old(interactions)@[i as int] },
                )
                &&& i >= old(interactions)@.len() || old(interactions)@[i as int].disabled
                    ==> final(interactions)@ == old(interactions)@
            },
            None => final(interactions)@ == old(interactions)@,
        },
{
    if let Some(i) = hit {
        if i < interactions.len() {
            if !interactions[i].disabled {
                interactions[i].is_overlapping = true;
            }
        }
    }
}

/// Activate the checkpoint the player's swept volume hit, deactivating
/// every other one in the same step, so that no tick boundary ever sees two
/// active checkpoints. A hit on an already active checkpoint changes
/// nothing.
pub fn handle_activate_checkpoint(checkpoints: &mut Vec<Checkpoint>, hit: Option<usize>)
    ensures
        final(checkpoints)@.len() == old(checkpoints)@.len(),
        match hit {
            Some(i) => {
                &&& i < old(checkpoints)@.len() && !old(checkpoints)@[i as int].is_active ==> {
                    &&& forall|j: int|
                        0 <= j < old(checkpoints)@.len() ==> final(checkpoints)@[j].is_active == (
                        j == i)
                }
                &&& i >= old(checkpoints)@.len() || old(checkpoints)@[i as int].is_active
                    ==> final(checkpoints)@ == old(checkpoints)@
            },
            None => final(checkpoints)@ == old(checkpoints)@,
        },
        // However the tick went, checkpoint uniqueness is preserved.
        at_most_one_active(old(checkpoints)@) ==> at_most_one_active(final(checkpoints)@),
{
    let hit_index = match hit {
        Some(i) => i,
        None => {
            return ;
        },
    };

    if hit_index >= checkpoints.len() {
        return ;
    }

    if checkpoints[hit_index].is_active {
        return ;
    }

    let n = checkpoints.len();
    let mut idx: usize = 0;
    while idx < n
        invariant
            n == checkpoints@.len(),
            idx <= n,
            checkpoints@.len() == old(checkpoints)@.len(),
            forall|i: int| 0 <= i < idx ==> !checkpoints@[i].is_active,
            forall|i: int| idx <= i < n ==> checkpoints@[i] == old(checkpoints)@[i],
        decreases n - idx,
    {
        checkpoints[idx].is_active = false;
        idx = idx + 1;
    }

    checkpoints[hit_index].is_active = true;
}

/// Open every exit once the level's pin count is complete. An exit never
/// closes here; only a level reset closes it.
pub fn open_exit(exits: &mut Vec<Exit>, game: &GameState)
    ensures
        final(exits)@.len() == old(exits)@.len(),
        forall|i: int|
            0 <= i < old(exits)@.len() ==> final(exits)@[i].is_open == (old(exits)@[i].is_open
                || game.picked_keys == game.required_keys),
{
    if game.picked_keys != game.required_keys {
        return ;
    }

    let n = exits.len();
    let mut idx: usize = 0;
    while idx < n
        invariant
            n == exits@.len(),
            idx <= n,
            exits@.len() == old(exits)@.len(),
            forall|i: int| 0 <= i < idx ==> exits@[i].is_open,
            forall|i: int| idx <= i < n ==> exits@[i] == old(exits)@[i],
        decreases n - idx,
    {
        exits[idx].is_open = true;
        idx = idx + 1;
    }
}

/// An exit the player overlaps lets them through exactly when the collected
/// pins match its requirement; passing through consumes the pins and starts
/// the level transition (the `true` result, for the driver's screen fade).
pub fn handle_exit_door(
    interaction: &Interaction,
    required_keys: &RequiredKeys,
    game: &mut GameState,
) -> (transition: bool)
    ensures
        transition == (interaction.is_overlapping && old(game).picked_keys == required_keys.0 as int),
        transition ==> *final(game) == (GameState { picked_keys: 0, ..*old(game) }),
        !transition ==> *final(game) == *old(game),
{
    if !interaction.is_overlapping {
        return false;
    }

    if game.picked_keys != required_keys.0 as i64 {
        return false;
    }

    game.picked_keys = 0;
    true
}

} // verus!
