//! Progress through the game: unlocked levels and the pins collected toward
//! the current level's exit. Persisting this record is the embedder's
//! concern.

use vstd::prelude::*;

verus! {

/// The player's progress record.
#[derive(Clone, Copy, Debug)]
pub struct GameState {
    pub unlocked_levels: i64,
    pub current_level: i64,
    pub picked_keys: i64,
    pub required_keys: i64,
}

impl Default for GameState {
    /// A fresh save: the first level reachable, nothing collected.
    fn default() -> (r: GameState)
        ensures
            r.unlocked_levels == 1,
            r.current_level == 1,
            r.picked_keys == 0,
            r.required_keys == 1,
    {
        GameState { unlocked_levels: 1, current_level: 1, picked_keys: 0, required_keys: 1 }
    }
}

impl GameState {
    /// Reaching a level beyond the furthest unlocked one unlocks it.
    pub fn update_unlocked_levels(&mut self)
        ensures
            final(self).unlocked_levels == (if old(self).current_level > old(self).unlocked_levels {
                old(self).current_level as int
            } else {
                old(self).unlocked_levels as int
            }),
            final(self).current_level == old(self).current_level,
            final(self).picked_keys == old(self).picked_keys,
            final(self).required_keys == old(self).required_keys,
    {
        if self.current_level > self.unlocked_levels {
            self.unlocked_levels = self.current_level;
        }
    }
}

} // verus!
