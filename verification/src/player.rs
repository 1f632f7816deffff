//! The player marker and the stat block the run physics and coin
//! economy read.

use vstd::prelude::*;

verus! {

/// Marker for the player entity.
#[derive(Clone, Copy, PartialEq, Eq, Structural, Debug)]
pub struct Player;

/// The player's stats. The run core reads `speed` (scroll rate and
/// deceleration) and `luck` (spawn interval and coin tiers) and never
/// writes any of them.
#[derive(Clone, Copy, PartialEq, Eq, Structural, Debug)]
pub struct PlayerStats {
    pub attack: i32,
    pub defence: i32,
    pub speed: i32,
    pub luck: i32,
}

impl Default for PlayerStats {
    fn default() -> (r: Self)
        ensures
            r == (PlayerStats { attack: 1i32, defence: 1i32, speed: 1i32, luck: 1i32 }),
    {
        PlayerStats { attack: 1, defence: 1, speed: 1, luck: 1 }
    }
}

} // verus!
