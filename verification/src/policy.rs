//! The capacity and respawn rules of a world.

use vstd::prelude::*;

verus! {

/// The largest number of bots that a world can hold alive, and the largest
/// number it can hold queued: a tile keeps the slot of its bot in one byte.
pub const MAX_BOTS: usize = 256;

/// The rules that govern how many bots a world holds and whether killed
/// bots come back.
#[derive(Clone, Copy, Debug, PartialEq, Eq, Structural)]
pub struct Policy {
    pub auto_respawn: bool,
    pub max_alive_bots: usize,
    pub max_queued_bots: usize,
}

impl Policy {
    /// Both limits fit the byte that a tile has for a bot's slot.
    pub open spec fn valid(self) -> bool {
        self.max_alive_bots <= MAX_BOTS && self.max_queued_bots <= MAX_BOTS
    }

    pub fn is_valid(&self) -> (ok: bool)
        ensures
            ok == self.valid(),
    {
        self.max_alive_bots <= MAX_BOTS && self.max_queued_bots <= MAX_BOTS
    }
}

} // verus!
