//! The registry of a world's bots.

use crate::bot::{
    alive_views, dead_views, queued_views, AliveBot, AliveBotView, BotEntry, BotId, BotInfo,
    BotStatus, DeadBot, DeadBotView, KillBot, QueuedBot, QueuedBotView,
};
use crate::dir::Dir;
use crate::pos::Pos;
use vstd::prelude::*;

verus! {

/// All bots of a world, each in exactly one of three collections. The
/// queue is served from its front.
#[derive(Debug, PartialEq, Eq)]
pub struct Bots {
    pub queued: Vec<QueuedBot>,
    pub alive: Vec<AliveBot>,
    pub dead: Vec<DeadBot>,
}

/// What a registry holds.
pub struct BotsView {
    pub queued: Seq<QueuedBotView>,
    pub alive: Seq<AliveBotView>,
    pub dead: Seq<DeadBotView>,
}

impl View for Bots {
    type V = BotsView;

    open spec fn view(&self) -> BotsView {
        BotsView {
            queued: queued_views(self.queued@),
            alive: alive_views(self.alive@),
            dead: dead_views(self.dead@),
        }
    }
}

/// Whether no identifier occurs twice in `ids`.
pub fn distinct(ids: &Vec<BotId>) -> (ok: bool)
    ensures
        ok == forall|i: int, j: int| 0 <= i < j < ids@.len() ==> ids@[i] != ids@[j],
{
    let mut j: usize = 0;
    while j < ids.len()
        invariant
            j <= ids@.len(),
            forall|a: int, b: int| 0 <= a < b < j ==> ids@[a] != ids@[b],
        decreases ids@.len() - j,
    {
        let mut i: usize = 0;
        while i < j
            invariant
                i <= j < ids@.len(),
                forall|a: int| 0 <= a < i ==> ids@[a] != ids@[j as int],
            decreases j - i,
        {
            if ids[i] == ids[j] {
                return false;
            }
            i += 1;
        }
        j += 1;
    }
    true
}

/// Whether no identifier occurs in both `left` and `right`.
pub fn disjoint(left: &Vec<BotId>, right: &Vec<BotId>) -> (ok: bool)
    ensures
        ok == forall|i: int, j: int|
            0 <= i < left@.len() && 0 <= j < right@.len() ==> left@[i] != right@[j],
{
    let mut i: usize = 0;
    while i < left.len()
        invariant
            i <= left@.len(),
            forall|a: int, b: int| 0 <= a < i && 0 <= b < right@.len() ==> left@[a] != right@[b],
        decreases left@.len() - i,
    {
        let mut j: usize = 0;
        while j < right.len()
            invariant
                i < left@.len(),
                j <= right@.len(),
                forall|b: int| 0 <= b < j ==> left@[i as int] != right@[b],
            decreases right@.len() - j,
        {
            if left[i] == right[j] {
                return false;
            }
            j += 1;
        }
        i += 1;
    }
    true
}

/// Whether a bot with this identifier is among `alive`.
pub open spec fn alive_in(alive: Seq<AliveBot>, id: BotId) -> bool {
    exists|i: int| 0 <= i < alive.len() && (#[trigger] alive[i]).id == id
}

/// The slot in `alive` of the bot with this identifier.
pub open spec fn slot_in(alive: Seq<AliveBot>, id: BotId) -> int {
    choose|i: int| 0 <= i < alive.len() && (#[trigger] alive[i]).id == id
}

/// Whether a bot of `alive` other than `id` stands at `pos`.
pub open spec fn blocked_in(alive: Seq<AliveBot>, id: BotId, pos: Pos) -> bool {
    exists|i: int| 0 <= i < alive.len() && (#[trigger] alive[i]).pos == pos && alive[i].id != id
}

/// The bots of `alive` with the bot `id` given a new place, facing and
/// execution state.
pub open spec fn moved_in(alive: Seq<AliveBot>, id: BotId, pos: Pos, dir: Dir, state: Vec<u8>) -> Seq<
    AliveBot,
> {
    let slot = slot_in(alive, id);
    alive.update(
        slot,
        AliveBot {
            id,
            pos,
            dir,
            firmware: alive[slot].firmware,
            state,
            ephemeral: alive[slot].ephemeral,
        },
    )
}

/// Whether `alive_after` and `dead_after` are `alive` and `dead` with the
/// bot `id` taken from the alive ones and put at the end of the dead ones,
/// killed by `killer` for the given reason.
pub open spec fn killed_in(
    alive: Seq<AliveBot>,
    dead: Seq<DeadBot>,
    alive_after: Seq<AliveBot>,
    dead_after: Seq<DeadBot>,
    id: BotId,
    reason: Seq<char>,
    killer: Option<BotId>,
) -> bool {
    let slot = slot_in(alive, id);
    &&& alive_after == alive.remove(slot)
    &&& dead_after.len() == dead.len() + 1
    &&& dead_after.drop_last() == dead
    &&& dead_after.last().id == id
    &&& dead_after.last().reason@ == reason
    &&& dead_after.last().killer == killer
    &&& dead_after.last().firmware == alive[slot].firmware
    &&& dead_after.last().ephemeral == alive[slot].ephemeral
}

/// What clearing the dead away makes of a queue and of the dead, where bots
/// respawn and the queue holds `max_queued` bots at most. The dead leave in
/// the order in which they died: a bot that is gone for good is dropped, any
/// other goes to the end of the queue, and the clearing stops at the first
/// bot for which the queue has no room.
pub open spec fn cleared(queued: Seq<QueuedBot>, dead: Seq<DeadBot>, max_queued: int) -> (
    Seq<QueuedBot>,
    Seq<DeadBot>,
)
    decreases dead.len(),
{
    if dead.len() == 0 {
        (queued, dead)
    } else if dead[0].ephemeral {
        cleared(queued, dead.skip(1), max_queued)
    } else if queued.len() < max_queued {
        cleared(queued.push(dead[0].requeued()), dead.skip(1), max_queued)
    } else {
        (queued, dead)
    }
}

/// Clearing the dead away only adds to the end of the queue, and what it
/// adds are bots that were alive before and that are not gone for good; the
/// queue grows no longer than it may, unless it was too long already.
pub proof fn lemma_cleared_queue(queued: Seq<QueuedBot>, dead: Seq<DeadBot>, max_queued: int)
    ensures
        ({
            let after = cleared(queued, dead, max_queued).0;
            &&& queued.len() <= after.len() <= queued.len() + dead.len()
            &&& after.take(queued.len() as int) == queued
            &&& queued.len() <= max_queued ==> after.len() <= max_queued
            &&& forall|i: int|
                queued.len() <= i < after.len() ==> (#[trigger] after[i]).requeued
                    && !after[i].ephemeral
        }),
    decreases dead.len(),
{
    let after = cleared(queued, dead, max_queued).0;
    if dead.len() == 0 {
        assert(after.take(queued.len() as int) =~= queued);
    } else if dead[0].ephemeral {
        lemma_cleared_queue(queued, dead.skip(1), max_queued);
    } else if queued.len() < max_queued {
        let longer = queued.push(dead[0].requeued());
        lemma_cleared_queue(longer, dead.skip(1), max_queued);
        assert(after.take(queued.len() as int) =~= after.take(longer.len() as int).take(
            queued.len() as int,
        ));
        assert(longer.take(queued.len() as int) =~= queued);
        assert forall|i: int| queued.len() <= i < after.len() implies (#[trigger] after[i]).requeued
            && !after[i].ephemeral by {
            if i == queued.len() {
                assert(after.take(longer.len() as int)[i] == longer[i]);
            }
        }
    } else {
        assert(after.take(queued.len() as int) =~= queued);
    }
}

/// Where none of the dead is gone for good, clearing them away puts the
/// longest dead back into the queue, in their order, as far as the queue
/// has room, and leaves the others dead.
pub proof fn lemma_cleared_without_ephemeral(
    queued: Seq<QueuedBot>,
    dead: Seq<DeadBot>,
    max_queued: int,
)
    requires
        forall|i: int| 0 <= i < dead.len() ==> !(#[trigger] dead[i]).ephemeral,
    ensures
        ({
            let room = if queued.len() < max_queued {
                max_queued - queued.len()
            } else {
                0
            };
            let n = if dead.len() <= room {
                dead.len() as int
            } else {
                room
            };
            cleared(queued, dead, max_queued) == (
                queued + dead.take(n).map_values(|bot: DeadBot| bot.requeued()),
                dead.skip(n),
            )
        }),
    decreases dead.len(),
{
    let room = if queued.len() < max_queued {
        max_queued - queued.len()
    } else {
        0
    };
    let n = if dead.len() <= room {
        dead.len() as int
    } else {
        room
    };
    let moved = dead.take(n).map_values(|bot: DeadBot| bot.requeued());
    if dead.len() == 0 || queued.len() >= max_queued {
        assert(queued + moved =~= queued);
        assert(dead.skip(n) =~= dead);
    } else {
        let longer = queued.push(dead[0].requeued());
        let rest = dead.skip(1);
        lemma_cleared_without_ephemeral(longer, rest, max_queued);
        let moved_rest = rest.take(n - 1).map_values(|bot: DeadBot| bot.requeued());
        assert(queued + moved =~= longer + moved_rest);
        assert(dead.skip(n) =~= rest.skip(n - 1));
    }
}

/// Why an alive bot could not be moved.
#[derive(Clone, Copy, Debug, PartialEq, Eq, Structural)]
pub enum MoveError {
    /// No alive bot has the identifier.
    NotAlive,
    /// Another bot stands on the tile.
    Occupied,
}

/// Why a queued bot could not be brought to life.
#[derive(Clone, Copy, Debug, PartialEq, Eq, Structural)]
pub enum PromoteError {
    /// No queued bot has the identifier.
    NotQueued,
    /// As many bots are alive as may be.
    Full,
    /// Another bot stands on the tile.
    Occupied,
}

impl Bots {
    pub open spec fn is_queued(self, id: BotId) -> bool {
        exists|i: int| 0 <= i < self.queued@.len() && (#[trigger] self.queued@[i]).id == id
    }

    pub open spec fn is_alive(self, id: BotId) -> bool {
        alive_in(self.alive@, id)
    }

    pub open spec fn is_dead(self, id: BotId) -> bool {
        exists|i: int| 0 <= i < self.dead@.len() && (#[trigger] self.dead@[i]).id == id
    }

    /// Whether any of the three collections holds a bot with this
    /// identifier.
    pub open spec fn has(self, id: BotId) -> bool {
        self.is_queued(id) || self.is_alive(id) || self.is_dead(id)
    }

    /// Whether an alive bot stands at `pos`.
    pub open spec fn occupied(self, pos: Pos) -> bool {
        exists|i: int| 0 <= i < self.alive@.len() && (#[trigger] self.alive@[i]).pos == pos
    }

    /// The place in the queue of the bot with this identifier.
    pub open spec fn queued_slot(self, id: BotId) -> int {
        choose|i: int| 0 <= i < self.queued@.len() && (#[trigger] self.queued@[i]).id == id
    }

    /// The slot among the alive bots of the bot with this identifier.
    pub open spec fn alive_slot(self, id: BotId) -> int {
        slot_in(self.alive@, id)
    }

    /// The place among the dead bots of the bot with this identifier.
    pub open spec fn dead_slot(self, id: BotId) -> int {
        choose|i: int| 0 <= i < self.dead@.len() && (#[trigger] self.dead@[i]).id == id
    }

    /// The slot of the alive bot that stands at `pos`.
    pub open spec fn slot_at(self, pos: Pos) -> int {
        choose|i: int| 0 <= i < self.alive@.len() && (#[trigger] self.alive@[i]).pos == pos
    }

    /// Whether `after` is this registry with the alive bot `id` moved to the
    /// end of the dead ones, killed by `killer` for the given reason, and
    /// nothing else changed.
    pub open spec fn killed(self, after: Bots, id: BotId, reason: Seq<char>, killer: Option<BotId>) -> bool {
        &&& after.queued@ == self.queued@
        &&& killed_in(self.alive@, self.dead@, after.alive@, after.dead@, id, reason, killer)
    }

    /// Whether `after` holds the same bots as this registry, in the same
    /// order.
    pub open spec fn same(self, after: Bots) -> bool {
        &&& after.queued@ == self.queued@
        &&& after.alive@ == self.alive@
        &&& after.dead@ == self.dead@
    }

    /// No identifier occurs twice, within a collection or across them, and
    /// no two alive bots stand on one tile.
    pub open spec fn wf(self) -> bool {
        &&& forall|i: int, j: int|
            0 <= i < j < self.queued@.len() ==> (#[trigger] self.queued@[i]).id != (
            #[trigger] self.queued@[j]).id
        &&& forall|i: int, j: int|
            0 <= i < j < self.alive@.len() ==> (#[trigger] self.alive@[i]).id != (
            #[trigger] self.alive@[j]).id
        &&& forall|i: int, j: int|
            0 <= i < j < self.dead@.len() ==> (#[trigger] self.dead@[i]).id != (
            #[trigger] self.dead@[j]).id
        &&& forall|i: int, j: int|
            0 <= i < self.queued@.len() && 0 <= j < self.alive@.len() ==> (
            #[trigger] self.queued@[i]).id != (#[trigger] self.alive@[j]).id
        &&& forall|i: int, j: int|
            0 <= i < self.queued@.len() && 0 <= j < self.dead@.len() ==> (
            #[trigger] self.queued@[i]).id != (#[trigger] self.dead@[j]).id
        &&& forall|i: int, j: int|
            0 <= i < self.alive@.len() && 0 <= j < self.dead@.len() ==> (
            #[trigger] self.alive@[i]).id != (#[trigger] self.dead@[j]).id
        &&& forall|i: int, j: int|
            0 <= i < j < self.alive@.len() ==> (#[trigger] self.alive@[i]).pos != (
            #[trigger] self.alive@[j]).pos
    }

    /// A registry without bots.
    pub fn new() -> (bots: Bots)
        ensures
            bots.wf(),
            bots.queued@.len() == 0,
            bots.alive@.len() == 0,
            bots.dead@.len() == 0,
    {
        Bots { queued: Vec::new(), alive: Vec::new(), dead: Vec::new() }
    }

    /// The place in the queue of the bot with this identifier.
    pub fn find_queued(&self, id: BotId) -> (slot: Option<usize>)
        ensures
            slot.is_some() == self.is_queued(id),
            slot matches Some(i) ==> i < self.queued@.len() && self.queued@[i as int].id == id,
    {
        let mut i: usize = 0;
        while i < self.queued.len()
            invariant
                i <= self.queued@.len(),
                forall|k: int| 0 <= k < i ==> (#[trigger] self.queued@[k]).id != id,
            decreases self.queued@.len() - i,
        {
            if self.queued[i].id == id {
                return Some(i);
            }
            i += 1;
        }
        None
    }

    /// The slot among the alive bots of the bot with this identifier.
    pub fn find_alive(&self, id: BotId) -> (slot: Option<usize>)
        ensures
            slot.is_some() == self.is_alive(id),
            slot matches Some(i) ==> i < self.alive@.len() && self.alive@[i as int].id == id,
    {
        let mut i: usize = 0;
        while i < self.alive.len()
            invariant
                i <= self.alive@.len(),
                forall|k: int| 0 <= k < i ==> (#[trigger] self.alive@[k]).id != id,
            decreases self.alive@.len() - i,
        {
            if self.alive[i].id == id {
                return Some(i);
            }
            i += 1;
        }
        None
    }

    /// The place among the dead bots of the bot with this identifier.
    pub fn find_dead(&self, id: BotId) -> (slot: Option<usize>)
        ensures
            slot.is_some() == self.is_dead(id),
            slot matches Some(i) ==> i < self.dead@.len() && self.dead@[i as int].id == id,
    {
        let mut i: usize = 0;
        while i < self.dead.len()
            invariant
                i <= self.dead@.len(),
                forall|k: int| 0 <= k < i ==> (#[trigger] self.dead@[k]).id != id,
            decreases self.dead@.len() - i,
        {
            if self.dead[i].id == id {
                return Some(i);
            }
            i += 1;
        }
        None
    }

    /// The slot of the alive bot that stands at `pos`.
    pub fn find_at(&self, pos: Pos) -> (slot: Option<usize>)
        ensures
            slot.is_some() == self.occupied(pos),
            slot matches Some(i) ==> i < self.alive@.len() && self.alive@[i as int].pos == pos,
    {
        let mut i: usize = 0;
        while i < self.alive.len()
            invariant
                i <= self.alive@.len(),
                forall|k: int| 0 <= k < i ==> (#[trigger] self.alive@[k]).pos != pos,
            decreases self.alive@.len() - i,
        {
            if self.alive[i].pos == pos {
                return Some(i);
            }
            i += 1;
        }
        None
    }

    /// The alive bot with this identifier.
    pub fn get_alive(&self, id: BotId) -> (bot: Option<&AliveBot>)
        requires
            self.wf(),
        ensures
            bot.is_some() == self.is_alive(id),
            bot matches Some(bot) ==> *bot == self.alive@[self.alive_slot(id)] && bot.id == id,
    {
        match self.find_alive(id) {
            Some(slot) => Some(&self.alive[slot]),
            None => None,
        }
    }

    /// The bot that stands at `pos`.
    pub fn at(&self, pos: Pos) -> (id: Option<BotId>)
        requires
            self.wf(),
        ensures
            id.is_some() == self.occupied(pos),
            id matches Some(id) ==> self.is_alive(id) && self.alive@[self.alive_slot(id)].pos
                == pos,
    {
        match self.find_at(pos) {
            Some(slot) => Some(self.alive[slot].id),
            None => None,
        }
    }

    /// A bot is in one state at a time: queued, alive or dead.
    pub proof fn one_state_per_bot(self, id: BotId)
        requires
            self.wf(),
        ensures
            !(self.is_queued(id) && self.is_alive(id)),
            !(self.is_queued(id) && self.is_dead(id)),
            !(self.is_alive(id) && self.is_dead(id)),
    {
    }

    /// Whether any collection holds a bot with this identifier.
    pub fn contains(&self, id: BotId) -> (found: bool)
        ensures
            found == self.has(id),
    {
        self.find_queued(id).is_some() || self.find_alive(id).is_some() || self.find_dead(
            id,
        ).is_some()
    }

    /// Appends a bot to the queue.
    pub fn enqueue(&mut self, bot: QueuedBot)
        requires
            old(self).wf(),
            !old(self).has(bot.id),
        ensures
            final(self).wf(),
            final(self).queued@ == old(self).queued@.push(bot),
            final(self).alive@ == old(self).alive@,
            final(self).dead@ == old(self).dead@,
    {
        self.queued.push(bot);
    }

    /// Moves an alive bot to the dead ones, if the bot is alive.
    pub fn kill(&mut self, kill: KillBot) -> (killed: bool)
        requires
            old(self).wf(),
        ensures
            final(self).wf(),
            killed == old(self).is_alive(kill.id),
            final(self).queued@ == old(self).queued@,
            killed ==> {
                let slot = old(self).alive_slot(kill.id);
                &&& final(self).alive@ == old(self).alive@.remove(slot)
                &&& final(self).dead@ == old(self).dead@.push(
                    (DeadBot {
                        id: kill.id,
                        reason: kill.reason,
                        killer: kill.killer,
                        firmware: old(self).alive@[slot].firmware,
                        ephemeral: old(self).alive@[slot].ephemeral,
                    }),
                )
            },
            !killed ==> *final(self) == *old(self),
    {
        match self.find_alive(kill.id) {
            Some(slot) => {
                let bot = self.alive.remove(slot);
                self.dead.push(bot.kill(kill.reason, kill.killer));
                true
            },
            None => false,
        }
    }

    /// Brings a queued bot to life at `pos`, facing `dir`, with a fresh
    /// execution state. Nothing changes when the bot is not queued, when
    /// `max_alive` bots are alive already, or when a bot stands at `pos`.
    pub fn promote(&mut self, id: BotId, pos: Pos, dir: Dir, max_alive: usize) -> (result: Result<
        (),
        PromoteError,
    >)
        requires
            old(self).wf(),
        ensures
            final(self).wf(),
            final(self).dead@ == old(self).dead@,
            result == Bots::promotion(*old(self), id, pos, max_alive),
            result.is_ok() ==> {
                let slot = old(self).queued_slot(id);
                &&& final(self).queued@ == old(self).queued@.remove(slot)
                &&& final(self).alive@.len() == old(self).alive@.len() + 1
                &&& final(self).alive@.drop_last() == old(self).alive@
                &&& final(self).alive@.last().id == id
                &&& final(self).alive@.last().pos == pos
                &&& final(self).alive@.last().dir == dir
                &&& final(self).alive@.last().firmware == old(self).queued@[slot].firmware
                &&& final(self).alive@.last().state@.len() == 0
                &&& final(self).alive@.last().ephemeral == old(self).queued@[slot].ephemeral
            },
            result.is_err() ==> *final(self) == *old(self),
    {
        let slot = match self.find_queued(id) {
            Some(slot) => slot,
            None => {
                return Err(PromoteError::NotQueued);
            },
        };
        if self.alive.len() >= max_alive {
            return Err(PromoteError::Full);
        }
        if self.find_at(pos).is_some() {
            return Err(PromoteError::Occupied);
        }
        let bot = self.queued.remove(slot);
        self.alive.push(bot.come_to_life(pos, dir));
        assert(self.alive@.drop_last() =~= old(self).alive@);
        Ok(())
    }

    /// Whether `promote` succeeds, and why not.
    pub open spec fn promotion(bots: Bots, id: BotId, pos: Pos, max_alive: usize) -> Result<
        (),
        PromoteError,
    > {
        if !bots.is_queued(id) {
            Err(PromoteError::NotQueued)
        } else if bots.alive@.len() >= max_alive {
            Err(PromoteError::Full)
        } else if bots.occupied(pos) {
            Err(PromoteError::Occupied)
        } else {
            Ok(())
        }
    }

    /// Takes the bot with this identifier out of the registry, whatever its
    /// state.
    pub fn remove(&mut self, id: BotId) -> (removed: bool)
        requires
            old(self).wf(),
        ensures
            final(self).wf(),
            removed == old(self).has(id),
            !removed ==> *final(self) == *old(self),
            !final(self).has(id),
            final(self).queued@ == if old(self).is_queued(id) {
                old(self).queued@.remove(old(self).queued_slot(id))
            } else {
                old(self).queued@
            },
            final(self).alive@ == if old(self).is_alive(id) {
                old(self).alive@.remove(old(self).alive_slot(id))
            } else {
                old(self).alive@
            },
            final(self).dead@ == if old(self).is_dead(id) {
                old(self).dead@.remove(old(self).dead_slot(id))
            } else {
                old(self).dead@
            },
    {
        if let Some(slot) = self.find_queued(id) {
            self.queued.remove(slot);
            true
        } else if let Some(slot) = self.find_alive(id) {
            self.alive.remove(slot);
            true
        } else if let Some(slot) = self.find_dead(id) {
            self.dead.remove(slot);
            true
        } else {
            false
        }
    }

    /// Whether an alive bot other than `id` stands at `pos`.
    pub open spec fn blocked(self, id: BotId, pos: Pos) -> bool {
        blocked_in(self.alive@, id, pos)
    }

    /// Whether `relocate` succeeds, and why not.
    pub open spec fn relocation(self, id: BotId, pos: Pos) -> Result<(), MoveError> {
        if !self.is_alive(id) {
            Err(MoveError::NotAlive)
        } else if self.blocked(id, pos) {
            Err(MoveError::Occupied)
        } else {
            Ok(())
        }
    }

    /// Gives an alive bot a new place, facing and execution state. Nothing
    /// changes when the bot is not alive or another bot stands at `pos`.
    pub fn relocate(&mut self, id: BotId, pos: Pos, dir: Dir, state: Vec<u8>) -> (result: Result<
        (),
        MoveError,
    >)
        requires
            old(self).wf(),
        ensures
            final(self).wf(),
            final(self).queued@ == old(self).queued@,
            final(self).dead@ == old(self).dead@,
            result == old(self).relocation(id, pos),
            result.is_ok() ==> final(self).alive@ == moved_in(old(self).alive@, id, pos, dir, state),
            result.is_err() ==> *final(self) == *old(self),
    {
        let slot = match self.find_alive(id) {
            Some(slot) => slot,
            None => {
                return Err(MoveError::NotAlive);
            },
        };
        if let Some(other) = self.find_at(pos) {
            if other != slot {
                return Err(MoveError::Occupied);
            }
        }
        let bot = self.alive.remove(slot);
        self.alive.insert(
            slot,
            AliveBot { id, pos, dir, firmware: bot.firmware, state, ephemeral: bot.ephemeral },
        );
        assert(self.alive@ =~= moved_in(old(self).alive@, id, pos, dir, state));
        Ok(())
    }

    /// Clears the dead bots away. Where bots respawn, the dead ones leave
    /// in the order in which they died: a bot that is gone for good is
    /// dropped, any other goes to the end of the queue, and the clearing
    /// stops at the first bot for which the queue has no room. Where bots do
    /// not respawn, all of the dead are dropped.
    pub fn recycle(&mut self, auto_respawn: bool, max_queued: usize)
        requires
            old(self).wf(),
        ensures
            final(self).wf(),
            final(self).alive@ == old(self).alive@,
            old(self).queued@.len() <= max_queued ==> final(self).queued@.len() <= max_queued,
            !auto_respawn ==> final(self).queued@ == old(self).queued@ && final(self).dead@.len()
                == 0,
            auto_respawn ==> (final(self).queued@, final(self).dead@) == cleared(
                old(self).queued@,
                old(self).dead@,
                max_queued as int,
            ),
    {
        if !auto_respawn {
            self.dead.clear();
            return;
        }
        while self.dead.len() > 0 && (self.dead[0].ephemeral || self.queued.len() < max_queued)
            invariant
                self.wf(),
                self.alive@ == old(self).alive@,
                old(self).queued@.len() <= max_queued ==> self.queued@.len() <= max_queued,
                cleared(self.queued@, self.dead@, max_queued as int) == cleared(
                    old(self).queued@,
                    old(self).dead@,
                    max_queued as int,
                ),
            decreases self.dead@.len(),
        {
            let ghost dead = self.dead@;
            let bot = self.dead.remove(0);
            assert(self.dead@ =~= dead.skip(1));
            if !bot.ephemeral {
                self.queued.push(bot.requeue());
            }
        }
    }

    /// The identifiers of the alive bots, by slot.
    pub fn alive_ids(&self) -> (ids: Vec<BotId>)
        ensures
            ids@ == self.alive@.map_values(|bot: AliveBot| bot.id),
    {
        let mut ids: Vec<BotId> = Vec::new();
        let mut i: usize = 0;
        while i < self.alive.len()
            invariant
                i <= self.alive@.len(),
                ids@ == self.alive@.take(i as int).map_values(|bot: AliveBot| bot.id),
            decreases self.alive@.len() - i,
        {
            ids.push(self.alive[i].id);
            assert(ids@ =~= self.alive@.take(i + 1).map_values(|bot: AliveBot| bot.id));
            i += 1;
        }
        assert(self.alive@.take(i as int) =~= self.alive@);
        ids
    }

    /// Whether `entries` are copies of all bots: the queued ones, then the
    /// alive ones, then the dead ones, each collection in its own order.
    pub open spec fn listed_as(self, entries: Seq<BotEntry>) -> bool {
        let queued = self.queued@.len() as int;
        let alive = self.alive@.len() as int;
        &&& entries.len() == queued + alive + self.dead@.len()
        &&& forall|i: int|
            0 <= i < queued ==> (#[trigger] entries[i] matches BotEntry::Queued(bot) && bot@
                == self.queued@[i]@)
        &&& forall|i: int|
            0 <= i < alive ==> (#[trigger] entries[queued + i] matches BotEntry::Alive(bot)
                && bot@ == self.alive@[i]@)
        &&& forall|i: int|
            0 <= i < self.dead@.len() ==> (#[trigger] entries[queued + alive + i] matches BotEntry::Dead(
                bot,
            ) && bot@ == self.dead@[i]@)
    }

    /// Copies of all bots, each in its state.
    pub fn entries(&self) -> (entries: Vec<BotEntry>)
        ensures
            self.listed_as(entries@),
    {
        let mut entries: Vec<BotEntry> = Vec::new();
        let mut i: usize = 0;
        while i < self.queued.len()
            invariant
                i <= self.queued@.len(),
                entries@.len() == i,
                forall|k: int|
                    0 <= k < i ==> (#[trigger] entries@[k] matches BotEntry::Queued(bot) && bot@
                        == self.queued@[k]@),
            decreases self.queued@.len() - i,
        {
            entries.push(BotEntry::Queued(self.queued[i].duplicate()));
            i += 1;
        }
        let queued = self.queued.len();
        let mut i: usize = 0;
        while i < self.alive.len()
            invariant
                i <= self.alive@.len(),
                queued == self.queued@.len(),
                entries@.len() == queued + i,
                forall|k: int|
                    0 <= k < queued ==> (#[trigger] entries@[k] matches BotEntry::Queued(bot)
                        && bot@ == self.queued@[k]@),
                forall|k: int|
                    0 <= k < i ==> (#[trigger] entries@[queued + k] matches BotEntry::Alive(bot)
                        && bot@ == self.alive@[k]@),
            decreases self.alive@.len() - i,
        {
            entries.push(BotEntry::Alive(self.alive[i].duplicate()));
            i += 1;
        }
        let alive = self.alive.len();
        let mut i: usize = 0;
        while i < self.dead.len()
            invariant
                i <= self.dead@.len(),
                queued == self.queued@.len(),
                alive == self.alive@.len(),
                entries@.len() == queued + alive + i,
                forall|k: int|
                    0 <= k < queued ==> (#[trigger] entries@[k] matches BotEntry::Queued(bot)
                        && bot@ == self.queued@[k]@),
                forall|k: int|
                    0 <= k < alive ==> (#[trigger] entries@[queued + k] matches BotEntry::Alive(
                        bot,
                    ) && bot@ == self.alive@[k]@),
                forall|k: int|
                    0 <= k < i ==> (#[trigger] entries@[queued + alive + k] matches BotEntry::Dead(
                        bot,
                    ) && bot@ == self.dead@[k]@),
            decreases self.dead@.len() - i,
        {
            entries.push(BotEntry::Dead(self.dead[i].duplicate()));
            i += 1;
        }
        entries
    }

    /// What `infos` tells: the queued bots, then the alive ones, then the
    /// dead ones, each collection in its own order.
    pub open spec fn summary(self) -> Seq<BotInfo> {
        self.queued@.map_values(|bot: QueuedBot| BotInfo { id: bot.id, status: BotStatus::Queued })
            + self.alive@.map_values(
            |bot: AliveBot| BotInfo { id: bot.id, status: BotStatus::Alive },
        ) + self.dead@.map_values(|bot: DeadBot| BotInfo { id: bot.id, status: BotStatus::Dead })
    }

    /// The identifier and state of every bot.
    pub fn infos(&self) -> (infos: Vec<BotInfo>)
        ensures
            infos@ == self.summary(),
    {
        let mut infos: Vec<BotInfo> = Vec::new();
        let ghost queued = self.queued@.map_values(
            |bot: QueuedBot| BotInfo { id: bot.id, status: BotStatus::Queued },
        );
        let ghost alive = self.alive@.map_values(
            |bot: AliveBot| BotInfo { id: bot.id, status: BotStatus::Alive },
        );
        let ghost dead = self.dead@.map_values(
            |bot: DeadBot| BotInfo { id: bot.id, status: BotStatus::Dead },
        );
        let mut i: usize = 0;
        while i < self.queued.len()
            invariant
                i <= self.queued@.len(),
                queued == self.queued@.map_values(
                    |bot: QueuedBot| BotInfo { id: bot.id, status: BotStatus::Queued },
                ),
                infos@ == queued.take(i as int),
            decreases self.queued@.len() - i,
        {
            infos.push(BotInfo { id: self.queued[i].id, status: BotStatus::Queued });
            assert(infos@ =~= queued.take(i + 1));
            i += 1;
        }
        assert(infos@ =~= queued);
        let mut i: usize = 0;
        while i < self.alive.len()
            invariant
                i <= self.alive@.len(),
                alive == self.alive@.map_values(
                    |bot: AliveBot| BotInfo { id: bot.id, status: BotStatus::Alive },
                ),
                infos@ == queued + alive.take(i as int),
            decreases self.alive@.len() - i,
        {
            infos.push(BotInfo { id: self.alive[i].id, status: BotStatus::Alive });
            assert(infos@ =~= queued + alive.take(i + 1));
            i += 1;
        }
        assert(infos@ =~= queued + alive);
        let mut i: usize = 0;
        while i < self.dead.len()
            invariant
                i <= self.dead@.len(),
                dead == self.dead@.map_values(
                    |bot: DeadBot| BotInfo { id: bot.id, status: BotStatus::Dead },
                ),
                infos@ == queued + alive + dead.take(i as int),
            decreases self.dead@.len() - i,
        {
            infos.push(BotInfo { id: self.dead[i].id, status: BotStatus::Dead });
            assert(infos@ =~= queued + alive + dead.take(i + 1));
            i += 1;
        }
        assert(infos@ =~= queued + alive + dead);
        infos
    }

    /// The identifiers of the queued bots, from the front of the queue.
    pub fn queued_ids(&self) -> (ids: Vec<BotId>)
        ensures
            ids@ == self.queued@.map_values(|bot: QueuedBot| bot.id),
    {
        let mut ids: Vec<BotId> = Vec::new();
        let mut i: usize = 0;
        while i < self.queued.len()
            invariant
                i <= self.queued@.len(),
                ids@ == self.queued@.take(i as int).map_values(|bot: QueuedBot| bot.id),
            decreases self.queued@.len() - i,
        {
            ids.push(self.queued[i].id);
            assert(ids@ =~= self.queued@.take(i + 1).map_values(|bot: QueuedBot| bot.id));
            i += 1;
        }
        assert(self.queued@.take(i as int) =~= self.queued@);
        ids
    }

    /// The identifiers of the dead bots, the longest dead first.
    pub fn dead_ids(&self) -> (ids: Vec<BotId>)
        ensures
            ids@ == self.dead@.map_values(|bot: DeadBot| bot.id),
    {
        let mut ids: Vec<BotId> = Vec::new();
        let mut i: usize = 0;
        while i < self.dead.len()
            invariant
                i <= self.dead@.len(),
                ids@ == self.dead@.take(i as int).map_values(|bot: DeadBot| bot.id),
            decreases self.dead@.len() - i,
        {
            ids.push(self.dead[i].id);
            assert(ids@ =~= self.dead@.take(i + 1).map_values(|bot: DeadBot| bot.id));
            i += 1;
        }
        assert(self.dead@.take(i as int) =~= self.dead@);
        ids
    }

    /// Whether no two alive bots stand on one tile.
    fn apart(&self) -> (ok: bool)
        ensures
            ok == forall|i: int, j: int|
                0 <= i < j < self.alive@.len() ==> (#[trigger] self.alive@[i]).pos != (
                #[trigger] self.alive@[j]).pos,
    {
        let mut j: usize = 0;
        while j < self.alive.len()
            invariant
                j <= self.alive@.len(),
                forall|a: int, b: int|
                    0 <= a < b < j ==> (#[trigger] self.alive@[a]).pos != (
                    #[trigger] self.alive@[b]).pos,
            decreases self.alive@.len() - j,
        {
            let mut i: usize = 0;
            while i < j
                invariant
                    i <= j < self.alive@.len(),
                    forall|a: int|
                        0 <= a < i ==> (#[trigger] self.alive@[a]).pos != self.alive@[j as int].pos,
                decreases j - i,
            {
                if self.alive[i].pos == self.alive[j].pos {
                    return false;
                }
                i += 1;
            }
            j += 1;
        }
        true
    }

    /// Whether the registry is sound.
    pub fn check(&self) -> (ok: bool)
        ensures
            ok == self.wf(),
    {
        let queued = self.queued_ids();
        let alive = self.alive_ids();
        let dead = self.dead_ids();
        proof {
            assert forall|i: int| 0 <= i < queued@.len() implies queued@[i] == (
            #[trigger] self.queued@[i]).id by {}
            assert forall|i: int| 0 <= i < alive@.len() implies alive@[i] == (
            #[trigger] self.alive@[i]).id by {}
            assert forall|i: int| 0 <= i < dead@.len() implies dead@[i] == (
            #[trigger] self.dead@[i]).id by {}
        }
        distinct(&queued) && distinct(&alive) && distinct(&dead) && disjoint(&queued, &alive)
            && disjoint(&queued, &dead) && disjoint(&alive, &dead) && self.apart()
    }

    /// A copy of this registry.
    pub fn duplicate(&self) -> (copy: Bots)
        ensures
            copy@ == self@,
    {
        let mut queued: Vec<QueuedBot> = Vec::new();
        let mut i: usize = 0;
        while i < self.queued.len()
            invariant
                i <= self.queued@.len(),
                queued@.len() == i,
                queued_views(queued@) == self@.queued.take(i as int),
            decreases self.queued@.len() - i,
        {
            let ghost before = queued@;
            queued.push(self.queued[i].duplicate());
            assert forall|k: int| 0 <= k < i + 1 implies queued_views(queued@)[k] == self@.queued[k] by {
                if k < i {
                    assert(queued_views(before)[k] == self@.queued.take(i as int)[k]);
                }
            }
            assert(queued_views(queued@) =~= self@.queued.take(i + 1));
            i += 1;
        }
        let mut alive: Vec<AliveBot> = Vec::new();
        let mut i: usize = 0;
        while i < self.alive.len()
            invariant
                i <= self.alive@.len(),
                alive@.len() == i,
                alive_views(alive@) == self@.alive.take(i as int),
            decreases self.alive@.len() - i,
        {
            let ghost before = alive@;
            alive.push(self.alive[i].duplicate());
            assert forall|k: int| 0 <= k < i + 1 implies alive_views(alive@)[k] == self@.alive[k] by {
                if k < i {
                    assert(alive_views(before)[k] == self@.alive.take(i as int)[k]);
                }
            }
            assert(alive_views(alive@) =~= self@.alive.take(i + 1));
            i += 1;
        }
        let mut dead: Vec<DeadBot> = Vec::new();
        let mut i: usize = 0;
        while i < self.dead.len()
            invariant
                i <= self.dead@.len(),
                dead@.len() == i,
                dead_views(dead@) == self@.dead.take(i as int),
            decreases self.dead@.len() - i,
        {
            let ghost before = dead@;
            dead.push(self.dead[i].duplicate());
            assert forall|k: int| 0 <= k < i + 1 implies dead_views(dead@)[k] == self@.dead[k] by {
                if k < i {
                    assert(dead_views(before)[k] == self@.dead.take(i as int)[k]);
                }
            }
            assert(dead_views(dead@) =~= self@.dead.take(i + 1));
            i += 1;
        }
        let copy = Bots { queued, alive, dead };
        assert(copy@.queued =~= self@.queued);
        assert(copy@.alive =~= self@.alive);
        assert(copy@.dead =~= self@.dead);
        copy
    }

    /// Two registries that hold the same are both sound, or neither is.
    pub proof fn soundness_is_in_the_view(self, other: Bots)
        requires
            self@ == other@,
        ensures
            self.wf() == other.wf(),
            self.queued@.len() == other.queued@.len(),
            self.alive@.len() == other.alive@.len(),
            self.dead@.len() == other.dead@.len(),
    {
        assert(queued_views(self.queued@).len() == queued_views(other.queued@).len());
        assert(alive_views(self.alive@).len() == alive_views(other.alive@).len());
        assert(dead_views(self.dead@).len() == dead_views(other.dead@).len());
        assert forall|i: int|
            #![trigger self.queued@[i]]
            #![trigger other.queued@[i]]
            0 <= i < self.queued@.len() implies self.queued@[i].id == other.queued@[i].id by {
            assert(queued_views(self.queued@)[i] == queued_views(other.queued@)[i]);
        }
        assert forall|i: int|
            #![trigger self.alive@[i]]
            #![trigger other.alive@[i]]
            0 <= i < self.alive@.len() implies self.alive@[i].id == other.alive@[i].id
            && self.alive@[i].pos == other.alive@[i].pos by {
            assert(alive_views(self.alive@)[i] == alive_views(other.alive@)[i]);
        }
        assert forall|i: int|
            #![trigger self.dead@[i]]
            #![trigger other.dead@[i]]
            0 <= i < self.dead@.len() implies self.dead@[i].id == other.dead@[i].id by {
            assert(dead_views(self.dead@)[i] == dead_views(other.dead@)[i]);
        }
    }
}

} // verus!
