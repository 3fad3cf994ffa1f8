//! The turns of the bots within a tick. The firmware itself runs outside of
//! this library: the loop asks here whose turn it is, runs that bot's
//! firmware, and hands back what came of it.

use crate::bot::{AliveBot, BotId, KillBot};
use crate::bots::{alive_in, blocked_in, killed_in, moved_in};
use crate::dir::Dir;
use crate::pos::Pos;
use crate::request::Event;
use crate::world::World;
use vstd::prelude::*;

verus! {

/// How many rounds of turns make one tick.
pub const SIM_TICKS: u32 = 1024;

/// What becomes of a bot at the end of its turn.
#[derive(Debug, PartialEq, Eq)]
pub enum Fate {
    Survives,
    /// The bot died of its own doing.
    Dies { reason: String },
    /// The bot killed another bot.
    Kills { victim: BotId, reason: String },
}

/// What the firmware of a bot did in one turn.
#[derive(Debug, PartialEq, Eq)]
pub struct BotUpdate {
    pub pos: Pos,
    pub dir: Dir,
    /// The execution state in which the turn left the firmware.
    pub state: Vec<u8>,
    pub fate: Fate,
}

/// The bot whose firmware is to run next.
#[derive(Clone, Copy, Debug, PartialEq, Eq, Structural)]
pub struct Turn {
    pub id: BotId,
    /// The bot's slot among the alive bots.
    pub slot: usize,
    pub pos: Pos,
    pub dir: Dir,
}

/// The turns of one tick: `SIM_TICKS` rounds, and in each round the bots take
/// their turns in the order of `ids`. Bots that died in the meantime are
/// passed over.
#[derive(Debug, PartialEq, Eq)]
pub struct Batch {
    pub ids: Vec<BotId>,
    /// How many rounds are over.
    pub round: u32,
    /// How many bots of `ids` have been looked at in the current round.
    pub next: usize,
}

impl Batch {
    pub open spec fn wf(self) -> bool {
        self.round <= SIM_TICKS && self.next <= self.ids@.len()
    }

    /// Whether none of the bots from place `from` up to, but without, place
    /// `to` of the order is alive in `world`.
    pub open spec fn idle(self, world: World, from: int, to: int) -> bool {
        forall|k: int| from <= k < to ==> !world.bots.is_alive(#[trigger] self.ids@[k])
    }

    /// The turns of a tick in which the bots move in the order of `ids`.
    pub fn new(ids: Vec<BotId>) -> (batch: Batch)
        ensures
            batch.wf(),
            batch.ids == ids,
            batch.round == 0,
            batch.next == 0,
    {
        Batch { ids, round: 0, next: 0 }
    }

    /// The turns of a tick in which no bot moves.
    pub fn finished() -> (batch: Batch)
        ensures
            batch.wf(),
            batch.ids@.len() == 0,
            batch.round == SIM_TICKS,
            batch.next == 0,
    {
        Batch { ids: Vec::new(), round: SIM_TICKS, next: 0 }
    }

    /// Moves on to the next bot of the order that is alive in `world`, and
    /// into the next round where the order is used up. The result is that
    /// bot, as the one whose turn it is, or nothing once all rounds are over.
    pub fn next_turn(&mut self, world: &World) -> (turn: Option<Turn>)
        requires
            old(self).wf(),
        ensures
            final(self).wf(),
            final(self).ids == old(self).ids,
            match turn {
                Some(turn) => {
                    &&& final(self).round < SIM_TICKS
                    &&& final(self).next >= 1
                    &&& turn.id == final(self).ids@[final(self).next - 1]
                    &&& world.bots.is_alive(turn.id)
                    &&& turn.slot < world.bots.alive@.len()
                    &&& world.bots.alive@[turn.slot as int].id == turn.id
                    &&& turn.pos == world.bots.alive@[turn.slot as int].pos
                    &&& turn.dir == world.bots.alive@[turn.slot as int].dir
                    &&& if final(self).round == old(self).round {
                        &&& old(self).next < final(self).next
                        &&& final(self).idle(*world, old(self).next as int, final(self).next - 1)
                    } else {
                        &&& final(self).round == old(self).round + 1
                        &&& final(self).idle(
                            *world,
                            old(self).next as int,
                            final(self).ids@.len() as int,
                        )
                        &&& final(self).idle(*world, 0, final(self).next - 1)
                    }
                },
                None => {
                    &&& final(self).round == SIM_TICKS
                    &&& old(self).round < SIM_TICKS ==> final(self).idle(
                        *world,
                        old(self).next as int,
                        final(self).ids@.len() as int,
                    )
                    &&& old(self).round + 1 < SIM_TICKS ==> final(self).idle(
                        *world,
                        0,
                        final(self).ids@.len() as int,
                    )
                },
            },
    {
        loop
            invariant
                self.wf(),
                self.ids == old(self).ids,
                self.round >= old(self).round,
                self.round == old(self).round ==> old(self).next <= self.next && self.idle(
                    *world,
                    old(self).next as int,
                    self.next as int,
                ),
                self.round > old(self).round ==> self.idle(
                    *world,
                    old(self).next as int,
                    self.ids@.len() as int,
                ) && self.idle(*world, 0, self.next as int),
                self.round > old(self).round + 1 ==> self.idle(*world, 0, self.ids@.len() as int),
            decreases SIM_TICKS - self.round, self.ids@.len() - self.next,
        {
            if self.round >= SIM_TICKS {
                return None;
            }
            if self.next >= self.ids.len() {
                self.round += 1;
                self.next = 0;
            } else {
                let id = self.ids[self.next];
                self.next += 1;
                if let Some(turn) = world.turn(id) {
                    return Some(turn);
                }
            }
        }
    }
}

/// The reason of death of a bot whose firmware failed with `error`.
pub open spec fn crash_reason(error: Seq<char>) -> Seq<char> {
    "firmware crashed: "@ + error
}

/// The reason of death of a bot that moved onto a tile where another bot
/// stands.
pub open spec fn collision_reason() -> Seq<char> {
    "collided with another bot"@
}

/// Whom a turn kills, for what reason, and who the killer is: the bot
/// itself where its firmware failed, where it ran into another bot or where
/// it died; its victim where it killed one.
pub open spec fn verdict(alive: Seq<AliveBot>, id: BotId, outcome: Result<BotUpdate, String>) -> Option<
    (BotId, Seq<char>, Option<BotId>),
> {
    match outcome {
        Err(error) => Some((id, crash_reason(error@), None)),
        Ok(update) => if blocked_in(alive, id, update.pos) {
            Some((id, collision_reason(), None))
        } else {
            match update.fate {
                Fate::Survives => None,
                Fate::Dies { reason } => Some((id, reason@, None)),
                Fate::Kills { victim, reason } => Some((victim, reason@, Some(id))),
            }
        },
    }
}

/// The alive bots after the bot `id` has moved as its turn says. A bot
/// whose firmware failed, or that ran into another bot, stays where it was.
pub open spec fn after_move(alive: Seq<AliveBot>, id: BotId, outcome: Result<BotUpdate, String>) -> Seq<
    AliveBot,
> {
    match outcome {
        Err(_) => alive,
        Ok(update) => if blocked_in(alive, id, update.pos) {
            alive
        } else {
            moved_in(alive, id, update.pos, update.dir, update.state)
        },
    }
}

impl World {
    /// Whom the turn of the bot `id` kills in this world, if anybody: the
    /// one that the verdict names, if that bot is alive after the move.
    pub open spec fn turn_victim(self, id: BotId, outcome: Result<BotUpdate, String>) -> Option<
        BotId,
    > {
        if !self.bots.is_alive(id) {
            None
        } else {
            match verdict(self.bots.alive@, id, outcome) {
                Some((victim, _, _)) => if alive_in(
                    after_move(self.bots.alive@, id, outcome),
                    victim,
                ) {
                    Some(victim)
                } else {
                    None
                },
                None => None,
            }
        }
    }

    /// Whether `after` is this world once the turn of the bot `id` has been
    /// applied: the bot has moved, and whoever the turn kills is dead.
    /// Nothing but the alive and the dead bots changes, and a turn of a bot
    /// that is not alive changes nothing.
    pub open spec fn turn_applied(self, after: World, id: BotId, outcome: Result<BotUpdate, String>) -> bool {
        let alive = after_move(self.bots.alive@, id, outcome);
        &&& after == (World { bots: after.bots, ..self })
        &&& after.bots.queued@ == self.bots.queued@
        &&& match self.turn_victim(id, outcome) {
            Some(victim) => {
                let order = verdict(self.bots.alive@, id, outcome).unwrap();
                killed_in(
                    alive,
                    self.bots.dead@,
                    after.bots.alive@,
                    after.bots.dead@,
                    victim,
                    order.1,
                    order.2,
                )
            },
            None => {
                &&& after.bots.alive@ == if self.bots.is_alive(id) {
                    alive
                } else {
                    self.bots.alive@
                }
                &&& after.bots.dead@ == self.bots.dead@
            },
        }
    }

    /// The bot `id` as the one whose turn it is, if it is alive.
    pub fn turn(&self, id: BotId) -> (turn: Option<Turn>)
        ensures
            turn.is_some() == self.bots.is_alive(id),
            turn matches Some(turn) ==> {
                &&& turn.id == id
                &&& turn.slot < self.bots.alive@.len()
                &&& self.bots.alive@[turn.slot as int].id == id
                &&& turn.pos == self.bots.alive@[turn.slot as int].pos
                &&& turn.dir == self.bots.alive@[turn.slot as int].dir
            },
    {
        match self.bots.find_alive(id) {
            Some(slot) => Some(
                Turn { id, slot, pos: self.bots.alive[slot].pos, dir: self.bots.alive[slot].dir },
            ),
            None => None,
        }
    }

    /// Applies what the firmware of the bot `id` did in its turn, or the
    /// failure of that firmware. A failure kills the bot and nobody else: it
    /// dies of "firmware crashed: " and the failure's text, without a
    /// killer. A bot that moved onto the tile of another bot stays where it
    /// was and dies of the collision. Any other bot moves as its turn says,
    /// and then dies or kills as its turn says. Each death is announced.
    pub fn apply_turn(&mut self, id: BotId, outcome: Result<BotUpdate, String>) -> (event: Option<
        Event,
    >)
        requires
            old(self).wf(),
        ensures
            final(self).wf(),
            old(self).turn_applied(*final(self), id, outcome),
            event == match old(self).turn_victim(id, outcome) {
                Some(victim) => Some(Event::BotKilled { id: victim }),
                None => None,
            },
    {
        if self.bots.find_alive(id).is_none() {
            return None;
        }
        let kill = match outcome {
            Ok(update) => match self.bots.relocate(id, update.pos, update.dir, update.state) {
                Ok(()) => match update.fate {
                    Fate::Survives => None,
                    Fate::Dies { reason } => Some(KillBot { id, reason, killer: None }),
                    Fate::Kills { victim, reason } => Some(
                        KillBot { id: victim, reason, killer: Some(id) },
                    ),
                },
                Err(_) => Some(
                    KillBot {
                        id,
                        reason: String::from_str("collided with another bot"),
                        killer: None,
                    },
                ),
            },
            Err(error) => Some(
                KillBot {
                    id,
                    reason: String::from_str("firmware crashed: ").concat(error.as_str()),
                    killer: None,
                },
            ),
        };
        match kill {
            Some(kill) => self.kill_bot(kill),
            None => None,
        }
    }

    /// A firmware that fails takes down its own bot and nothing else: the
    /// bot ends up last among the dead, with a reason that is not empty and
    /// without a killer, while every other bot stays as it was and where it
    /// was, alive if it was alive, so that its turn still comes.
    pub proof fn crash_is_contained(self, after: World, id: BotId, error: String)
        requires
            self.wf(),
            self.bots.is_alive(id),
            self.turn_applied(after, id, Err(error)),
        ensures
            !after.bots.is_alive(id),
            after.bots.dead@.len() == self.bots.dead@.len() + 1,
            after.bots.dead@.last().id == id,
            after.bots.dead@.last().reason@ == crash_reason(error@),
            after.bots.dead@.last().reason@.len() > 0,
            after.bots.dead@.last().killer.is_none(),
            after.bots.queued@ == self.bots.queued@,
            after.bots.alive@.len() == self.bots.alive@.len() - 1,
            forall|other: BotId|
                other != id && self.bots.is_alive(other) ==> #[trigger] after.bots.is_alive(other)
                    && after.bots.alive@[after.bots.alive_slot(other)]
                    == self.bots.alive@[self.bots.alive_slot(other)],
    {
        reveal_strlit("firmware crashed: ");
        let slot = self.bots.alive_slot(id);
        assert(after.bots.alive@ == self.bots.alive@.remove(slot));
        assert forall|other: BotId| other != id && self.bots.is_alive(other) implies #[trigger] after.bots.is_alive(
            other,
        ) && after.bots.alive@[after.bots.alive_slot(other)]
            == self.bots.alive@[self.bots.alive_slot(other)] by {
            let k = self.bots.alive_slot(other);
            let k2 = if k < slot {
                k
            } else {
                k - 1
            };
            assert(after.bots.alive@[k2] == self.bots.alive@[k]);
            let k3 = after.bots.alive_slot(other);
            let back = if k3 < slot {
                k3
            } else {
                k3 + 1
            };
            assert(self.bots.alive@[back] == after.bots.alive@[k3]);
        }
    }
}

} // verus!
