//! The steps of the world loop around the turns of the bots. The loop
//! itself runs outside of this library: it takes commands from its queue,
//! runs the firmware, and does what the actions returned here tell it to
//! do, in their order.

use crate::bot::AliveBot;
use crate::clock::Metronome;
use crate::pos::Pos;
use crate::request::Event;
use crate::snapshot::{drawn, Snapshot};
use crate::store::SerializedWorld;
use crate::tick::{Batch, SIM_TICKS};
use crate::world::World;
use vstd::prelude::*;

verus! {

/// How many nanoseconds pass between two saves of a running world.
pub const SAVE_INTERVAL: u64 = 60_000_000_000;

/// Something that the loop is to do for the world.
#[derive(Debug, PartialEq, Eq)]
pub enum Action {
    /// Publish the snapshot in place of the one before.
    Publish(Snapshot),
    /// Write the world to where it is saved, and wait until that is done.
    Save(SerializedWorld),
    /// Answer the steps that were asked for.
    AckStep,
    /// Answer the shutdown that was asked for.
    AckShutdown,
    /// Sleep for so many nanoseconds.
    Sleep(u64),
}

/// How a tick starts.
#[derive(Debug, PartialEq, Eq)]
pub struct TickStart {
    /// The bot that came to life, if one did.
    pub event: Option<Event>,
    /// The turns of this tick.
    pub batch: Batch,
}

impl World {
    /// Whether a world that ends a tick at `now` is to be saved then: it
    /// has a place to be saved at, and was last saved `SAVE_INTERVAL` ago or
    /// longer.
    pub open spec fn save_due(self, now: u64) -> bool {
        self.path.is_some() && now >= self.saved_at && now - self.saved_at >= SAVE_INTERVAL
    }

    /// Whether `snapshot` shows this world.
    pub open spec fn depicted_by(self, snapshot: Snapshot) -> bool {
        &&& snapshot.paused == self.paused
        &&& snapshot.bots.alive@ == self.shown_alive()
        &&& snapshot.bots.queued@ == self.shown_queued()
        &&& snapshot.bots.dead@ == self.shown_dead()
        &&& snapshot.map.wf()
        &&& snapshot.map.width == self.map.width
        &&& snapshot.map.height == self.map.height
        &&& forall|pos: Pos| #[trigger]
            snapshot.map.at(pos) == drawn(
                self.map,
                self.bots.alive@,
                self.bots.alive@.len() as int,
                pos,
            )
    }

    /// Whether `after` and `start` can be how a tick of this world starts.
    /// A paused world stays as it is and no bot takes a turn. In any other
    /// world a queued bot gets its turn to come to life, then the dead bots
    /// are cleared away, and then the bots that are alive take their turns,
    /// each once per round, in an order that chance picks.
    pub open spec fn tick_started(self, after: World, start: TickStart) -> bool {
        if self.paused {
            &&& after == self
            &&& start.event.is_none()
            &&& start.batch.ids@.len() == 0
            &&& start.batch.round == SIM_TICKS
            &&& start.batch.next == 0
        } else {
            &&& exists|spawned: World| #[trigger]
                self.spawn_step(spawned, start.event) && spawned.recycled(
                    (World { rng: spawned.rng, ..after }),
                )
            &&& start.batch.ids@.to_multiset() == after.bots.alive@.map_values(
                |bot: AliveBot| bot.id,
            ).to_multiset()
            &&& start.batch.round == 0
            &&& start.batch.next == 0
        }
    }

    /// Starts a tick, once the commands are done with.
    pub fn begin_tick(&mut self) -> (start: TickStart)
        requires
            old(self).wf(),
        ensures
            final(self).wf(),
            start.batch.wf(),
            old(self).tick_started(*final(self), start),
    {
        if self.paused {
            return TickStart { event: None, batch: Batch::finished() };
        }
        let event = self.spawn_bots();
        let ghost spawned = *self;
        self.recycle();
        let ghost recycled = *self;
        let ids = self.pick_ids();
        proof {
            assert((World { rng: spawned.rng, ..*self }) == recycled);
            assert(old(self).spawn_step(spawned, event) && spawned.recycled(
                (World { rng: spawned.rng, ..*self }),
            ));
        }
        TickStart { event, batch: Batch::new(ids) }
    }

    /// Whether `after` is this world once a tick has ended at `now`: nobody
    /// waits for the tick any more, the time of the last save is `now` if
    /// the world was due to be saved, and the metronome has moved on.
    pub open spec fn tick_ended(self, after: World, now: u64) -> bool {
        after == (World {
            step_pending: false,
            saved_at: if self.save_due(now) {
                now
            } else {
                self.saved_at
            },
            metronome: Metronome { due: self.metronome.next_due(self.clock, now) as u64 },
            ..self
        })
    }

    /// Whether `actions` are what the end of a tick at `now` asks for, in
    /// their order: the snapshot of the world, paused or not; the save, if
    /// one is due; the answer to the step, if one was asked for; and the
    /// sleep until the next tick is due, if that lies ahead.
    pub open spec fn tick_owes(self, after: World, now: u64, actions: Seq<Action>) -> bool {
        let saves: int = if self.save_due(now) {
            1
        } else {
            0
        };
        let acks: int = if self.step_pending {
            1
        } else {
            0
        };
        let nanos = after.metronome.delay(self.clock, now);
        let sleeps: int = if nanos > 0 {
            1
        } else {
            0
        };
        &&& actions.len() == 1 + saves + acks + sleeps
        &&& actions[0] matches Action::Publish(snapshot) && self.depicted_by(snapshot)
        &&& saves == 1 ==> (actions[1] matches Action::Save(saved) && saved.describes(self))
        &&& acks == 1 ==> actions[1 + saves] is AckStep
        &&& sleeps == 1 ==> (actions[1 + saves + acks] matches Action::Sleep(sleep) && sleep
            == nanos)
    }

    /// Ends a tick at the time `now`, after the last turn.
    pub fn end_tick(&mut self, now: u64) -> (actions: Vec<Action>)
        requires
            old(self).wf(),
        ensures
            final(self).wf(),
            old(self).tick_ended(*final(self), now),
            old(self).tick_owes(*final(self), now, actions@),
    {
        let mut actions: Vec<Action> = Vec::new();
        actions.push(Action::Publish(self.snapshot()));
        if self.path.is_some() && now >= self.saved_at && now - self.saved_at >= SAVE_INTERVAL {
            actions.push(Action::Save(self.serialized()));
            self.saved_at = now;
        }
        if self.step_pending {
            actions.push(Action::AckStep);
            self.step_pending = false;
        }
        self.metronome.tick(self.clock, now);
        let nanos = self.metronome.wait(self.clock, now);
        if nanos > 0 {
            actions.push(Action::Sleep(nanos));
        }
        actions
    }

    /// Whether `actions` are what leaving the loop asks for, in their
    /// order: the save of the world, if it has a place to be saved at,
    /// however short ago it was last saved; and then the answer to the
    /// shutdown, if somebody waits for it.
    pub open spec fn shutdown_owes(self, ack: bool, actions: Seq<Action>) -> bool {
        let saves: int = if self.path.is_some() {
            1
        } else {
            0
        };
        &&& actions.len() == saves + if ack {
            1int
        } else {
            0int
        }
        &&& saves == 1 ==> (actions[0] matches Action::Save(saved) && saved.describes(self))
        &&& ack ==> actions[saves] is AckShutdown
    }

    /// Ends the world loop; `ack` says whether somebody waits for an answer.
    pub fn shutdown(self, ack: bool) -> (actions: Vec<Action>)
        requires
            self.wf(),
        ensures
            self.shutdown_owes(ack, actions@),
    {
        let mut actions: Vec<Action> = Vec::new();
        if self.path.is_some() {
            actions.push(Action::Save(self.serialized()));
        }
        if ack {
            actions.push(Action::AckShutdown);
        }
        actions
    }
}

} // verus!
