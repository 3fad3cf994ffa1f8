//! What a world is asked to do, what it answers, and what it announces.

use crate::bot::{BotId, BotInfo};
use crate::dir::Dir;
use crate::pos::Pos;
use crate::tile_map::TileMap;
use vstd::prelude::*;

verus! {

/// A command for a world. The loop handles commands in the order in which
/// they arrive.
#[derive(Debug, PartialEq, Eq)]
pub enum Request {
    /// Run one tick and answer when it is over.
    Step,
    Pause,
    Resume,
    /// Save and stop.
    Shutdown,
    /// Upload a bot that runs `firmware`, to appear at `pos` if one is
    /// given; an ephemeral bot is gone for good once it is killed.
    CreateBot { firmware: Vec<u8>, pos: Option<Pos>, ephemeral: bool },
    /// Kill a bot, so that it starts over where bots respawn.
    RestartBot { id: BotId },
    /// Take a bot out of the world.
    DestroyBot { id: BotId },
    GetBots,
    /// Say where bots appear and which way they face; `None` leaves the
    /// choice to chance.
    SetSpawn { point: Option<Pos>, dir: Option<Dir> },
    /// Replace the grid.
    SetMap { map: TileMap },
    /// Subscribe to the world's events.
    Listen,
    /// Open a connection to one bot.
    Join { id: BotId },
}

/// What the world loop took from its queue of commands.
#[derive(Debug, PartialEq, Eq)]
pub enum Incoming {
    Request(Request),
    /// No command is waiting.
    Empty,
    /// Nobody can send commands any more.
    Disconnected,
}

/// Why an upload was turned down.
#[derive(Clone, Copy, Debug, PartialEq, Eq, Structural)]
pub enum CreateBotError {
    /// As many bots are queued as may be.
    QueueFull,
    /// The identifier belongs to a bot already, or every identifier does.
    NoFreeId,
}

/// The answer to a command.
#[derive(Debug, PartialEq, Eq)]
pub enum Reply {
    Done,
    Created(Result<BotId, CreateBotError>),
    Bots(Vec<BotInfo>),
    /// Whether the subscription was granted: a world without events grants
    /// none.
    Listening(bool),
    /// A connection to the bot is to be opened.
    Joined(BotId),
}

/// Something that happened in a world, told to whoever listens.
#[derive(Clone, Copy, Debug, PartialEq, Eq, Structural)]
pub enum Event {
    BotSpawned { id: BotId },
    BotKilled { id: BotId },
    ConnectionCreated { id: BotId },
    ShutdownRequested,
}

impl Event {
    /// The bot that an event is about: the one that came to life or was
    /// killed. Whoever follows one bot is told what is about that bot.
    pub open spec fn about(self) -> Option<BotId> {
        match self {
            Event::BotSpawned { id } => Some(id),
            Event::BotKilled { id } => Some(id),
            Event::ConnectionCreated { .. } => None,
            Event::ShutdownRequested => None,
        }
    }

    /// The bot that this event is about.
    pub fn bot(&self) -> (id: Option<BotId>)
        ensures
            id == self.about(),
    {
        match self {
            Event::BotSpawned { id } => Some(*id),
            Event::BotKilled { id } => Some(*id),
            Event::ConnectionCreated { .. } => None,
            Event::ShutdownRequested => None,
        }
    }
}

/// What the loop owes the outside after a command, in the order in which it
/// is owed.
#[derive(Debug, PartialEq, Eq)]
pub enum Effect {
    /// Answer the command.
    Reply(Reply),
    /// Publish an event.
    Emit(Event),
}

/// How to wait for the next command.
#[derive(Clone, Copy, Debug, PartialEq, Eq, Structural)]
pub enum Receive {
    /// Take a command if one is waiting, and report an empty queue
    /// otherwise.
    Poll,
    /// Wait until a command arrives.
    Block,
}

/// How the loop goes on after a command.
#[derive(Clone, Copy, Debug, PartialEq, Eq, Structural)]
pub enum Flow {
    /// Take the next command.
    Continue,
    /// Commands are done with for now: run the tick.
    Tick,
    /// Leave the loop; `ack` says whether somebody waits for an answer.
    Shutdown { ack: bool },
}

/// The outcome of one command.
#[derive(Debug, PartialEq, Eq)]
pub struct Processed {
    pub effects: Vec<Effect>,
    pub flow: Flow,
}

} // verus!
