//! Bots in the three states of their life: queued, alive and dead.

use crate::dir::Dir;
use crate::pos::Pos;
use vstd::prelude::*;

verus! {

/// The identifier of a bot, unique within its world.
#[derive(Clone, Copy, Debug, PartialEq, Eq, Hash, Structural)]
pub struct BotId(pub u64);

/// A bot that waits for a place among the alive ones.
#[derive(Debug, PartialEq, Eq)]
pub struct QueuedBot {
    pub id: BotId,
    /// The program that the bot runs.
    pub firmware: Vec<u8>,
    /// Where the uploader asked for the bot to appear, if anywhere.
    pub pos: Option<Pos>,
    /// Whether the bot was alive before, as opposed to freshly uploaded.
    pub requeued: bool,
    /// Whether the bot is gone for good once it is killed.
    pub ephemeral: bool,
}

/// A bot on the grid.
#[derive(Debug, PartialEq, Eq)]
pub struct AliveBot {
    pub id: BotId,
    pub pos: Pos,
    pub dir: Dir,
    /// The program that the bot runs.
    pub firmware: Vec<u8>,
    /// The execution state of the firmware, as the runtime last left it.
    pub state: Vec<u8>,
    /// Whether the bot is gone for good once it is killed.
    pub ephemeral: bool,
}

/// A bot that was killed, with the program that it ran.
#[derive(Debug, PartialEq, Eq)]
pub struct DeadBot {
    pub id: BotId,
    pub reason: String,
    pub killer: Option<BotId>,
    pub firmware: Vec<u8>,
    /// Whether the bot is gone for good, instead of coming back.
    pub ephemeral: bool,
}

/// What a queued bot holds.
pub struct QueuedBotView {
    pub id: BotId,
    pub firmware: Seq<u8>,
    pub pos: Option<Pos>,
    pub requeued: bool,
    pub ephemeral: bool,
}

/// What an alive bot holds.
pub struct AliveBotView {
    pub id: BotId,
    pub pos: Pos,
    pub dir: Dir,
    pub firmware: Seq<u8>,
    pub state: Seq<u8>,
    pub ephemeral: bool,
}

/// What a dead bot holds.
pub struct DeadBotView {
    pub id: BotId,
    pub reason: Seq<char>,
    pub killer: Option<BotId>,
    pub firmware: Seq<u8>,
    pub ephemeral: bool,
}

impl View for QueuedBot {
    type V = QueuedBotView;

    open spec fn view(&self) -> QueuedBotView {
        QueuedBotView {
            id: self.id,
            firmware: self.firmware@,
            pos: self.pos,
            requeued: self.requeued,
            ephemeral: self.ephemeral,
        }
    }
}

impl View for AliveBot {
    type V = AliveBotView;

    open spec fn view(&self) -> AliveBotView {
        AliveBotView {
            id: self.id,
            pos: self.pos,
            dir: self.dir,
            firmware: self.firmware@,
            state: self.state@,
            ephemeral: self.ephemeral,
        }
    }
}

impl View for DeadBot {
    type V = DeadBotView;

    open spec fn view(&self) -> DeadBotView {
        DeadBotView {
            id: self.id,
            reason: self.reason@,
            killer: self.killer,
            firmware: self.firmware@,
            ephemeral: self.ephemeral,
        }
    }
}

/// What each bot of a queue holds.
pub open spec fn queued_views(bots: Seq<QueuedBot>) -> Seq<QueuedBotView> {
    Seq::new(bots.len(), |i: int| bots[i]@)
}

/// What each bot of a sequence of alive bots holds.
pub open spec fn alive_views(bots: Seq<AliveBot>) -> Seq<AliveBotView> {
    Seq::new(bots.len(), |i: int| bots[i]@)
}

/// What each bot of a sequence of dead bots holds.
pub open spec fn dead_views(bots: Seq<DeadBot>) -> Seq<DeadBotView> {
    Seq::new(bots.len(), |i: int| bots[i]@)
}

/// A copy of `bytes`.
pub fn copy_bytes(bytes: &Vec<u8>) -> (copy: Vec<u8>)
    ensures
        copy@ == bytes@,
{
    let mut copy: Vec<u8> = Vec::new();
    let mut i: usize = 0;
    while i < bytes.len()
        invariant
            i <= bytes@.len(),
            copy@ == bytes@.take(i as int),
        decreases bytes@.len() - i,
    {
        copy.push(bytes[i]);
        assert(copy@ =~= bytes@.take(i + 1));
        i += 1;
    }
    assert(bytes@.take(i as int) =~= bytes@);
    copy
}

impl QueuedBot {
    /// A copy of this bot.
    pub fn duplicate(&self) -> (copy: QueuedBot)
        ensures
            copy@ == self@,
    {
        QueuedBot {
            id: self.id,
            firmware: copy_bytes(&self.firmware),
            pos: self.pos,
            requeued: self.requeued,
            ephemeral: self.ephemeral,
        }
    }
}

impl AliveBot {
    /// A copy of this bot.
    pub fn duplicate(&self) -> (copy: AliveBot)
        ensures
            copy@ == self@,
    {
        AliveBot {
            id: self.id,
            pos: self.pos,
            dir: self.dir,
            firmware: copy_bytes(&self.firmware),
            state: copy_bytes(&self.state),
            ephemeral: self.ephemeral,
        }
    }
}

impl DeadBot {
    /// A copy of this bot.
    pub fn duplicate(&self) -> (copy: DeadBot)
        ensures
            copy@ == self@,
    {
        DeadBot {
            id: self.id,
            reason: self.reason.clone(),
            killer: self.killer,
            firmware: copy_bytes(&self.firmware),
            ephemeral: self.ephemeral,
        }
    }
}

impl QueuedBot {
    /// This bot brought to life at `pos`, facing `dir`: it keeps its
    /// identifier and its program, and starts with a fresh execution state.
    pub fn come_to_life(self, pos: Pos, dir: Dir) -> (bot: AliveBot)
        ensures
            bot.id == self.id,
            bot.pos == pos,
            bot.dir == dir,
            bot.firmware == self.firmware,
            bot.state@.len() == 0,
            bot.ephemeral == self.ephemeral,
    {
        AliveBot {
            id: self.id,
            pos,
            dir,
            firmware: self.firmware,
            state: Vec::new(),
            ephemeral: self.ephemeral,
        }
    }
}

impl AliveBot {
    /// This bot killed by `killer` for the given reason: it keeps its
    /// identifier and its program.
    pub fn kill(self, reason: String, killer: Option<BotId>) -> (bot: DeadBot)
        ensures
            bot == (DeadBot {
                id: self.id,
                reason,
                killer,
                firmware: self.firmware,
                ephemeral: self.ephemeral,
            }),
    {
        DeadBot {
            id: self.id,
            reason,
            killer,
            firmware: self.firmware,
            ephemeral: self.ephemeral,
        }
    }
}

impl DeadBot {
    /// The queue entry of this bot when it comes back: its program, no
    /// place asked for, and the mark of a bot that was alive before.
    pub open spec fn requeued(self) -> QueuedBot {
        QueuedBot {
            id: self.id,
            firmware: self.firmware,
            pos: None,
            requeued: true,
            ephemeral: self.ephemeral,
        }
    }

    /// This bot back in the queue.
    pub fn requeue(self) -> (bot: QueuedBot)
        ensures
            bot == self.requeued(),
    {
        QueuedBot {
            id: self.id,
            firmware: self.firmware,
            pos: None,
            requeued: true,
            ephemeral: self.ephemeral,
        }
    }
}

/// A bot in whichever state it is.
#[derive(Debug, PartialEq, Eq)]
pub enum BotEntry {
    Queued(QueuedBot),
    Alive(AliveBot),
    Dead(DeadBot),
}

impl BotEntry {
    pub open spec fn spec_id(self) -> BotId {
        match self {
            BotEntry::Queued(bot) => bot.id,
            BotEntry::Alive(bot) => bot.id,
            BotEntry::Dead(bot) => bot.id,
        }
    }

    pub open spec fn spec_status(self) -> BotStatus {
        match self {
            BotEntry::Queued(_) => BotStatus::Queued,
            BotEntry::Alive(_) => BotStatus::Alive,
            BotEntry::Dead(_) => BotStatus::Dead,
        }
    }

    pub fn id(&self) -> (id: BotId)
        ensures
            id == self.spec_id(),
    {
        match self {
            BotEntry::Queued(bot) => bot.id,
            BotEntry::Alive(bot) => bot.id,
            BotEntry::Dead(bot) => bot.id,
        }
    }

    pub fn status(&self) -> (status: BotStatus)
        ensures
            status == self.spec_status(),
    {
        match self {
            BotEntry::Queued(_) => BotStatus::Queued,
            BotEntry::Alive(_) => BotStatus::Alive,
            BotEntry::Dead(_) => BotStatus::Dead,
        }
    }

    /// What a world tells about this bot.
    pub fn info(&self) -> (info: BotInfo)
        ensures
            info == (BotInfo { id: self.spec_id(), status: self.spec_status() }),
    {
        BotInfo { id: self.id(), status: self.status() }
    }
}

/// The order to kill a bot.
#[derive(Debug, PartialEq, Eq)]
pub struct KillBot {
    pub id: BotId,
    pub reason: String,
    pub killer: Option<BotId>,
}

/// The state of a bot's life.
#[derive(Clone, Copy, Debug, PartialEq, Eq, Structural)]
pub enum BotStatus {
    Queued,
    Alive,
    Dead,
}

/// What a world tells about one of its bots.
#[derive(Clone, Copy, Debug, PartialEq, Eq, Structural)]
pub struct BotInfo {
    pub id: BotId,
    pub status: BotStatus,
}

} // verus!
