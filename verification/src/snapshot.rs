//! The picture of a world that is published after each tick.

use crate::bot::{AliveBot, BotId, DeadBot, QueuedBot};
use crate::dir::Dir;
use crate::pos::Pos;
use crate::tile::{Tile, TileBase};
use crate::tile_map::TileMap;
use crate::world::World;
use vstd::prelude::*;

verus! {

/// An alive bot, as a snapshot shows it.
#[derive(Clone, Copy, Debug, PartialEq, Eq, Structural)]
pub struct SnapshotAliveBot {
    pub id: BotId,
    pub pos: Pos,
    pub dir: Dir,
}

/// A queued bot, as a snapshot shows it.
#[derive(Clone, Copy, Debug, PartialEq, Eq, Structural)]
pub struct SnapshotQueuedBot {
    pub id: BotId,
    /// How many bots are in front of this one, plus one.
    pub place: usize,
    pub requeued: bool,
}

/// A dead bot, as a snapshot shows it.
#[derive(Clone, Copy, Debug, PartialEq, Eq, Structural)]
pub struct SnapshotDeadBot {
    pub id: BotId,
    pub killer: Option<BotId>,
}

/// The bots of a snapshot, each collection in the order of the registry.
#[derive(Debug, PartialEq, Eq)]
pub struct SnapshotBots {
    pub alive: Vec<SnapshotAliveBot>,
    pub queued: Vec<SnapshotQueuedBot>,
    pub dead: Vec<SnapshotDeadBot>,
}

/// A world at the end of a tick: the grid with the bots drawn onto it, and
/// the bots. A snapshot never changes; the next tick brings a new one.
#[derive(Debug, PartialEq, Eq)]
pub struct Snapshot {
    pub map: TileMap,
    pub bots: SnapshotBots,
    pub paused: bool,
}

/// The highest slot below `n` whose bot stands at `pos`.
pub open spec fn standing(alive: Seq<AliveBot>, pos: Pos, n: int) -> Option<int>
    decreases n,
{
    if n <= 0 {
        None
    } else if alive[n - 1].pos == pos {
        Some(n - 1)
    } else {
        standing(alive, pos, n - 1)
    }
}

/// Whether `pos` is the tile right in front of `bot`.
pub open spec fn faces(bot: AliveBot, pos: Pos) -> bool {
    bot.pos.x + bot.dir.offset().x == pos.x && bot.pos.y + bot.dir.offset().y == pos.y
}

/// The highest slot below `n` whose bot faces `pos`.
pub open spec fn facing(alive: Seq<AliveBot>, pos: Pos, n: int) -> Option<int>
    decreases n,
{
    if n <= 0 {
        None
    } else if faces(alive[n - 1], pos) {
        Some(n - 1)
    } else {
        facing(alive, pos, n - 1)
    }
}

/// The tile that stands for the bot at `slot`.
pub open spec fn bot_tile(slot: int) -> Tile {
    Tile::marked(TileBase::BOT, slot as u8, 0)
}

/// The tile that marks the front of the bot at `slot`, which faces `dir`.
pub open spec fn chevron_tile(slot: int, dir: Dir) -> Tile {
    Tile::marked(TileBase::BOT_CHEVRON, slot as u8, dir.index() as u8)
}

/// The grid with the markers of the first `n` bots drawn onto it: a floor
/// tile in front of a bot shows the marker of that bot, of the one in the
/// highest slot where several face it.
pub open spec fn with_chevrons(map: TileMap, alive: Seq<AliveBot>, n: int, pos: Pos) -> Tile {
    match facing(alive, pos, n) {
        Some(slot) => if map.at(pos).base == TileBase::FLOOR {
            chevron_tile(slot, alive[slot].dir)
        } else {
            map.at(pos)
        },
        None => map.at(pos),
    }
}

/// What a snapshot shows at `pos`: the bot that stands there, if `pos` is
/// on the grid; else the marker of a bot in front of which `pos` lies, if
/// the tile is floor; else the tile of the grid.
pub open spec fn drawn(map: TileMap, alive: Seq<AliveBot>, n: int, pos: Pos) -> Tile {
    match standing(alive, pos, n) {
        Some(slot) => if map.has(pos) {
            bot_tile(slot)
        } else {
            map.at(pos)
        },
        None => with_chevrons(map, alive, alive.len() as int, pos),
    }
}

/// `standing` finds a bot that stands at `pos`, if one of the first `n`
/// does.
pub proof fn lemma_standing(alive: Seq<AliveBot>, pos: Pos, n: int)
    requires
        0 <= n <= alive.len(),
    ensures
        match standing(alive, pos, n) {
            Some(slot) => 0 <= slot < n && alive[slot].pos == pos,
            None => forall|k: int| 0 <= k < n ==> (#[trigger] alive[k]).pos != pos,
        },
    decreases n,
{
    if n > 0 && alive[n - 1].pos != pos {
        lemma_standing(alive, pos, n - 1);
    }
}

impl SnapshotBots {
    /// The alive bot at `slot`, as the tiles of the snapshot number them.
    pub fn by_idx(&self, slot: u8) -> (bot: Option<SnapshotAliveBot>)
        ensures
            bot == if slot < self.alive@.len() {
                Some(self.alive@[slot as int])
            } else {
                None
            },
    {
        if (slot as usize) < self.alive.len() {
            Some(self.alive[slot as usize])
        } else {
            None
        }
    }
}

impl World {
    /// The bots as a snapshot shows them.
    pub open spec fn shown_alive(self) -> Seq<SnapshotAliveBot> {
        self.bots.alive@.map_values(
            |bot: AliveBot| SnapshotAliveBot { id: bot.id, pos: bot.pos, dir: bot.dir },
        )
    }

    pub open spec fn shown_queued(self) -> Seq<SnapshotQueuedBot> {
        Seq::new(
            self.bots.queued@.len(),
            |i: int|
                SnapshotQueuedBot {
                    id: self.bots.queued@[i].id,
                    place: (i + 1) as usize,
                    requeued: self.bots.queued@[i].requeued,
                },
        )
    }

    pub open spec fn shown_dead(self) -> Seq<SnapshotDeadBot> {
        self.bots.dead@.map_values(
            |bot: DeadBot| SnapshotDeadBot { id: bot.id, killer: bot.killer },
        )
    }

    /// On the grid, a snapshot shows each bot where it stands: the tile is
    /// a bot tile, and its first metadata byte is the slot of that bot, under
    /// which the snapshot lists it.
    pub proof fn bot_tiles_name_their_bots(self, pos: Pos)
        requires
            self.wf(),
            self.map.has(pos),
            self.bots.occupied(pos),
        ensures
            ({
                let tile = drawn(self.map, self.bots.alive@, self.bots.alive@.len() as int, pos);
                let slot = self.bots.slot_at(pos);
                &&& 0 <= slot < self.bots.alive@.len()
                &&& self.bots.alive@[slot].pos == pos
                &&& tile.base == TileBase::BOT
                &&& tile.meta@[0] == slot
                &&& self.shown_alive()[tile.meta@[0] as int].id == self.bots.alive@[slot].id
                &&& self.shown_alive()[tile.meta@[0] as int].pos == pos
            }),
    {
        lemma_standing(self.bots.alive@, pos, self.bots.alive@.len() as int);
    }

    /// The grid with the bots drawn onto it.
    fn draw(&self) -> (map: TileMap)
        requires
            self.wf(),
        ensures
            map.wf(),
            map.width == self.map.width,
            map.height == self.map.height,
            forall|pos: Pos| #[trigger]
                map.at(pos) == drawn(self.map, self.bots.alive@, self.bots.alive@.len() as int, pos),
    {
        let mut map = self.map.duplicate();
        let n = self.bots.alive.len();
        assert forall|pos: Pos| #[trigger] map.at(pos) == with_chevrons(self.map, self.bots.alive@, 0, pos) by {
        }
        let mut i: usize = 0;
        while i < n
            invariant
                self.wf(),
                n == self.bots.alive@.len(),
                i <= n,
                map.wf(),
                map.width == self.map.width,
                map.height == self.map.height,
                forall|pos: Pos| #[trigger]
                    map.at(pos) == with_chevrons(self.map, self.bots.alive@, i as int, pos),
            decreases n - i,
        {
            let dir = self.bots.alive[i].dir;
            let ghost before = map;
            match self.bots.alive[i].pos.checked_add(dir.as_vec()) {
                Some(front) => {
                    if self.map.get(front).is_floor() {
                        map.set(front, Tile::with_meta(TileBase::BOT_CHEVRON, i as u8, u8::from(dir)));
                    }
                    assert forall|pos: Pos| #[trigger]
                        map.at(pos) == with_chevrons(self.map, self.bots.alive@, i + 1, pos) by {
                        assert(before.at(pos) == with_chevrons(self.map, self.bots.alive@, i as int, pos));
                        assert(faces(self.bots.alive@[i as int], pos) <==> pos == front);
                    }
                },
                None => {
                    assert forall|pos: Pos| #[trigger]
                        map.at(pos) == with_chevrons(self.map, self.bots.alive@, i + 1, pos) by {
                        assert(before.at(pos) == with_chevrons(self.map, self.bots.alive@, i as int, pos));
                        assert(!faces(self.bots.alive@[i as int], pos));
                    }
                },
            }
            i += 1;
        }
        let mut i: usize = 0;
        while i < n
            invariant
                self.wf(),
                n == self.bots.alive@.len(),
                i <= n,
                map.wf(),
                map.width == self.map.width,
                map.height == self.map.height,
                forall|pos: Pos| #[trigger]
                    map.at(pos) == drawn(self.map, self.bots.alive@, i as int, pos),
            decreases n - i,
        {
            let ghost before = map;
            let place = self.bots.alive[i].pos;
            map.set(place, Tile::with_meta(TileBase::BOT, i as u8, 0));
            assert forall|pos: Pos| #[trigger]
                map.at(pos) == drawn(self.map, self.bots.alive@, i + 1, pos) by {
                assert(before.at(pos) == drawn(self.map, self.bots.alive@, i as int, pos));
            }
            i += 1;
        }
        map
    }

    /// The picture of this world as it is now.
    pub fn snapshot(&self) -> (snapshot: Snapshot)
        requires
            self.wf(),
        ensures
            snapshot.paused == self.paused,
            snapshot.bots.alive@ == self.shown_alive(),
            snapshot.bots.queued@ == self.shown_queued(),
            snapshot.bots.dead@ == self.shown_dead(),
            snapshot.map.wf(),
            snapshot.map.width == self.map.width,
            snapshot.map.height == self.map.height,
            forall|pos: Pos| #[trigger]
                snapshot.map.at(pos) == drawn(
                    self.map,
                    self.bots.alive@,
                    self.bots.alive@.len() as int,
                    pos,
                ),
    {
        let mut alive: Vec<SnapshotAliveBot> = Vec::new();
        let mut i: usize = 0;
        while i < self.bots.alive.len()
            invariant
                i <= self.bots.alive@.len(),
                alive@ == self.shown_alive().take(i as int),
            decreases self.bots.alive@.len() - i,
        {
            let bot = &self.bots.alive[i];
            alive.push(SnapshotAliveBot { id: bot.id, pos: bot.pos, dir: bot.dir });
            assert(alive@ =~= self.shown_alive().take(i + 1));
            i += 1;
        }
        assert(alive@ =~= self.shown_alive());
        let mut queued: Vec<SnapshotQueuedBot> = Vec::new();
        let mut i: usize = 0;
        while i < self.bots.queued.len()
            invariant
                i <= self.bots.queued@.len(),
                queued@ == self.shown_queued().take(i as int),
            decreases self.bots.queued@.len() - i,
        {
            let bot = &self.bots.queued[i];
            queued.push(SnapshotQueuedBot { id: bot.id, place: i + 1, requeued: bot.requeued });
            assert(queued@ =~= self.shown_queued().take(i + 1));
            i += 1;
        }
        assert(queued@ =~= self.shown_queued());
        let mut dead: Vec<SnapshotDeadBot> = Vec::new();
        let mut i: usize = 0;
        while i < self.bots.dead.len()
            invariant
                i <= self.bots.dead@.len(),
                dead@ == self.shown_dead().take(i as int),
            decreases self.bots.dead@.len() - i,
        {
            let bot = &self.bots.dead[i];
            dead.push(SnapshotDeadBot { id: bot.id, killer: bot.killer });
            assert(dead@ =~= self.shown_dead().take(i + 1));
            i += 1;
        }
        assert(dead@ =~= self.shown_dead());
        Snapshot { map: self.draw(), bots: SnapshotBots { alive, queued, dead }, paused: self.paused }
    }
}

} // verus!
