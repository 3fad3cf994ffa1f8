//! A world: its configuration, its state and the rules by which commands
//! change it.

use crate::bot::{AliveBot, BotId, KillBot, QueuedBot};
use crate::bots::{cleared, Bots};
use crate::clock::{Clock, Metronome};
use crate::dir::Dir;
use crate::policy::{Policy, MAX_BOTS};
use crate::pos::Pos;
use crate::request::{
    CreateBotError, Effect, Event, Flow, Incoming, Processed, Receive, Reply, Request,
};
use crate::rng::{random_u64, seeded, shuffle};
use crate::tile::TileBase;
use crate::tile_map::TileMap;
use rand::rngs::SmallRng;
use vstd::prelude::*;

verus! {

/// How often an identifier is drawn at random for an upload before the
/// smallest free one is taken.
pub const ID_ATTEMPTS: u32 = 64;

/// How many points of the grid are tried at random when a bot needs a place
/// to appear.
pub const SPAWN_ATTEMPTS: u32 = 1024;

/// What a world is made from.
#[derive(Debug)]
pub struct Config {
    pub name: String,
    pub clock: Clock,
    pub policy: Policy,
    /// The grid to play on; none gives a grid without tiles.
    pub map: Option<TileMap>,
    /// The seed of the random numbers, for a world that is to behave the
    /// same each time.
    pub seed: Option<[u8; 32]>,
    /// Where the world is saved.
    pub path: Option<String>,
    /// Whether the world announces events.
    pub events: bool,
}

/// Why a configuration was turned down.
#[derive(Clone, Copy, Debug, PartialEq, Eq, Structural)]
pub enum ConfigError {
    /// A seed and a path were both given: a saved world does not keep the
    /// state of its random numbers, so it could not go on from the seed.
    SeedWithPath,
    /// More bots may be alive than a tile can tell apart.
    TooManyAliveBots,
    /// More bots may be queued than a tile can tell apart.
    TooManyQueuedBots,
    /// The grid does not hold one tile for each of its points.
    BrokenMap,
}

/// One game: a grid, the bots on it and the rules they live by.
#[derive(Debug)]
pub struct World {
    /// The identifier of the world.
    pub id: u64,
    pub name: String,
    pub policy: Policy,
    pub clock: Clock,
    pub metronome: Metronome,
    pub map: TileMap,
    pub bots: Bots,
    /// Where bots appear and which way they face, where that is fixed.
    pub spawn: (Option<Pos>, Option<Dir>),
    pub paused: bool,
    /// Whether somebody who asked for a step waits for the current tick to
    /// end.
    pub step_pending: bool,
    pub path: Option<String>,
    pub events: bool,
    /// When the world was last saved, or made.
    pub saved_at: u64,
    pub rng: SmallRng,
}

impl Config {
    /// What is wrong with this configuration, if anything.
    pub open spec fn fault(self) -> Option<ConfigError> {
        if self.path.is_some() && self.seed.is_some() {
            Some(ConfigError::SeedWithPath)
        } else if self.policy.max_alive_bots > MAX_BOTS {
            Some(ConfigError::TooManyAliveBots)
        } else if self.policy.max_queued_bots > MAX_BOTS {
            Some(ConfigError::TooManyQueuedBots)
        } else if self.map matches Some(map) && !map.wf() {
            Some(ConfigError::BrokenMap)
        } else {
            None
        }
    }
}

impl Config {
    /// A policy that allows more bots alive, or more queued, than a tile
    /// can tell apart is a fault of the configuration, whatever else the
    /// configuration holds: `create` makes no world from it.
    pub proof fn oversized_policy_is_a_fault(self)
        requires
            self.policy.max_alive_bots > MAX_BOTS || self.policy.max_queued_bots > MAX_BOTS,
        ensures
            self.fault().is_some(),
            !self.policy.valid(),
    {
    }

    /// A configuration without a fault has a policy whose limits fit a
    /// tile, so that the world made from it never holds more than 256 bots
    /// alive, nor more than 256 queued.
    pub proof fn faultless_policy_fits_a_tile(self)
        requires
            self.fault().is_none(),
        ensures
            self.policy.valid(),
            self.policy.max_alive_bots <= 256,
            self.policy.max_queued_bots <= 256,
    {
    }
}

/// How many events wait for a listener at most.
pub const EVENT_STREAM_CAPACITY: usize = 128;

/// How many commands wait for the world loop at most.
pub const REQUEST_STREAM_CAPACITY: usize = 128;

/// Makes a world from `config`. The random numbers start from the seed of
/// the configuration, or from `entropy` where it has none, and the first of
/// them is the identifier of the world; `now` is the time at which the
/// world starts.
pub fn create(config: Config, entropy: [u8; 32], now: u64) -> (result: Result<World, ConfigError>)
    ensures
        match result {
            Ok(world) => {
                &&& config.fault().is_none()
                &&& world.wf()
                &&& world.name == config.name
                &&& world.policy == config.policy
                &&& world.clock == config.clock
                &&& world.metronome.due == now
                &&& config.map matches Some(map) ==> world.map == map
                &&& config.map.is_none() ==> world.map.width == 0 && world.map.height == 0
                &&& world.bots.queued@.len() == 0
                &&& world.bots.alive@.len() == 0
                &&& world.bots.dead@.len() == 0
                &&& world.spawn == (None::<Pos>, None::<Dir>)
                &&& !world.paused
                &&& !world.step_pending
                &&& world.path == config.path
                &&& world.events == config.events
                &&& world.saved_at == now
            },
            Err(error) => config.fault() == Some(error),
        },
{
    if config.path.is_some() && config.seed.is_some() {
        return Err(ConfigError::SeedWithPath);
    }
    if config.policy.max_alive_bots > MAX_BOTS {
        return Err(ConfigError::TooManyAliveBots);
    }
    if config.policy.max_queued_bots > MAX_BOTS {
        return Err(ConfigError::TooManyQueuedBots);
    }
    let map = match config.map {
        Some(map) => {
            if !map.check() {
                return Err(ConfigError::BrokenMap);
            }
            map
        },
        None => TileMap::new(0, 0),
    };
    let mut rng = match config.seed {
        Some(seed) => seeded(seed),
        None => seeded(entropy),
    };
    let id = random_u64(&mut rng);
    Ok(
        World {
            id,
            name: config.name,
            policy: config.policy,
            clock: config.clock,
            metronome: config.clock.metronome(now),
            map,
            bots: Bots::new(),
            spawn: (None, None),
            paused: false,
            step_pending: false,
            path: config.path,
            events: config.events,
            saved_at: now,
            rng,
        },
    )
}

impl World {
    /// The limits fit a tile, the grid and the registry are sound, and no
    /// more bots are alive or queued than the policy allows.
    pub open spec fn wf(self) -> bool {
        &&& self.policy.valid()
        &&& self.map.wf()
        &&& self.bots.wf()
        &&& self.bots.alive@.len() <= self.policy.max_alive_bots
        &&& self.bots.queued@.len() <= self.policy.max_queued_bots
    }

    /// Whether the queue has room for one more bot.
    pub open spec fn queue_has_room(self) -> bool {
        self.bots.queued@.len() < self.policy.max_queued_bots
    }

    /// Queues an upload under the identifier `id`. The upload is turned
    /// down, and nothing changes, when the queue is full or when a bot has
    /// the identifier already.
    pub fn enqueue(
        &mut self,
        id: BotId,
        firmware: Vec<u8>,
        pos: Option<Pos>,
        ephemeral: bool,
    ) -> (result: Result<BotId, CreateBotError>)
        requires
            old(self).wf(),
        ensures
            final(self).wf(),
            *final(self) == (World { bots: final(self).bots, ..*old(self) }),
            final(self).bots.alive@ == old(self).bots.alive@,
            final(self).bots.dead@ == old(self).bots.dead@,
            result == if !old(self).queue_has_room() {
                Err(CreateBotError::QueueFull)
            } else if old(self).bots.has(id) {
                Err(CreateBotError::NoFreeId)
            } else {
                Ok(id)
            },
            result.is_ok() ==> final(self).bots.queued@ == old(self).bots.queued@.push(
                (QueuedBot { id, firmware, pos, requeued: false, ephemeral }),
            ),
            result.is_err() ==> final(self).bots.queued@ == old(self).bots.queued@,
    {
        if self.bots.queued.len() >= self.policy.max_queued_bots {
            return Err(CreateBotError::QueueFull);
        }
        if self.bots.contains(id) {
            return Err(CreateBotError::NoFreeId);
        }
        self.bots.enqueue(QueuedBot { id, firmware, pos, requeued: false, ephemeral });
        Ok(id)
    }

    /// Whether every identifier there is belongs to a bot of this world.
    pub open spec fn out_of_ids(self) -> bool {
        forall|n: u64| #[trigger] self.bots.has(BotId(n))
    }

    /// Draws an identifier that no bot of this world has. Identifiers are
    /// drawn at random until one is free, at most `ID_ATTEMPTS` times; after
    /// that the smallest free identifier is taken. There is none only when
    /// every identifier belongs to a bot.
    pub fn allocate_id(&mut self) -> (id: Option<BotId>)
        ensures
            *final(self) == (World { rng: final(self).rng, ..*old(self) }),
            id matches Some(id) ==> !old(self).bots.has(id),
            id.is_none() ==> old(self).out_of_ids(),
    {
        let mut attempts: u32 = 0;
        while attempts < ID_ATTEMPTS
            invariant
                *self == (World { rng: self.rng, ..*old(self) }),
            decreases ID_ATTEMPTS - attempts,
        {
            let id = BotId(random_u64(&mut self.rng));
            if !self.bots.contains(id) {
                return Some(id);
            }
            attempts += 1;
        }
        let mut next: u64 = 0;
        loop
            invariant
                *self == (World { rng: self.rng, ..*old(self) }),
                forall|n: u64| n < next ==> #[trigger] self.bots.has(BotId(n)),
            decreases u64::MAX - next,
        {
            if !self.bots.contains(BotId(next)) {
                return Some(BotId(next));
            }
            if next == u64::MAX {
                return None;
            }
            next += 1;
        }
    }

    /// Whether `after` and `result` are what an upload of `firmware` for the
    /// place `pos` makes of this world. A full queue, and nothing else,
    /// turns the upload down as such, and then nothing changes at all: no
    /// identifier is drawn. With room in the queue the bot is queued last,
    /// as a bot that was not alive before, under an identifier that no bot
    /// had; the upload is turned down for want of an identifier exactly when
    /// every identifier belongs to a bot, and then nothing but the random
    /// numbers has changed.
    pub open spec fn uploaded(
        self,
        after: World,
        firmware: Vec<u8>,
        pos: Option<Pos>,
        ephemeral: bool,
        result: Result<BotId, CreateBotError>,
    ) -> bool {
        &&& result == Err::<BotId, CreateBotError>(CreateBotError::QueueFull)
            <==> !self.queue_has_room()
        &&& result == Err::<BotId, CreateBotError>(CreateBotError::NoFreeId)
            <==> self.queue_has_room() && self.out_of_ids()
        &&& match result {
            Ok(id) => {
                &&& !self.bots.has(id)
                &&& after == (World { bots: after.bots, rng: after.rng, ..self })
                &&& after.bots.queued@ == self.bots.queued@.push(
                    (QueuedBot { id, firmware, pos, requeued: false, ephemeral }),
                )
                &&& after.bots.alive@ == self.bots.alive@
                &&& after.bots.dead@ == self.bots.dead@
            },
            Err(CreateBotError::QueueFull) => after == self,
            Err(CreateBotError::NoFreeId) => after == (World { rng: after.rng, ..self }),
        }
    }

    /// Handles an upload: puts the bot at the end of the queue, under an
    /// identifier drawn for it. The queue is looked at first: a full queue
    /// turns the upload down before anything is drawn.
    pub fn create_bot(&mut self, firmware: Vec<u8>, pos: Option<Pos>, ephemeral: bool) -> (result:
        Result<BotId, CreateBotError>)
        requires
            old(self).wf(),
        ensures
            final(self).wf(),
            old(self).uploaded(*final(self), firmware, pos, ephemeral, result),
    {
        if self.bots.queued.len() >= self.policy.max_queued_bots {
            return Err(CreateBotError::QueueFull);
        }
        match self.allocate_id() {
            Some(id) => {
                assert(!old(self).out_of_ids()) by {
                    assert(BotId(id.0) == id);
                    assert(!old(self).bots.has(BotId(id.0)));
                }
                self.enqueue(id, firmware, pos, ephemeral)
            },
            None => Err(CreateBotError::NoFreeId),
        }
    }

    /// In a sound world no more bots are queued, and no more are alive,
    /// than the policy allows and than a tile can tell apart; so the two
    /// together never pass the sum of the two limits.
    pub proof fn population_is_bounded(self)
        requires
            self.wf(),
        ensures
            self.bots.queued@.len() <= self.policy.max_queued_bots <= MAX_BOTS,
            self.bots.alive@.len() <= self.policy.max_alive_bots <= MAX_BOTS,
            self.bots.queued@.len() + self.bots.alive@.len() <= self.policy.max_queued_bots
                + self.policy.max_alive_bots,
    {
    }

    /// Where the two limits of the policy together are no more than a tile
    /// can tell apart, so are the queued and the alive bots together.
    pub proof fn population_fits_a_tile(self)
        requires
            self.wf(),
            self.policy.max_queued_bots + self.policy.max_alive_bots <= MAX_BOTS,
        ensures
            self.bots.queued@.len() + self.bots.alive@.len() <= MAX_BOTS,
    {
    }

    /// However many uploads follow one another, the world stays sound after
    /// each of them, so that the queued and the alive bots stay within the
    /// limits of the policy. Each upload is accepted exactly when the queue
    /// has room and an identifier is free; one that is turned down leaves
    /// the bots as they were, and one that meets a full queue leaves the
    /// whole world as it was.
    pub proof fn uploads_respect_the_limits(
        worlds: Seq<World>,
        firmwares: Seq<Vec<u8>>,
        places: Seq<Option<Pos>>,
        ephemeral: Seq<bool>,
        results: Seq<Result<BotId, CreateBotError>>,
    )
        requires
            worlds.len() == results.len() + 1,
            firmwares.len() == results.len(),
            places.len() == results.len(),
            ephemeral.len() == results.len(),
            worlds[0].wf(),
            forall|i: int|
                0 <= i < results.len() ==> (#[trigger] worlds[i]).uploaded(
                    worlds[i + 1],
                    firmwares[i],
                    places[i],
                    ephemeral[i],
                    results[i],
                ),
        ensures
            forall|i: int|
                0 <= i < worlds.len() ==> {
                    &&& (#[trigger] worlds[i]).wf()
                    &&& worlds[i].policy == worlds[0].policy
                    &&& worlds[i].bots.queued@.len() + worlds[i].bots.alive@.len()
                        <= worlds[0].policy.max_queued_bots + worlds[0].policy.max_alive_bots
                },
            forall|i: int|
                0 <= i < results.len() ==> {
                    &&& (#[trigger] results[i]).is_ok() <==> worlds[i].queue_has_room()
                        && !worlds[i].out_of_ids()
                    &&& results[i].is_err() ==> worlds[i].bots == worlds[i + 1].bots
                    &&& !worlds[i].queue_has_room() ==> worlds[i + 1] == worlds[i]
                },
        decreases worlds.len(),
    {
        if results.len() > 0 {
            let last = results.len() - 1;
            World::uploads_respect_the_limits(
                worlds.drop_last(),
                firmwares.drop_last(),
                places.drop_last(),
                ephemeral.drop_last(),
                results.drop_last(),
            );
            assert(worlds.drop_last()[last] == worlds[last]);
            assert(worlds[last].uploaded(
                worlds[last + 1],
                firmwares[last],
                places[last],
                ephemeral[last],
                results[last],
            ));
            assert forall|i: int| 0 <= i < worlds.len() implies {
                &&& (#[trigger] worlds[i]).wf()
                &&& worlds[i].policy == worlds[0].policy
                &&& worlds[i].bots.queued@.len() + worlds[i].bots.alive@.len()
                    <= worlds[0].policy.max_queued_bots + worlds[0].policy.max_alive_bots
            } by {
                if i < worlds.len() - 1 {
                    assert(worlds.drop_last()[i] == worlds[i]);
                }
            }
            assert forall|i: int| 0 <= i < results.len() implies {
                &&& (#[trigger] results[i]).is_ok() <==> worlds[i].queue_has_room()
                    && !worlds[i].out_of_ids()
                &&& results[i].is_err() ==> worlds[i].bots == worlds[i + 1].bots
                &&& !worlds[i].queue_has_room() ==> worlds[i + 1] == worlds[i]
            } by {
                if i < last {
                    assert(results.drop_last()[i] == results[i]);
                    assert(worlds.drop_last()[i] == worlds[i]);
                    assert(worlds.drop_last()[i + 1] == worlds[i + 1]);
                }
            }
        }
    }

    /// Kills a bot: an alive bot becomes a dead one, with the reason and
    /// the killer of the order, and its death is announced. Any other order
    /// changes nothing.
    pub fn kill_bot(&mut self, kill: KillBot) -> (event: Option<Event>)
        requires
            old(self).wf(),
        ensures
            final(self).wf(),
            *final(self) == (World { bots: final(self).bots, ..*old(self) }),
            event == if old(self).bots.is_alive(kill.id) {
                Some(Event::BotKilled { id: kill.id })
            } else {
                None
            },
            old(self).bots.is_alive(kill.id) ==> old(self).bots.killed(
                final(self).bots,
                kill.id,
                kill.reason@,
                kill.killer,
            ),
            !old(self).bots.is_alive(kill.id) ==> *final(self) == *old(self),
    {
        let id = kill.id;
        if self.bots.kill(kill) {
            assert(self.bots.dead@.drop_last() =~= old(self).bots.dead@);
            Some(Event::BotKilled { id })
        } else {
            None
        }
    }

    /// How the next command is to be waited for. A world on a manual clock
    /// has nothing to do until a step is asked for, so it waits; any other
    /// world only looks whether a command is there.
    pub open spec fn receives(self) -> Receive {
        match self.clock {
            Clock::Auto { .. } => Receive::Poll,
            Clock::Manual => if self.step_pending {
                Receive::Poll
            } else {
                Receive::Block
            },
        }
    }

    /// How the next command is to be waited for.
    pub fn receive_mode(&self) -> (mode: Receive)
        ensures
            mode == self.receives(),
    {
        match self.clock {
            Clock::Auto { .. } => Receive::Poll,
            Clock::Manual => if self.step_pending {
                Receive::Poll
            } else {
                Receive::Block
            },
        }
    }

    /// Whether `after` and `done` are what this world makes of what came
    /// from the queue of commands. A command changes what it is about and
    /// nothing else, and is answered before what it did is announced. The
    /// answer to a step is not owed yet: it is due when the tick is over,
    /// together with the answers to the other steps asked for until then.
    /// An empty queue starts the tick, but for a world that waits for a
    /// step; a queue that nobody can fill any more ends the loop.
    pub open spec fn handled(self, after: World, incoming: Incoming, done: Processed) -> bool {
        match incoming {
            Incoming::Empty => {
                &&& after == self
                &&& done.effects@.len() == 0
                &&& done.flow == if self.receives() == Receive::Poll {
                    Flow::Tick
                } else {
                    Flow::Continue
                }
            },
            Incoming::Disconnected => {
                &&& after == self
                &&& done.effects@.len() == 0
                &&& done.flow == Flow::Shutdown { ack: false }
            },
            Incoming::Request(Request::Step) => {
                &&& after == (World { step_pending: true, ..self })
                &&& done.effects@.len() == 0
                &&& done.flow == Flow::Continue
            },
            Incoming::Request(Request::Pause) => {
                &&& after == (World { paused: true, ..self })
                &&& done.effects@ == seq![Effect::Reply(Reply::Done)]
                &&& done.flow == Flow::Continue
            },
            Incoming::Request(Request::Resume) => {
                &&& after == (World { paused: false, ..self })
                &&& done.effects@ == seq![Effect::Reply(Reply::Done)]
                &&& done.flow == Flow::Continue
            },
            Incoming::Request(Request::Shutdown) => {
                &&& after == self
                &&& done.effects@ == seq![Effect::Emit(Event::ShutdownRequested)]
                &&& done.flow == Flow::Shutdown { ack: true }
            },
            Incoming::Request(Request::CreateBot { firmware, pos, ephemeral }) => {
                &&& done.flow == Flow::Continue
                &&& done.effects@.len() == 1
                &&& done.effects@[0] matches Effect::Reply(Reply::Created(result))
                &&& self.uploaded(after, firmware, pos, ephemeral, result)
            },
            Incoming::Request(Request::RestartBot { id }) => {
                &&& after == (World { bots: after.bots, ..self })
                &&& done.flow == Flow::Continue
                &&& if self.bots.is_alive(id) {
                    &&& self.bots.killed(
                        after.bots,
                        id,
                        "forcefully restarted"@,
                        None,
                    )
                    &&& done.effects@ == seq![
                        Effect::Reply(Reply::Done),
                        Effect::Emit(Event::BotKilled { id }),
                    ]
                } else {
                    &&& self.bots.same(after.bots)
                    &&& done.effects@ == seq![Effect::Reply(Reply::Done)]
                }
            },
            Incoming::Request(Request::DestroyBot { id }) => {
                &&& after == (World { bots: after.bots, ..self })
                &&& done.flow == Flow::Continue
                &&& !after.bots.has(id)
                &&& after.bots.queued@ == if self.bots.is_queued(id) {
                    self.bots.queued@.remove(self.bots.queued_slot(id))
                } else {
                    self.bots.queued@
                }
                &&& after.bots.alive@ == if self.bots.is_alive(id) {
                    self.bots.alive@.remove(self.bots.alive_slot(id))
                } else {
                    self.bots.alive@
                }
                &&& after.bots.dead@ == if self.bots.is_dead(id) {
                    self.bots.dead@.remove(self.bots.dead_slot(id))
                } else {
                    self.bots.dead@
                }
                &&& done.effects@ == seq![
                    Effect::Reply(Reply::Done),
                    Effect::Emit(Event::BotKilled { id }),
                ]
            },
            Incoming::Request(Request::GetBots) => {
                &&& after == self
                &&& done.flow == Flow::Continue
                &&& done.effects@.len() == 1
                &&& done.effects@[0] matches Effect::Reply(Reply::Bots(infos))
                &&& infos@ == self.bots.summary()
            },
            Incoming::Request(Request::SetSpawn { point, dir }) => {
                &&& after == (World { spawn: (point, dir), ..self })
                &&& done.effects@ == seq![Effect::Reply(Reply::Done)]
                &&& done.flow == Flow::Continue
            },
            Incoming::Request(Request::SetMap { map }) => {
                &&& after == (World { map, ..self })
                &&& done.effects@ == seq![Effect::Reply(Reply::Done)]
                &&& done.flow == Flow::Continue
            },
            Incoming::Request(Request::Listen) => {
                &&& after == self
                &&& done.effects@ == seq![Effect::Reply(Reply::Listening(self.events))]
                &&& done.flow == Flow::Continue
            },
            Incoming::Request(Request::Join { id }) => {
                &&& after == self
                &&& done.effects@ == seq![
                    Effect::Reply(Reply::Joined(id)),
                    Effect::Emit(Event::ConnectionCreated { id }),
                ]
                &&& done.flow == Flow::Continue
            },
        }
    }

    /// Handles what came from the queue of commands: changes the world as
    /// the command says, and tells what is owed to the outside and how the
    /// loop goes on. A grid that a command brings must be sound.
    pub fn process(&mut self, incoming: Incoming) -> (done: Processed)
        requires
            old(self).wf(),
            incoming matches Incoming::Request(Request::SetMap { map }) ==> map.wf(),
        ensures
            final(self).wf(),
            old(self).handled(*final(self), incoming, done),
    {
        let mut effects: Vec<Effect> = Vec::new();
        let request = match incoming {
            Incoming::Request(request) => request,
            Incoming::Empty => {
                let flow = match self.receive_mode() {
                    Receive::Poll => Flow::Tick,
                    Receive::Block => Flow::Continue,
                };
                return Processed { effects, flow };
            },
            Incoming::Disconnected => {
                return Processed { effects, flow: Flow::Shutdown { ack: false } };
            },
        };
        let mut flow = Flow::Continue;
        match request {
            Request::Step => {
                self.step_pending = true;
            },
            Request::Pause => {
                self.paused = true;
                effects.push(Effect::Reply(Reply::Done));
                assert(effects@ =~= seq![Effect::Reply(Reply::Done)]);
            },
            Request::Resume => {
                self.paused = false;
                effects.push(Effect::Reply(Reply::Done));
                assert(effects@ =~= seq![Effect::Reply(Reply::Done)]);
            },
            Request::Shutdown => {
                effects.push(Effect::Emit(Event::ShutdownRequested));
                assert(effects@ =~= seq![Effect::Emit(Event::ShutdownRequested)]);
                flow = Flow::Shutdown { ack: true };
            },
            Request::CreateBot { firmware, pos, ephemeral } => {
                let result = self.create_bot(firmware, pos, ephemeral);
                effects.push(Effect::Reply(Reply::Created(result)));
            },
            Request::RestartBot { id } => {
                let reason = String::from_str("forcefully restarted");
                let event = self.kill_bot(KillBot { id, reason, killer: None });
                effects.push(Effect::Reply(Reply::Done));
                if let Some(event) = event {
                    effects.push(Effect::Emit(event));
                    assert(effects@ =~= seq![
                        Effect::Reply(Reply::Done),
                        Effect::Emit(Event::BotKilled { id }),
                    ]);
                } else {
                    assert(effects@ =~= seq![Effect::Reply(Reply::Done)]);
                }
            },
            Request::DestroyBot { id } => {
                self.bots.remove(id);
                effects.push(Effect::Reply(Reply::Done));
                effects.push(Effect::Emit(Event::BotKilled { id }));
                assert(effects@ =~= seq![
                    Effect::Reply(Reply::Done),
                    Effect::Emit(Event::BotKilled { id }),
                ]);
            },
            Request::GetBots => {
                effects.push(Effect::Reply(Reply::Bots(self.bots.infos())));
            },
            Request::SetSpawn { point, dir } => {
                self.spawn = (point, dir);
                effects.push(Effect::Reply(Reply::Done));
                assert(effects@ =~= seq![Effect::Reply(Reply::Done)]);
            },
            Request::SetMap { map } => {
                self.map = map;
                effects.push(Effect::Reply(Reply::Done));
                assert(effects@ =~= seq![Effect::Reply(Reply::Done)]);
            },
            Request::Listen => {
                effects.push(Effect::Reply(Reply::Listening(self.events)));
                assert(effects@ =~= seq![Effect::Reply(Reply::Listening(self.events))]);
            },
            Request::Join { id } => {
                effects.push(Effect::Reply(Reply::Joined(id)));
                effects.push(Effect::Emit(Event::ConnectionCreated { id }));
                assert(effects@ =~= seq![
                    Effect::Reply(Reply::Joined(id)),
                    Effect::Emit(Event::ConnectionCreated { id }),
                ]);
            },
        }
        Processed { effects, flow }
    }

    /// A world on a manual clock stands still until a step is asked for:
    /// whatever else comes from the queue, no tick starts and the world goes
    /// on waiting, unless it is told to shut down; and asking for the bots
    /// changes nothing at all.
    pub proof fn manual_world_waits_for_a_step(self, after: World, incoming: Incoming, done: Processed)
        requires
            self.clock == Clock::Manual,
            !self.step_pending,
            !(incoming matches Incoming::Request(Request::Step)),
            self.handled(after, incoming, done),
        ensures
            done.flow != Flow::Tick,
            after.receives() == Receive::Block,
            incoming matches Incoming::Request(Request::GetBots) ==> after == self,
            incoming matches Incoming::Empty ==> after == self && done.flow == Flow::Continue
                && done.effects@.len() == 0,
    {
    }

    /// Once a step is asked for, the tick starts as soon as the queue is
    /// empty.
    pub proof fn a_step_starts_the_tick(
        self,
        stepped: World,
        asked: Processed,
        after: World,
        done: Processed,
    )
        requires
            self.handled(stepped, Incoming::Request(Request::Step), asked),
            stepped.handled(after, Incoming::Empty, done),
        ensures
            stepped.step_pending,
            asked.effects@.len() == 0,
            done.flow == Flow::Tick,
    {
    }

    /// Whether a bot can appear at `pos`: the tile is floor and no bot
    /// stands on it.
    pub open spec fn spawnable(self, pos: Pos) -> bool {
        self.map.at(pos).base == TileBase::FLOOR && !self.bots.occupied(pos)
    }

    /// Whether a bot can appear at `pos`.
    pub fn is_spawnable(&self, pos: Pos) -> (yes: bool)
        requires
            self.wf(),
        ensures
            yes == self.spawnable(pos),
    {
        self.map.get(pos).is_floor() && self.bots.find_at(pos).is_none()
    }

    /// Whether the bot at the front of the queue can come to life now: there
    /// is one, and fewer bots are alive than may be.
    pub open spec fn can_spawn(self) -> bool {
        self.bots.queued@.len() > 0 && self.bots.alive@.len() < self.policy.max_alive_bots
    }

    /// Where the bot at the front of the queue is to appear, where that was
    /// said: the place that its uploader asked for, else the world's spawn
    /// point.
    pub open spec fn wanted_place(self) -> Option<Pos> {
        match self.bots.queued@[0].pos {
            Some(pos) => Some(pos),
            None => self.spawn.0,
        }
    }

    /// Whether `after` is this world with the bot at the front of the queue
    /// brought to life at `pos`, facing `dir`, with a fresh execution state,
    /// and nothing else changed but the random numbers.
    pub open spec fn spawned(self, after: World, pos: Pos, dir: Dir) -> bool {
        let bot = self.bots.queued@[0];
        &&& after == (World { bots: after.bots, rng: after.rng, ..self })
        &&& after.bots.queued@ == self.bots.queued@.remove(0)
        &&& after.bots.dead@ == self.bots.dead@
        &&& after.bots.alive@.len() == self.bots.alive@.len() + 1
        &&& after.bots.alive@.drop_last() == self.bots.alive@
        &&& after.bots.alive@.last().id == bot.id
        &&& after.bots.alive@.last().pos == pos
        &&& after.bots.alive@.last().dir == dir
        &&& after.bots.alive@.last().firmware == bot.firmware
        &&& after.bots.alive@.last().state@.len() == 0
        &&& after.bots.alive@.last().ephemeral == bot.ephemeral
    }

    /// Brings the bot at the front of the queue to life at `pos`, facing
    /// `dir`, if a bot can come to life and can appear there; else nothing
    /// changes.
    pub fn spawn_at(&mut self, pos: Pos, dir: Dir) -> (event: Option<Event>)
        requires
            old(self).wf(),
        ensures
            final(self).wf(),
            old(self).can_spawn() && old(self).spawnable(pos) ==> {
                &&& event == Some(Event::BotSpawned { id: old(self).bots.queued@[0].id })
                &&& old(self).spawned(*final(self), pos, dir)
                &&& final(self).rng == old(self).rng
            },
            !(old(self).can_spawn() && old(self).spawnable(pos)) ==> {
                &&& event.is_none()
                &&& *final(self) == *old(self)
            },
    {
        if self.bots.queued.len() == 0 || !self.is_spawnable(pos) {
            return None;
        }
        let id = self.bots.queued[0].id;
        match self.bots.promote(id, pos, dir, self.policy.max_alive_bots) {
            Ok(()) => {
                proof {
                    assert(old(self).bots.queued_slot(id) == 0);
                    assert(self.bots.alive@.drop_last() =~= old(self).bots.alive@);
                }
                Some(Event::BotSpawned { id })
            },
            Err(_) => None,
        }
    }

    /// Looks for a place where a bot can appear, by trying points of the
    /// grid at random, at most `SPAWN_ATTEMPTS` times: the first point that
    /// was drawn where a bot can appear is the place. On a grid without
    /// points nothing is drawn and there is no place. Else there is no place
    /// only if every point that was drawn is one where no bot can appear, so
    /// a grid on each of whose points a bot can appear always gives one.
    pub fn sample_place(&mut self) -> (place: Option<Pos>)
        requires
            old(self).wf(),
        ensures
            *final(self) == (World { rng: final(self).rng, ..*old(self) }),
            place matches Some(pos) ==> old(self).map.has(pos) && old(self).spawnable(pos),
            !old(self).map.has_points() ==> place.is_none() && final(self).rng == old(self).rng,
            old(self).map.has_points() && place.is_none() ==> old(self).has_taken_point(),
    {
        if self.map.width == 0 || self.map.height == 0 {
            return None;
        }
        let mut attempts: u32 = 0;
        let ghost mut missed = Pos { x: 0, y: 0 };
        while attempts < SPAWN_ATTEMPTS
            invariant
                *self == (World { rng: self.rng, ..*old(self) }),
                self.wf(),
                self.map.width > 0,
                self.map.height > 0,
                attempts > 0 ==> self.map.has(missed) && !self.spawnable(missed),
            decreases SPAWN_ATTEMPTS - attempts,
        {
            let pos = self.map.sample_pos(&mut self.rng);
            if self.is_spawnable(pos) {
                return Some(pos);
            }
            proof {
                missed = pos;
            }
            attempts += 1;
        }
        assert(old(self).map.has(missed) && !old(self).spawnable(missed));
        None
    }

    /// Whether the grid has a point where no bot can appear: one whose tile
    /// is not floor, or on which a bot stands.
    pub open spec fn has_taken_point(self) -> bool {
        exists|pos: Pos| self.map.has(pos) && !#[trigger] self.spawnable(pos)
    }

    /// Whether `after` and `event` can be what the spawn step of a tick
    /// makes of this world. Where no bot can come to life, nothing changes.
    /// Where the place is fixed, by the uploader or by the world's spawn
    /// point, the bot comes to life exactly if it can appear there. Where
    /// the place is left to chance, the bot comes to life on some tile where
    /// it can appear; it stays queued only if the grid has no point, or has
    /// a point where no bot can appear, so that the draws could miss.
    pub open spec fn spawn_step(self, after: World, event: Option<Event>) -> bool {
        &&& after == (World { bots: after.bots, rng: after.rng, ..self })
        &&& event.is_some() ==> {
            let bot = after.bots.alive@.last();
            &&& self.can_spawn()
            &&& event == Some(Event::BotSpawned { id: self.bots.queued@[0].id })
            &&& self.spawned(after, bot.pos, bot.dir)
            &&& self.spawnable(bot.pos)
            &&& self.wanted_place() matches Some(pos) ==> bot.pos == pos
            &&& self.spawn.1 matches Some(dir) ==> bot.dir == dir
        }
        &&& event.is_none() ==> self.bots.same(after.bots)
        &&& !self.can_spawn() ==> event.is_none() && after.rng == self.rng
        &&& self.can_spawn() ==> match self.wanted_place() {
            Some(pos) => event.is_some() == self.spawnable(pos),
            None => event.is_none() ==> !self.map.has_points() || self.has_taken_point(),
        }
    }

    /// Where a bot can come to life, no place is fixed for it, and the
    /// grid has points on each of which a bot can appear, the spawn step
    /// brings the bot at the front of the queue to life on a point of the
    /// grid; on a grid of one tile, on that tile.
    pub proof fn a_free_grid_gives_a_place(self, after: World, event: Option<Event>)
        requires
            self.spawn_step(after, event),
            self.can_spawn(),
            self.wanted_place().is_none(),
            self.map.has_points(),
            !self.has_taken_point(),
        ensures
            event == Some(Event::BotSpawned { id: self.bots.queued@[0].id }),
            after.bots.queued@ == self.bots.queued@.remove(0),
            after.bots.dead@ == self.bots.dead@,
            after.bots.alive@.len() == self.bots.alive@.len() + 1,
            after.bots.alive@.last().id == self.bots.queued@[0].id,
            self.map.has(after.bots.alive@.last().pos),
            self.map.width == 1 && self.map.height == 1 ==> after.bots.alive@.last().pos == (Pos {
                x: 0,
                y: 0,
            }),
    {
    }

    /// Gives the bot at the front of the queue its turn to come to life.
    /// The bot appears where its uploader asked for, else at the world's
    /// spawn point, else on a floor tile found by chance, and faces the way
    /// that the world's spawn point says, else a way picked by chance. When
    /// no bot can come to life, or none can appear at the place, the bot
    /// stays queued until the next tick.
    pub fn spawn_bots(&mut self) -> (event: Option<Event>)
        requires
            old(self).wf(),
        ensures
            final(self).wf(),
            old(self).spawn_step(*final(self), event),
    {
        if self.bots.queued.len() == 0 || self.bots.alive.len() >= self.policy.max_alive_bots {
            return None;
        }
        let wanted = match self.bots.queued[0].pos {
            Some(pos) => Some(pos),
            None => self.spawn.0,
        };
        let place = match wanted {
            Some(pos) => if self.is_spawnable(pos) {
                Some(pos)
            } else {
                None
            },
            None => self.sample_place(),
        };
        let pos = match place {
            Some(pos) => pos,
            None => {
                return None;
            },
        };
        let dir = match self.spawn.1 {
            Some(dir) => dir,
            None => Dir::sample(&mut self.rng),
        };
        self.spawn_at(pos, dir)
    }

    /// Whether `after` is this world once the dead bots have been cleared
    /// away: where bots respawn, put back into the queue, but for those that
    /// are gone for good, as far as the queue has room; and dropped where
    /// bots do not respawn.
    pub open spec fn recycled(self, after: World) -> bool {
        &&& after == (World { bots: after.bots, ..self })
        &&& after.bots.alive@ == self.bots.alive@
        &&& if self.policy.auto_respawn {
            (after.bots.queued@, after.bots.dead@) == cleared(
                self.bots.queued@,
                self.bots.dead@,
                self.policy.max_queued_bots as int,
            )
        } else {
            &&& after.bots.queued@ == self.bots.queued@
            &&& after.bots.dead@.len() == 0
        }
    }

    /// Clears the dead bots away, as the policy says.
    pub fn recycle(&mut self)
        requires
            old(self).wf(),
        ensures
            final(self).wf(),
            old(self).recycled(*final(self)),
    {
        self.bots.recycle(self.policy.auto_respawn, self.policy.max_queued_bots);
    }

    /// The order in which the alive bots take their turns in a tick: their
    /// identifiers, shuffled.
    pub fn pick_ids(&mut self) -> (ids: Vec<BotId>)
        ensures
            *final(self) == (World { rng: final(self).rng, ..*old(self) }),
            ids@.to_multiset() == old(self).bots.alive@.map_values(
                |bot: AliveBot| bot.id,
            ).to_multiset(),
    {
        let mut ids = self.bots.alive_ids();
        shuffle(&mut ids, &mut self.rng);
        ids
    }
}

} // verus!
