//! What of a world is saved, and how a world goes on from what was saved.

use crate::bots::Bots;
use crate::clock::{Clock, DEFAULT_INTERVAL};
use crate::dir::Dir;
use crate::migrations::VERSION;
use crate::policy::{Policy, MAX_BOTS};
use crate::pos::Pos;
use crate::rng::seeded;
use crate::tile_map::TileMap;
use crate::world::World;
use vstd::bytes::{
    lemma_auto_spec_u32_to_from_le_bytes, spec_u32_from_le_bytes, spec_u32_to_le_bytes,
    u32_from_le_bytes, u32_to_le_bytes,
};
use vstd::prelude::*;
use vstd::slice::slice_subrange;

verus! {

/// The bytes that every saved world starts with.
pub const MAGIC: [u8; 10] = [107, 97, 114, 116, 111, 102, 102, 101, 108, 115];

/// The length of what stands in front of the document in a saved world:
/// the magic bytes and the version.
pub const HEADER_LEN: usize = 14;

/// Why the bytes of a saved world were turned down.
#[derive(Clone, Copy, Debug, PartialEq, Eq, Structural)]
pub enum FrameError {
    /// There are fewer bytes than a header has.
    Truncated,
    /// The bytes do not start as a saved world does.
    BadMagic,
    /// The world was saved in a version that is not known: none, or one
    /// after the current one.
    UnknownVersion(u32),
}

/// The bytes of a saved world: the magic bytes, the version with its lowest
/// byte first, and the document.
pub open spec fn framed(version: u32, payload: Seq<u8>) -> Seq<u8> {
    MAGIC@ + spec_u32_to_le_bytes(version) + payload
}

/// What `unframe` makes of `bytes`.
pub open spec fn unframed(bytes: Seq<u8>) -> Result<(u32, Seq<u8>), FrameError> {
    let version = spec_u32_from_le_bytes(bytes.subrange(10, 14));
    if bytes.len() < HEADER_LEN {
        Err(FrameError::Truncated)
    } else if bytes.take(10) != MAGIC@ {
        Err(FrameError::BadMagic)
    } else if version < 1 || version > VERSION {
        Err(FrameError::UnknownVersion(version))
    } else {
        Ok((version, bytes.skip(14)))
    }
}

/// Puts the header of a saved world in front of the document `payload`.
pub fn frame(version: u32, payload: &Vec<u8>) -> (bytes: Vec<u8>)
    ensures
        bytes@ == framed(version, payload@),
{
    let mut bytes: Vec<u8> = Vec::new();
    let mut i: usize = 0;
    while i < 10
        invariant
            i <= 10,
            bytes@ == MAGIC@.take(i as int),
        decreases 10 - i,
    {
        bytes.push(MAGIC[i]);
        assert(bytes@ =~= MAGIC@.take(i + 1));
        i += 1;
    }
    assert(MAGIC@.take(10) =~= MAGIC@);
    let mut number = u32_to_le_bytes(version);
    bytes.append(&mut number);
    let mut i: usize = 0;
    while i < payload.len()
        invariant
            i <= payload@.len(),
            bytes@ == MAGIC@ + spec_u32_to_le_bytes(version) + payload@.take(i as int),
        decreases payload@.len() - i,
    {
        bytes.push(payload[i]);
        assert(bytes@ =~= MAGIC@ + spec_u32_to_le_bytes(version) + payload@.take(i + 1));
        i += 1;
    }
    assert(payload@.take(i as int) =~= payload@);
    bytes
}

/// Takes the bytes of a saved world apart into the version and the
/// document. The version must be one that is known: 1 up to `VERSION`.
pub fn unframe(bytes: &Vec<u8>) -> (result: Result<(u32, Vec<u8>), FrameError>)
    ensures
        match result {
            Ok((version, payload)) => unframed(bytes@) == Ok::<(u32, Seq<u8>), FrameError>(
                (version, payload@),
            ),
            Err(error) => unframed(bytes@) == Err::<(u32, Seq<u8>), FrameError>(error),
        },
{
    if bytes.len() < HEADER_LEN {
        return Err(FrameError::Truncated);
    }
    let mut i: usize = 0;
    while i < 10
        invariant
            i <= 10,
            bytes@.len() >= HEADER_LEN,
            bytes@.take(i as int) == MAGIC@.take(i as int),
        decreases 10 - i,
    {
        if bytes[i] != MAGIC[i] {
            assert(bytes@.take(10)[i as int] != MAGIC@[i as int]);
            return Err(FrameError::BadMagic);
        }
        assert(bytes@.take(i + 1) =~= bytes@.take(i as int).push(bytes@[i as int]));
        assert(MAGIC@.take(i + 1) =~= MAGIC@.take(i as int).push(MAGIC@[i as int]));
        i += 1;
    }
    assert(MAGIC@.take(10) =~= MAGIC@);
    let version = u32_from_le_bytes(slice_subrange(bytes.as_slice(), 10, 14));
    if version < 1 || version > VERSION {
        return Err(FrameError::UnknownVersion(version));
    }
    let mut payload: Vec<u8> = Vec::new();
    let mut i: usize = HEADER_LEN;
    while i < bytes.len()
        invariant
            HEADER_LEN <= i <= bytes@.len(),
            payload@ == bytes@.subrange(14, i as int),
        decreases bytes@.len() - i,
    {
        payload.push(bytes[i]);
        assert(payload@ =~= bytes@.subrange(14, i + 1));
        i += 1;
    }
    assert(bytes@.subrange(14, i as int) =~= bytes@.skip(14));
    Ok((version, payload))
}

/// Taking framed bytes apart gives back the version and the document that
/// they were framed from, provided that the version is known.
pub proof fn frame_round_trip(version: u32, payload: Seq<u8>)
    requires
        1 <= version <= VERSION,
    ensures
        unframed(framed(version, payload)) == Ok::<(u32, Seq<u8>), FrameError>((version, payload)),
{
    lemma_auto_spec_u32_to_from_le_bytes();
    let bytes = framed(version, payload);
    assert(spec_u32_to_le_bytes(version).len() == 4);
    assert(bytes.take(10) =~= MAGIC@);
    assert(bytes.subrange(10, 14) =~= spec_u32_to_le_bytes(version));
    assert(bytes.skip(14) =~= payload);
}

/// What is saved of a world: its name, its rules, its grid and its bots.
/// The state of the random numbers is not saved.
#[derive(Debug, PartialEq, Eq)]
pub struct SerializedWorld {
    pub name: String,
    pub policy: Policy,
    pub map: TileMap,
    pub bots: Bots,
}

/// Why a saved world cannot go on.
#[derive(Clone, Copy, Debug, PartialEq, Eq, Structural)]
pub enum ResumeError {
    /// The limits of the policy are larger than a tile can tell apart.
    BrokenPolicy,
    /// The grid does not hold one tile for each of its points.
    BrokenMap,
    /// Two bots share an identifier, or two alive bots a tile.
    BrokenBots,
    /// More bots are alive or queued than the policy allows.
    TooManyBots,
}

impl SerializedWorld {
    /// Whether this is what is saved of `world`.
    pub open spec fn describes(self, world: World) -> bool {
        &&& self.name@ == world.name@
        &&& self.policy == world.policy
        &&& self.map.width == world.map.width
        &&& self.map.height == world.map.height
        &&& self.map.tiles@ == world.map.tiles@
        &&& self.bots@ == world.bots@
    }

    /// What keeps a world from going on from this, if anything.
    pub open spec fn fault(self) -> Option<ResumeError> {
        if !self.policy.valid() {
            Some(ResumeError::BrokenPolicy)
        } else if !self.map.wf() {
            Some(ResumeError::BrokenMap)
        } else if !self.bots.wf() {
            Some(ResumeError::BrokenBots)
        } else if self.bots.alive@.len() > self.policy.max_alive_bots || self.bots.queued@.len()
            > self.policy.max_queued_bots {
            Some(ResumeError::TooManyBots)
        } else {
            None
        }
    }

    /// Whether `world` is the world that goes on from this under the
    /// identifier `id` at the time `now`, saved at `path` from then on: it has
    /// the saved name, rules,
    /// grid and bots, runs on the default clock, is not paused, has no spawn
    /// point and announces no events.
    pub open spec fn resumed(self, world: World, id: u64, path: String, now: u64) -> bool {
        &&& world.id == id
        &&& world.name == self.name
        &&& world.policy == self.policy
        &&& world.map == self.map
        &&& world.bots == self.bots
        &&& world.clock == (Clock::Auto { interval: DEFAULT_INTERVAL })
        &&& world.metronome.due == now
        &&& world.spawn == (None::<Pos>, None::<Dir>)
        &&& !world.paused
        &&& !world.step_pending
        &&& world.path == Some(path)
        &&& !world.events
        &&& world.saved_at == now
    }

    /// What is saved of a sound world lets a world go on, and that world has
    /// the same name, the same rules, the same grid and the same bots, each
    /// in its state and at its place.
    pub proof fn round_trip(self, world: World, resumed: World, id: u64, path: String, now: u64)
        requires
            world.wf(),
            self.describes(world),
            self.resumed(resumed, id, path, now),
        ensures
            self.fault().is_none(),
            resumed.wf(),
            resumed.name@ == world.name@,
            resumed.policy == world.policy,
            resumed.map.width == world.map.width,
            resumed.map.height == world.map.height,
            resumed.map.tiles@ == world.map.tiles@,
            forall|pos: Pos| #[trigger] resumed.map.at(pos) == world.map.at(pos),
            resumed.bots@ == world.bots@,
    {
        self.bots.soundness_is_in_the_view(world.bots);
    }
}

impl World {
    /// What is to be saved of this world.
    pub fn serialized(&self) -> (saved: SerializedWorld)
        requires
            self.wf(),
        ensures
            saved.describes(*self),
    {
        SerializedWorld {
            name: self.name.clone(),
            policy: self.policy,
            map: self.map.duplicate(),
            bots: self.bots.duplicate(),
        }
    }
}

/// Lets a world go on, under the identifier `id`, from what was saved of
/// it. The world is saved at `path` from now on, its random numbers start
/// from `entropy`, and `now` is the time at which it goes on.
pub fn resume(id: u64, saved: SerializedWorld, path: String, entropy: [u8; 32], now: u64) -> (result:
    Result<World, ResumeError>)
    ensures
        match result {
            Ok(world) => saved.fault().is_none() && world.wf() && saved.resumed(
                world,
                id,
                path,
                now,
            ),
            Err(error) => saved.fault() == Some(error),
        },
{
    if !saved.policy.is_valid() {
        return Err(ResumeError::BrokenPolicy);
    }
    if !saved.map.check() {
        return Err(ResumeError::BrokenMap);
    }
    if !saved.bots.check() {
        return Err(ResumeError::BrokenBots);
    }
    if saved.bots.alive.len() > saved.policy.max_alive_bots || saved.bots.queued.len()
        > saved.policy.max_queued_bots {
        return Err(ResumeError::TooManyBots);
    }
    let clock = Clock::default();
    Ok(
        World {
            id,
            name: saved.name,
            policy: saved.policy,
            clock,
            metronome: clock.metronome(now),
            map: saved.map,
            bots: saved.bots,
            spawn: (None, None),
            paused: false,
            step_pending: false,
            path: Some(path),
            events: false,
            saved_at: now,
            rng: seeded(entropy),
        },
    )
}

} // verus!
