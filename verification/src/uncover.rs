//! Uncovers a fresh grid bit by bit, for the player to watch: from up to
//! two floor tiles picked by chance the uncovered part grows by one tile at
//! a time, in an order that chance picks. The first metadata byte of a tile
//! tells meanwhile whether the tile is uncovered.

use crate::dir::Dir;
use crate::pos::Pos;
use crate::rng::random_below;
use crate::tile::{Tile, TileBase};
use crate::tile_map::TileMap;
use rand::rngs::SmallRng;
use vstd::prelude::*;

verus! {

/// The mark of a tile that is still covered.
pub const NOT_VISITED: u8 = 0;

/// The mark of a tile that is uncovered.
pub const VISITED: u8 = 1;

/// How many points of the grid are tried at random to find the tiles from
/// which the uncovering starts.
pub const SEED_ATTEMPTS: u32 = 1024;

/// How many tiles are uncovered from one picture of the grid to the next.
pub const FRAME_EVERY: u8 = 64;

/// A grid that is being uncovered.
#[derive(Debug, PartialEq, Eq)]
pub struct Uncover {
    pub map: TileMap,
    /// The points that wait to be uncovered; a point may wait more than
    /// once, and may be uncovered already.
    pub frontier: Vec<Pos>,
    /// How many tiles were uncovered since the last picture was due.
    pub nth: u8,
}

/// What a picture shows of a tile: nothing, while the tile is covered.
pub open spec fn hidden(tile: Tile) -> Tile {
    if tile.meta@[0] == NOT_VISITED {
        Tile::plain(TileBase::VOID)
    } else {
        tile
    }
}

/// A tile with the given mark in its first metadata byte.
pub open spec fn marked_as(tile: Tile, mark: u8) -> Tile {
    Tile { base: tile.base, meta: [mark, tile.meta@[1], tile.meta@[2]] }
}

/// The tile `tile` with the given mark.
fn with_mark(tile: Tile, mark: u8) -> (marked: Tile)
    ensures
        marked == marked_as(tile, mark),
{
    let marked = Tile { base: tile.base, meta: [mark, tile.meta[1], tile.meta[2]] };
    assert(marked.meta =~= marked_as(tile, mark).meta);
    marked
}

/// Those of the first `n` neighbours of `pos`, counted clockwise from the
/// one above, that lie on the grid.
pub open spec fn neighbours_upto(map: TileMap, pos: Pos, n: int) -> Seq<Pos>
    decreases n,
{
    if n <= 0 {
        Seq::empty()
    } else {
        let next = pos.plus(Dir::all_dirs()[n - 1].offset());
        if map.has(next) {
            neighbours_upto(map, pos, n - 1).push(next)
        } else {
            neighbours_upto(map, pos, n - 1)
        }
    }
}

/// The neighbours of `pos` that lie on the grid, clockwise from the one
/// above.
pub open spec fn neighbours(map: TileMap, pos: Pos) -> Seq<Pos> {
    neighbours_upto(map, pos, 4)
}

impl Uncover {
    /// The grid is sound and every point that waits lies on it.
    pub open spec fn wf(self) -> bool {
        &&& self.map.wf()
        &&& self.nth < FRAME_EVERY
        &&& forall|i: int| 0 <= i < self.frontier@.len() ==> self.map.has(#[trigger] self.frontier@[i])
    }

    /// Starts to uncover `map`: looks for two floor tiles by trying points
    /// of the grid at random, and lets them wait to be uncovered.
    pub fn start(map: TileMap, rng: &mut SmallRng) -> (uncover: Uncover)
        requires
            map.wf(),
        ensures
            uncover.wf(),
            uncover.map == map,
            uncover.nth == 0,
            uncover.frontier@.len() <= 2,
            forall|i: int|
                0 <= i < uncover.frontier@.len() ==> map.at(#[trigger] uncover.frontier@[i]).base
                    == TileBase::FLOOR,
    {
        let mut frontier: Vec<Pos> = Vec::new();
        if map.width > 0 && map.height > 0 {
            let mut attempts: u32 = 0;
            while attempts < SEED_ATTEMPTS && frontier.len() < 2
                invariant
                    map.wf(),
                    map.width > 0,
                    map.height > 0,
                    frontier@.len() <= 2,
                    forall|i: int| 0 <= i < frontier@.len() ==> map.has(#[trigger] frontier@[i]),
                    forall|i: int|
                        0 <= i < frontier@.len() ==> map.at(#[trigger] frontier@[i]).base
                            == TileBase::FLOOR,
                decreases SEED_ATTEMPTS - attempts,
            {
                let pos = map.sample_pos(rng);
                if map.get(pos).is_floor() {
                    frontier.push(pos);
                }
                attempts += 1;
            }
        }
        Uncover { map, frontier, nth: 0 }
    }

    /// Whether nothing waits to be uncovered any more.
    pub fn is_done(&self) -> (done: bool)
        ensures
            done == (self.frontier@.len() == 0),
    {
        self.frontier.len() == 0
    }

    /// Whether `after` and `frame` are what one step makes of this, when
    /// chance picks the waiting point at place `pick`. The point leaves the
    /// waiting ones, and the last of them takes its place. If its tile is
    /// uncovered already, that is all. Else the tile is uncovered and its
    /// neighbours on the grid wait from now on; and with the first tile
    /// that is uncovered, and then with every 64th after it, comes a
    /// picture of the grid as far as it is uncovered.
    pub open spec fn stepped(self, after: Uncover, frame: Option<TileMap>, pick: int) -> bool {
        let pos = self.frontier@[pick];
        let rest = self.frontier@.update(pick, self.frontier@.last()).drop_last();
        &&& 0 <= pick < self.frontier@.len()
        &&& after.map.width == self.map.width
        &&& after.map.height == self.map.height
        &&& if self.map.at(pos).meta@[0] == NOT_VISITED {
            &&& forall|p: Pos| #[trigger]
                after.map.at(p) == if p == pos {
                    marked_as(self.map.at(pos), VISITED)
                } else {
                    self.map.at(p)
                }
            &&& after.frontier@ == rest + neighbours(self.map, pos)
            &&& after.nth == (self.nth + 1) % (FRAME_EVERY as int)
            &&& frame.is_some() == (self.nth == 0)
            &&& frame matches Some(picture) ==> {
                &&& picture.wf()
                &&& picture.width == self.map.width
                &&& picture.height == self.map.height
                &&& forall|i: int|
                    0 <= i < picture.tiles@.len() ==> #[trigger] picture.tiles@[i] == hidden(
                        after.map.tiles@[i],
                    )
            }
        } else {
            &&& after.map == self.map
            &&& after.frontier@ == rest
            &&& after.nth == self.nth
            &&& frame.is_none()
        }
    }

    /// Takes one step: picks one of the waiting points by chance and
    /// uncovers its tile. Something must be waiting.
    pub fn advance(&mut self, rng: &mut SmallRng) -> (frame: Option<TileMap>)
        requires
            old(self).wf(),
            old(self).frontier@.len() > 0,
        ensures
            final(self).wf(),
            exists|pick: int| #[trigger] old(self).stepped(*final(self), frame, pick),
    {
        let pick = random_below(rng, self.frontier.len());
        let pos = self.frontier.swap_remove(pick);
        let tile = self.map.get(pos);
        if tile.meta[0] != NOT_VISITED {
            assert(old(self).stepped(*self, None, pick as int));
            return None;
        }
        self.map.set(pos, with_mark(tile, VISITED));
        let ghost rest = self.frontier@;
        let ghost marked = self.map;
        let dirs = Dir::all();
        let mut i: usize = 0;
        while i < 4
            invariant
                i <= 4,
                dirs@ == Dir::all_dirs(),
                self.map == marked,
                self.map.wf(),
                self.map.width == old(self).map.width,
                self.map.height == old(self).map.height,
                old(self).map.has(pos),
                old(self).map.wf(),
                self.nth == old(self).nth,
                self.nth < FRAME_EVERY,
                forall|k: int|
                    0 <= k < self.frontier@.len() ==> self.map.has(#[trigger] self.frontier@[k]),
                self.frontier@ == rest + neighbours_upto(old(self).map, pos, i as int),
            decreases 4 - i,
        {
            let dir = dirs[i];
            let next = Pos { x: pos.x + dir.as_vec().x, y: pos.y + dir.as_vec().y };
            assert(next == pos.plus(Dir::all_dirs()[i as int].offset()));
            if self.map.contains(next) {
                self.frontier.push(next);
            }
            assert(self.frontier@ =~= rest + neighbours_upto(old(self).map, pos, i + 1));
            i += 1;
        }
        let frame = if self.nth == 0 {
            Some(self.picture())
        } else {
            None
        };
        self.nth = (self.nth + 1) % FRAME_EVERY;
        assert(old(self).stepped(*self, frame, pick as int));
        frame
    }

    /// The grid as far as it is uncovered: covered tiles show as void.
    pub fn picture(&self) -> (picture: TileMap)
        requires
            self.map.wf(),
        ensures
            picture.wf(),
            picture.width == self.map.width,
            picture.height == self.map.height,
            forall|i: int|
                0 <= i < picture.tiles@.len() ==> #[trigger] picture.tiles@[i] == hidden(
                    self.map.tiles@[i],
                ),
    {
        let mut tiles: Vec<Tile> = Vec::new();
        let mut i: usize = 0;
        while i < self.map.tiles.len()
            invariant
                i <= self.map.tiles@.len(),
                tiles@.len() == i,
                forall|k: int| 0 <= k < i ==> #[trigger] tiles@[k] == hidden(self.map.tiles@[k]),
            decreases self.map.tiles@.len() - i,
        {
            let tile = self.map.tiles[i];
            if tile.meta[0] == NOT_VISITED {
                tiles.push(Tile::new(TileBase::VOID));
            } else {
                tiles.push(tile);
            }
            i += 1;
        }
        TileMap { width: self.map.width, height: self.map.height, tiles }
    }

    /// Ends the uncovering: the grid with the marks taken off its tiles.
    pub fn finish(self) -> (map: TileMap)
        requires
            self.map.wf(),
        ensures
            map.wf(),
            map.width == self.map.width,
            map.height == self.map.height,
            forall|i: int|
                0 <= i < map.tiles@.len() ==> #[trigger] map.tiles@[i] == marked_as(
                    self.map.tiles@[i],
                    0,
                ),
    {
        let mut tiles: Vec<Tile> = Vec::new();
        let mut i: usize = 0;
        while i < self.map.tiles.len()
            invariant
                i <= self.map.tiles@.len(),
                tiles@.len() == i,
                forall|k: int|
                    0 <= k < i ==> #[trigger] tiles@[k] == marked_as(self.map.tiles@[k], 0),
            decreases self.map.tiles@.len() - i,
        {
            tiles.push(with_mark(self.map.tiles[i], 0));
            i += 1;
        }
        TileMap { width: self.map.width, height: self.map.height, tiles }
    }
}

} // verus!
