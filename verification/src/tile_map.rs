//! The grid of tiles that a world is played on.

use crate::pos::Pos;
use crate::tile::{Tile, TileBase};
use crate::rng::random_below;
use rand::rngs::SmallRng;
use vstd::prelude::*;

verus! {

/// A rectangular grid of tiles, stored row by row. Outside of the grid
/// everything is void.
#[derive(Debug, PartialEq, Eq)]
pub struct TileMap {
    pub width: u32,
    pub height: u32,
    pub tiles: Vec<Tile>,
}

/// The row-major slot of a point inside a grid is below the grid's area, and
/// two different points never share one.
pub proof fn lemma_slots(width: int, height: int, x: int, y: int, x2: int, y2: int)
    requires
        0 <= x < width,
        0 <= y < height,
        0 <= x2 < width,
        0 <= y2 < height,
    ensures
        0 <= y * width + x < width * height,
        y * width + x == y2 * width + x2 ==> x == x2 && y == y2,
{
    assert(0 <= y * width + x < width * height) by (nonlinear_arith)
        requires
            0 <= x < width,
            0 <= y < height,
    ;
    assert(y * width + x == y2 * width + x2 ==> y == y2) by (nonlinear_arith)
        requires
            0 <= x < width,
            0 <= x2 < width,
            0 <= y,
            0 <= y2,
    ;
}

impl TileMap {
    /// The grid holds exactly one tile for each of its points, and every
    /// point of it can be written as a `Pos`.
    pub open spec fn wf(self) -> bool {
        &&& self.tiles@.len() == self.width * self.height
        &&& self.width <= i32::MAX
        &&& self.height <= i32::MAX
    }

    /// Whether `pos` lies inside the grid.
    pub open spec fn has(self, pos: Pos) -> bool {
        0 <= pos.x < self.width && 0 <= pos.y < self.height
    }

    /// Where the tile of `pos` is stored.
    pub open spec fn slot(self, pos: Pos) -> int {
        pos.y * self.width + pos.x
    }

    /// The tile at `pos`: void outside of the grid.
    pub open spec fn at(self, pos: Pos) -> Tile {
        if self.has(pos) {
            self.tiles@[self.slot(pos)]
        } else {
            Tile::plain(TileBase::VOID)
        }
    }

    /// A grid of the given size with `tile` everywhere.
    pub fn filled(width: u32, height: u32, tile: Tile) -> (map: TileMap)
        requires
            width <= i32::MAX,
            height <= i32::MAX,
            width * height <= usize::MAX,
        ensures
            map.wf(),
            map.width == width,
            map.height == height,
            forall|pos: Pos| map.has(pos) ==> #[trigger] map.at(pos) == tile,
    {
        let area: usize = (width as usize) * (height as usize);
        let mut tiles: Vec<Tile> = Vec::new();
        let mut n: usize = 0;
        while n < area
            invariant
                n <= area,
                tiles@.len() == n,
                forall|i: int| 0 <= i < n ==> tiles@[i] == tile,
            decreases area - n,
        {
            tiles.push(tile);
            n += 1;
        }
        let map = TileMap { width, height, tiles };
        assert forall|pos: Pos| map.has(pos) implies #[trigger] map.at(pos) == tile by {
            lemma_slots(width as int, height as int, pos.x as int, pos.y as int, 0, 0);
        }
        map
    }

    /// A grid of the given size that is void everywhere.
    pub fn new(width: u32, height: u32) -> (map: TileMap)
        requires
            width <= i32::MAX,
            height <= i32::MAX,
            width * height <= usize::MAX,
        ensures
            map.wf(),
            map.width == width,
            map.height == height,
            forall|pos: Pos| #[trigger] map.at(pos) == Tile::plain(TileBase::VOID),
    {
        TileMap::filled(width, height, Tile::new(TileBase::VOID))
    }

    pub fn width(&self) -> (width: u32)
        ensures
            width == self.width,
    {
        self.width
    }

    pub fn height(&self) -> (height: u32)
        ensures
            height == self.height,
    {
        self.height
    }

    /// Whether `pos` lies inside the grid.
    pub fn contains(&self, pos: Pos) -> (inside: bool)
        ensures
            inside == self.has(pos),
    {
        pos.x >= 0 && pos.y >= 0 && (pos.x as u32) < self.width && (pos.y as u32) < self.height
    }

    /// The slot of a point inside the grid.
    fn index(&self, pos: Pos) -> (slot: usize)
        requires
            self.wf(),
            self.has(pos),
        ensures
            slot == self.slot(pos),
            slot < self.tiles@.len(),
    {
        proof {
            lemma_slots(
                self.width as int,
                self.height as int,
                pos.x as int,
                pos.y as int,
                0,
                0,
            );
            assert(pos.y * self.width >= 0) by (nonlinear_arith)
                requires
                    pos.y >= 0,
                    self.width >= 0,
            ;
        }
        let row: usize = pos.y as usize;
        let column: usize = pos.x as usize;
        let width: usize = self.width as usize;
        assert(row * width == pos.y * self.width);
        assert(self.tiles.len() <= usize::MAX);
        row * width + column
    }

    /// The tile at `pos`: void outside of the grid.
    pub fn get(&self, pos: Pos) -> (tile: Tile)
        requires
            self.wf(),
        ensures
            tile == self.at(pos),
    {
        if self.contains(pos) {
            let slot = self.index(pos);
            self.tiles[slot]
        } else {
            Tile::new(TileBase::VOID)
        }
    }

    /// Puts `tile` at `pos`; outside of the grid nothing changes.
    pub fn set(&mut self, pos: Pos, tile: Tile)
        requires
            old(self).wf(),
        ensures
            final(self).wf(),
            final(self).width == old(self).width,
            final(self).height == old(self).height,
            forall|p: Pos|
                #[trigger] final(self).at(p) == if p == pos && old(self).has(pos) {
                    tile
                } else {
                    old(self).at(p)
                },
    {
        if self.contains(pos) {
            let slot = self.index(pos);
            self.tiles.set(slot, tile);
            assert forall|p: Pos|
                #[trigger] self.at(p) == if p == pos && old(self).has(pos) {
                    tile
                } else {
                    old(self).at(p)
                } by {
                if self.has(p) {
                    lemma_slots(
                        self.width as int,
                        self.height as int,
                        p.x as int,
                        p.y as int,
                        pos.x as int,
                        pos.y as int,
                    );
                }
            }
        }
    }

    /// Whether the grid is sound.
    pub fn check(&self) -> (ok: bool)
        ensures
            ok == self.wf(),
    {
        if self.width > 0x7fff_ffff || self.height > 0x7fff_ffff {
            return false;
        }
        assert(self.width * self.height <= 0x7fff_ffff * 0x7fff_ffff) by (nonlinear_arith)
            requires
                self.width <= 0x7fff_ffff,
                self.height <= 0x7fff_ffff,
        ;
        let area: u64 = (self.width as u64) * (self.height as u64);
        self.tiles.len() as u64 == area
    }

    /// A point of the grid, picked at random: its column is drawn from the
    /// columns of the grid, and then its row from the rows. The grid must
    /// have a point.
    pub fn sample_pos(&self, rng: &mut SmallRng) -> (pos: Pos)
        requires
            self.wf(),
            self.has_points(),
        ensures
            self.has(pos),
    {
        let column = random_below(rng, self.width as usize);
        let row = random_below(rng, self.height as usize);
        self.point(column, row)
    }

    /// Whether the grid has a point at all.
    pub open spec fn has_points(self) -> bool {
        self.width > 0 && self.height > 0
    }

    /// The point of the grid in the given column and row, both counted from
    /// zero.
    pub fn point(&self, column: usize, row: usize) -> (pos: Pos)
        requires
            self.wf(),
            column < self.width,
            row < self.height,
        ensures
            pos == (Pos { x: column as i32, y: row as i32 }),
            pos.x == column,
            pos.y == row,
            self.has(pos),
    {
        Pos { x: column as i32, y: row as i32 }
    }

    /// A copy of this grid.
    pub fn duplicate(&self) -> (copy: TileMap)
        requires
            self.wf(),
        ensures
            copy.wf(),
            copy.width == self.width,
            copy.height == self.height,
            copy.tiles@ == self.tiles@,
    {
        let mut tiles: Vec<Tile> = Vec::new();
        let mut n: usize = 0;
        while n < self.tiles.len()
            invariant
                n <= self.tiles@.len(),
                tiles@ == self.tiles@.subrange(0, n as int),
            decreases self.tiles@.len() - n,
        {
            tiles.push(self.tiles[n]);
            assert(tiles@ =~= self.tiles@.subrange(0, n + 1));
            n += 1;
        }
        assert(tiles@ =~= self.tiles@);
        TileMap { width: self.width, height: self.height, tiles }
    }
}

} // verus!
