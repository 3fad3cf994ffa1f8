//! Tiles: what one cell of the grid holds.

use vstd::prelude::*;
use vstd::std_specs::convert::FromSpecImpl;

verus! {

/// The base kinds of a tile, as the byte that stands for each.
pub struct TileBase;

impl TileBase {
    /// A bot; the tile's first metadata byte is the bot's slot among the
    /// alive bots.
    pub const BOT: u8 = 64;

    /// The marker in front of a bot: metadata holds the bot's slot, then the
    /// direction it faces.
    pub const BOT_CHEVRON: u8 = 126;

    pub const FLOOR: u8 = 46;

    pub const VOID: u8 = 32;

    /// A horizontal wall.
    pub const WALL_H: u8 = 45;

    /// A vertical wall.
    pub const WALL_V: u8 = 124;
}

/// One cell of the grid: a base kind and three bytes of metadata.
#[derive(Clone, Copy, Debug, PartialEq, Eq)]
pub struct Tile {
    pub base: u8,
    pub meta: [u8; 3],
}

impl Tile {
    /// The tile of kind `base` with all metadata zero.
    pub open spec fn plain(base: u8) -> Tile {
        Tile { base, meta: [0u8, 0u8, 0u8] }
    }

    /// The tile of kind `base` whose metadata starts with `first` and
    /// `second`.
    pub open spec fn marked(base: u8, first: u8, second: u8) -> Tile {
        Tile { base, meta: [first, second, 0u8] }
    }

    pub fn with_meta(base: u8, first: u8, second: u8) -> (tile: Tile)
        ensures
            tile == Tile::marked(base, first, second),
            tile.base == base,
            tile.meta@ == seq![first, second, 0u8],
    {
        let tile = Tile { base, meta: [first, second, 0] };
        assert(tile.meta =~= Tile::marked(base, first, second).meta);
        assert(tile.meta@ =~= seq![first, second, 0u8]);
        tile
    }

    pub fn new(base: u8) -> (tile: Tile)
        ensures
            tile == Tile::plain(base),
    {
        let tile = Tile { base, meta: [0, 0, 0] };
        assert(tile.meta =~= Tile::plain(base).meta);
        tile
    }

    pub fn is_floor(&self) -> (yes: bool)
        ensures
            yes == (self.base == TileBase::FLOOR),
    {
        self.base == TileBase::FLOOR
    }

    pub fn is_void(&self) -> (yes: bool)
        ensures
            yes == (self.base == TileBase::VOID),
    {
        self.base == TileBase::VOID
    }

    pub fn is_bot(&self) -> (yes: bool)
        ensures
            yes == (self.base == TileBase::BOT),
    {
        self.base == TileBase::BOT
    }
}

impl From<u8> for Tile {
    fn from(base: u8) -> (tile: Tile) {
        Tile::new(base)
    }
}

impl FromSpecImpl<u8> for Tile {
    open spec fn obeys_from_spec() -> bool {
        true
    }

    open spec fn from_spec(base: u8) -> Tile {
        Tile::plain(base)
    }
}

} // verus!
