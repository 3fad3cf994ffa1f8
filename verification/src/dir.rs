//! The four directions a bot can face.

use crate::pos::Pos;
use crate::rng::random_below;
use rand::rngs::SmallRng;
use vstd::prelude::*;
use vstd::std_specs::convert::FromSpecImpl;

verus! {

/// A direction on the grid; `Up` points towards smaller `y`.
#[derive(Clone, Copy, Debug, PartialEq, Eq, Hash, Structural)]
pub enum Dir {
    Up,
    Right,
    Down,
    Left,
}

impl Dir {
    /// The position of this direction in clockwise order, starting at `Up`.
    pub open spec fn index(self) -> int {
        match self {
            Dir::Up => 0,
            Dir::Right => 1,
            Dir::Down => 2,
            Dir::Left => 3,
        }
    }

    /// The direction at clockwise position `n`; every `n` other than 0, 1
    /// and 2 gives `Left`.
    pub open spec fn from_index(n: int) -> Dir {
        if n == 0 {
            Dir::Up
        } else if n == 1 {
            Dir::Right
        } else if n == 2 {
            Dir::Down
        } else {
            Dir::Left
        }
    }

    /// The unit step in this direction.
    pub open spec fn offset(self) -> Pos {
        match self {
            Dir::Up => Pos { x: 0, y: -1i32 },
            Dir::Right => Pos { x: 1, y: 0 },
            Dir::Down => Pos { x: 0, y: 1 },
            Dir::Left => Pos { x: -1i32, y: 0 },
        }
    }

    /// This direction after a quarter turn counter-clockwise.
    pub open spec fn left(self) -> Dir {
        match self {
            Dir::Up => Dir::Left,
            Dir::Right => Dir::Up,
            Dir::Down => Dir::Right,
            Dir::Left => Dir::Down,
        }
    }

    /// This direction after a quarter turn clockwise.
    pub open spec fn right(self) -> Dir {
        match self {
            Dir::Up => Dir::Right,
            Dir::Right => Dir::Down,
            Dir::Down => Dir::Left,
            Dir::Left => Dir::Up,
        }
    }

    /// All four directions, clockwise from `Up`.
    pub open spec fn all_dirs() -> Seq<Dir> {
        seq![Dir::Up, Dir::Right, Dir::Down, Dir::Left]
    }

    /// All four directions, clockwise from `Up`.
    pub fn all() -> (dirs: [Dir; 4])
        ensures
            dirs@ == Dir::all_dirs(),
    {
        let dirs = [Dir::Up, Dir::Right, Dir::Down, Dir::Left];
        assert(dirs@ =~= Dir::all_dirs());
        dirs
    }

    /// This direction after a quarter turn counter-clockwise.
    #[must_use]
    pub fn turned_left(self) -> (turned: Dir)
        ensures
            turned == self.left(),
    {
        match self {
            Dir::Up => Dir::Left,
            Dir::Right => Dir::Up,
            Dir::Down => Dir::Right,
            Dir::Left => Dir::Down,
        }
    }

    /// This direction after a quarter turn clockwise.
    #[must_use]
    pub fn turned_right(self) -> (turned: Dir)
        ensures
            turned == self.right(),
    {
        match self {
            Dir::Up => Dir::Right,
            Dir::Right => Dir::Down,
            Dir::Down => Dir::Left,
            Dir::Left => Dir::Up,
        }
    }

    /// The unit step in this direction, as an offset.
    #[must_use]
    pub fn as_vec(&self) -> (step: Pos)
        ensures
            step == self.offset(),
    {
        match self {
            Dir::Up => Pos { x: 0, y: -1 },
            Dir::Right => Pos { x: 1, y: 0 },
            Dir::Down => Pos { x: 0, y: 1 },
            Dir::Left => Pos { x: -1, y: 0 },
        }
    }

    /// A direction picked by chance: the one at the clockwise position that
    /// was drawn from the four there are.
    pub fn sample(rng: &mut SmallRng) -> (dir: Dir)
        ensures
            exists|n: int| 0 <= n < 4 && dir == Dir::from_index(n),
    {
        let n = random_below(rng, 4);
        Dir::from(n as u8)
    }

    /// Turning right undoes turning left, and the other way round.
    pub proof fn turns_cancel(self)
        ensures
            self.left().right() == self,
            self.right().left() == self,
    {
    }

    /// Four quarter turns to the same side give the direction back, and one
    /// turn left is three turns right.
    pub proof fn turns_cycle(self)
        ensures
            self.left().left().left().left() == self,
            self.right().right().right().right() == self,
            self.left() == self.right().right().right(),
    {
    }

    /// A turn moves the clockwise position by one, modulo four.
    pub proof fn turns_move_index(self)
        ensures
            self.right().index() == (self.index() + 1) % 4,
            self.left().index() == (self.index() + 3) % 4,
    {
    }

    /// Every direction has a number below four, and the number gives the
    /// direction back.
    pub proof fn index_round_trip(self)
        ensures
            0 <= self.index() < 4,
            Dir::from_index(self.index()) == self,
    {
    }

    /// A step is one tile long and never diagonal, and the step of the
    /// opposite direction undoes it.
    pub proof fn offsets_are_unit_steps(self)
        ensures
            self.offset().x * self.offset().x + self.offset().y * self.offset().y == 1,
            self.offset().x + self.left().left().offset().x == 0,
            self.offset().y + self.left().left().offset().y == 0,
    {
    }
}

impl From<u8> for Dir {
    fn from(value: u8) -> (dir: Dir) {
        match value {
            0 => Dir::Up,
            1 => Dir::Right,
            2 => Dir::Down,
            _ => Dir::Left,
        }
    }
}

impl FromSpecImpl<u8> for Dir {
    open spec fn obeys_from_spec() -> bool {
        true
    }

    open spec fn from_spec(value: u8) -> Dir {
        Dir::from_index(value as int)
    }
}

impl From<Dir> for u8 {
    fn from(value: Dir) -> (index: u8) {
        match value {
            Dir::Up => 0,
            Dir::Right => 1,
            Dir::Down => 2,
            Dir::Left => 3,
        }
    }
}

impl FromSpecImpl<Dir> for u8 {
    open spec fn obeys_from_spec() -> bool {
        true
    }

    open spec fn from_spec(value: Dir) -> u8 {
        value.index() as u8
    }
}

} // verus!
