//! What the views read of the terminal and what they hand back to be drawn.

use crate::bot::BotId;
use vstd::prelude::*;

verus! {

/// A rectangle of cells on the screen.
#[derive(Clone, Copy, Debug, PartialEq, Eq, Structural)]
pub struct Rect {
    pub x: u16,
    pub y: u16,
    pub width: u16,
    pub height: u16,
}

impl Rect {
    /// Whether the cell in column `x` and row `y` lies in this rectangle.
    pub open spec fn has(self, x: u16, y: u16) -> bool {
        self.x <= x < self.x + self.width && self.y <= y < self.y + self.height
    }

    /// Whether the cell in column `x` and row `y` lies in this rectangle.
    pub fn contains(&self, x: u16, y: u16) -> (inside: bool)
        ensures
            inside == self.has(x, y),
    {
        self.x <= x && x - self.x < self.width && self.y <= y && y - self.y < self.height
    }
}

/// A key of the keyboard.
#[derive(Clone, Copy, Debug, PartialEq, Eq, Structural)]
pub enum Key {
    Char(char),
    Enter,
    Escape,
    UpArrow,
    DownArrow,
    LeftArrow,
    RightArrow,
}

/// Where a piece of text stands within the space it has.
#[derive(Clone, Copy, Debug, PartialEq, Eq, Structural)]
pub enum Alignment {
    Left,
    Center,
    Right,
}

/// A colour of the theme, or the colour that stands for a bot.
#[derive(Clone, Copy, Debug, PartialEq, Eq, Structural)]
pub enum Color {
    Bg,
    Fg,
    Gray,
    DarkGray,
    Green,
    Red,
    Bot(BotId),
}

/// How a piece of text is drawn; `None` leaves a colour as it is.
#[derive(Clone, Copy, Debug, PartialEq, Eq, Structural)]
pub struct Style {
    pub fg: Option<Color>,
    pub bg: Option<Color>,
    pub bold: bool,
}

/// The mouse: where it points, and whether its button went down.
#[derive(Clone, Copy, Debug, PartialEq, Eq, Structural)]
pub struct Mouse {
    pub x: u16,
    pub y: u16,
    pub pressed: bool,
}

/// What a view reads of the terminal while it draws one frame.
#[derive(Clone, Copy, Debug, PartialEq, Eq, Structural)]
pub struct Ui {
    /// The cells that the view may draw on.
    pub area: Rect,
    /// Whether the view reacts to the mouse and the keyboard.
    pub enabled: bool,
    pub mouse: Option<Mouse>,
    /// The key that went down, if one did, without a modifier held.
    pub key: Option<Key>,
    /// Whether the view stands in a row, as opposed to a column.
    pub row: bool,
}

impl Ui {
    /// Whether the mouse points into `area`.
    pub open spec fn hovers(self, area: Rect) -> bool {
        self.mouse matches Some(mouse) && area.has(mouse.x, mouse.y)
    }

    /// Whether the button of the mouse went down.
    pub open spec fn clicked(self) -> bool {
        self.mouse matches Some(mouse) && mouse.pressed
    }

    /// Whether the mouse points into `area`.
    pub fn mouse_over(&self, area: Rect) -> (yes: bool)
        ensures
            yes == self.hovers(area),
    {
        match self.mouse {
            Some(mouse) => area.contains(mouse.x, mouse.y),
            None => false,
        }
    }

    /// Whether the button of the mouse went down.
    pub fn mouse_pressed(&self) -> (yes: bool)
        ensures
            yes == self.clicked(),
    {
        match self.mouse {
            Some(mouse) => mouse.pressed,
            None => false,
        }
    }

    /// Whether `key` went down, without a modifier held.
    pub fn key(&self, key: Key) -> (yes: bool)
        ensures
            yes == (self.key == Some(key)),
    {
        match self.key {
            Some(pressed) => pressed == key,
            None => false,
        }
    }
}

} // verus!
