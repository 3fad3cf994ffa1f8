//! The view of the grid: which character and which colours each cell of
//! the screen shows, and what the mouse and the keyboard do there.

use crate::bot::BotId;
use crate::dir::Dir;
use crate::pos::Pos;
use crate::snapshot::Snapshot;
use crate::tile::{Tile, TileBase};
use crate::ui::{Color, Key, Rect, Ui};
use vstd::prelude::*;

verus! {

/// The view of the grid.
#[derive(Clone, Copy, Debug, PartialEq, Eq, Structural)]
pub struct MapView {
    /// When the bot that the user follows started to blink, in
    /// milliseconds.
    pub blink: u64,
}

/// Something that the user asked for in the view of the grid.
#[derive(Clone, Copy, Debug, PartialEq, Eq, Structural)]
pub enum ViewEvent {
    /// Follow a bot.
    JoinBot { id: BotId },
    /// Move the camera by `delta`.
    MoveCamera { delta: Pos },
}

/// The cursor with which the user picks the place of a new bot.
#[derive(Clone, Copy, Debug, PartialEq, Eq, Structural)]
pub struct Cursor {
    /// The column of the screen that the cursor is in.
    pub x: u32,
    /// The row of the screen that the cursor is in.
    pub y: u32,
    /// Whether a bot can be put where the cursor is.
    pub valid: bool,
}

/// What the view of the grid shows.
#[derive(Debug, PartialEq, Eq)]
pub struct ViewState {
    /// The point of the grid in the middle of the view.
    pub camera: Pos,
    pub snapshot: Snapshot,
    pub paused: bool,
    /// Whether the user watches without being able to follow a bot.
    pub hero_mode: bool,
    /// The bot that the user follows.
    pub bot: Option<BotId>,
    /// The cursor, while the user picks the place of a new bot.
    pub cursor: Option<Cursor>,
}

/// One cell of the screen.
#[derive(Clone, Copy, Debug, PartialEq, Eq, Structural)]
pub struct Cell {
    pub ch: char,
    pub fg: Color,
    pub bg: Color,
}

/// The cells of the view, row by row, and what the user asked for.
#[derive(Debug, PartialEq, Eq)]
pub struct Frame {
    pub cells: Vec<Cell>,
    pub events: Vec<ViewEvent>,
}

/// The character that stands for a tile.
pub open spec fn glyph(tile: Tile) -> char {
    if tile.base == TileBase::BOT {
        '@'
    } else if tile.base == TileBase::BOT_CHEVRON {
        match Dir::from_index(tile.meta@[1] as int) {
            Dir::Up => '\u{2191}',
            Dir::Right => '\u{2192}',
            Dir::Down => '\u{2193}',
            Dir::Left => '\u{2190}',
        }
    } else if tile.base == TileBase::FLOOR {
        '.'
    } else if tile.base == TileBase::WALL_H {
        '-'
    } else if tile.base == TileBase::WALL_V {
        '|'
    } else {
        ' '
    }
}

/// Whether a tile shows a bot or the marker of one, so that its first
/// metadata byte is the slot of a bot.
pub open spec fn names_bot(tile: Tile) -> bool {
    tile.base == TileBase::BOT || tile.base == TileBase::BOT_CHEVRON
}

/// Where the cell in column `dx` and row `dy` stands in the cells of a view
/// that is `width` cells wide.
pub open spec fn cell_index(width: u16, dx: u16, dy: u16) -> int {
    dy * width + dx
}

/// The cell in column `x` of a row before row `rows` stands before the end
/// of that row.
pub proof fn lemma_cell_index(width: int, rows: int, x: int, y: int)
    requires
        0 <= x < width,
        0 <= y < rows,
    ensures
        0 <= y * width + x < rows * width,
        rows * width == width * rows,
{
    assert(0 <= y * width + x < rows * width && rows * width == width * rows)
        by (nonlinear_arith)
        requires
            0 <= x < width,
            0 <= y < rows,
    ;
}

/// What `ui` is for the cell in column `dx` and row `dy` of its area.
pub open spec fn cell_ui(ui: Ui, dx: u16, dy: u16) -> Ui {
    Ui {
        area: Rect { x: (ui.area.x + dx) as u16, y: (ui.area.y + dy) as u16, width: 1, height: 1 },
        ..ui
    }
}

/// The column and the row, within the area of `ui`, of the cell that the
/// cursor is in, if it is in the area.
pub open spec fn cursor_cell(ui: Ui, state: ViewState) -> Option<(u16, u16)> {
    match state.cursor {
        Some(cursor) => if ui.area.x <= cursor.x < ui.area.x + ui.area.width && ui.area.y
            <= cursor.y < ui.area.y + ui.area.height {
            Some(((cursor.x - ui.area.x) as u16, (cursor.y - ui.area.y) as u16))
        } else {
            None
        },
        None => None,
    }
}

/// What the cell of the cursor shows.
pub open spec fn cursor_mark(valid: bool) -> Cell {
    Cell {
        ch: '@',
        fg: Color::Bg,
        bg: if valid {
            Color::Green
        } else {
            Color::Red
        },
    }
}

impl ViewState {
    /// Every tile of the snapshot that shows a bot, or the marker of one,
    /// names a bot that the snapshot lists.
    pub open spec fn wf(self) -> bool {
        &&& self.snapshot.map.wf()
        &&& forall|pos: Pos|
            names_bot(#[trigger] self.snapshot.map.at(pos)) ==> self.snapshot.map.at(pos).meta@[0]
                < self.snapshot.bots.alive@.len()
    }

    /// The bot that `tile` names.
    pub open spec fn bot_of(self, tile: Tile) -> BotId {
        self.snapshot.bots.alive@[tile.meta@[0] as int].id
    }

    /// The point of the grid that is shown in column `dx` and row `dy` of a
    /// view of the given size, if it can be written as a `Pos`.
    pub open spec fn shown_at(self, width: u16, height: u16, dx: u16, dy: u16) -> Option<Pos> {
        let x = self.camera.x - width / 2 + dx;
        let y = self.camera.y - height / 2 + dy;
        if i32::MIN <= x <= i32::MAX && i32::MIN <= y <= i32::MAX {
            Some(Pos { x: x as i32, y: y as i32 })
        } else {
            None
        }
    }

    /// The tile that is shown in column `dx` and row `dy` of a view of the
    /// given size: void where the grid does not reach.
    pub open spec fn tile_at(self, width: u16, height: u16, dx: u16, dy: u16) -> Tile {
        match self.shown_at(width, height, dx, dy) {
            Some(pos) => self.snapshot.map.at(pos),
            None => Tile::plain(TileBase::VOID),
        }
    }
}

impl MapView {
    /// Whether the bot that the user follows is lit at the time `now`: for
    /// the first half of each second since it started to blink, and for one
    /// millisecond more.
    pub open spec fn lit(self, now: u64) -> bool {
        let elapsed = if now >= self.blink {
            now - self.blink
        } else {
            0
        };
        elapsed % 1000 <= 500
    }

    /// Whether the bot on `tile` is shown in black on green: because the
    /// mouse is on it, where the user may follow bots, or because it is the
    /// bot that the user follows, while it is lit.
    pub open spec fn highlighted(self, ui: Ui, state: ViewState, tile: Tile, now: u64) -> bool {
        ui.enabled && tile.base == TileBase::BOT && if ui.hovers(ui.area) && !state.hero_mode {
            true
        } else {
            state.bot == Some(state.bot_of(tile)) && self.lit(now)
        }
    }

    /// What the cell of `ui` shows for `tile`. A bot and its marker have the
    /// colour of the bot, floor is dark gray and walls are gray. In a
    /// paused world everything but the bots is dark gray.
    pub open spec fn cell(self, ui: Ui, state: ViewState, tile: Tile, now: u64) -> Cell {
        let fg = if names_bot(tile) {
            Color::Bot(state.bot_of(tile))
        } else if tile.base == TileBase::FLOOR {
            Color::DarkGray
        } else if tile.base == TileBase::WALL_H || tile.base == TileBase::WALL_V {
            Color::Gray
        } else {
            Color::Fg
        };
        if self.highlighted(ui, state, tile, now) {
            Cell { ch: glyph(tile), fg: Color::Bg, bg: Color::Green }
        } else if ui.enabled && state.paused && tile.base != TileBase::BOT {
            Cell { ch: glyph(tile), fg: Color::DarkGray, bg: Color::Bg }
        } else {
            Cell { ch: glyph(tile), fg, bg: Color::Bg }
        }
    }

    /// What the user asks for at the cell of `ui`, which shows `tile`: to
    /// follow the bot there, by a click on it.
    pub open spec fn join(self, ui: Ui, state: ViewState, tile: Tile) -> Option<ViewEvent> {
        if ui.enabled && tile.base == TileBase::BOT && ui.hovers(ui.area) && !state.hero_mode
            && ui.clicked() {
            Some(ViewEvent::JoinBot { id: state.bot_of(tile) })
        } else {
            None
        }
    }

    /// Draws one tile into the cell that is the area of `ui`.
    pub fn render_tile(&self, ui: &Ui, state: &ViewState, tile: Tile, now: u64) -> (drawn: (
        Cell,
        Option<ViewEvent>,
    ))
        requires
            names_bot(tile) ==> tile.meta@[0] < state.snapshot.bots.alive@.len(),
        ensures
            drawn.0 == self.cell(*ui, *state, tile, now),
            drawn.1 == self.join(*ui, *state, tile),
    {
        let ch;
        let mut fg;
        let mut bg;
        if tile.base == TileBase::BOT {
            ch = '@';
            fg = Color::Bot(state.snapshot.bots.alive[tile.meta[0] as usize].id);
            bg = Color::Bg;
        } else if tile.base == TileBase::BOT_CHEVRON {
            ch = match Dir::from(tile.meta[1]) {
                Dir::Up => '\u{2191}',
                Dir::Right => '\u{2192}',
                Dir::Down => '\u{2193}',
                Dir::Left => '\u{2190}',
            };
            fg = Color::Bot(state.snapshot.bots.alive[tile.meta[0] as usize].id);
            bg = Color::Bg;
        } else if tile.base == TileBase::FLOOR {
            ch = '.';
            fg = Color::DarkGray;
            bg = Color::Bg;
        } else if tile.base == TileBase::WALL_H {
            ch = '-';
            fg = Color::Gray;
            bg = Color::Bg;
        } else if tile.base == TileBase::WALL_V {
            ch = '|';
            fg = Color::Gray;
            bg = Color::Bg;
        } else {
            ch = ' ';
            fg = Color::Fg;
            bg = Color::Bg;
        }
        let mut event: Option<ViewEvent> = None;
        if ui.enabled {
            if state.paused && tile.base != TileBase::BOT {
                fg = Color::DarkGray;
                bg = Color::Bg;
            }
            if tile.base == TileBase::BOT {
                let id = state.snapshot.bots.alive[tile.meta[0] as usize].id;
                if ui.mouse_over(ui.area) && !state.hero_mode {
                    fg = Color::Bg;
                    bg = Color::Green;
                    if ui.mouse_pressed() {
                        event = Some(ViewEvent::JoinBot { id });
                    }
                } else {
                    let elapsed = if now >= self.blink {
                        now - self.blink
                    } else {
                        0
                    };
                    let followed = match state.bot {
                        Some(bot) => bot == id,
                        None => false,
                    };
                    if followed && elapsed % 1000 <= 500 {
                        fg = Color::Bg;
                        bg = Color::Green;
                    }
                }
            }
        }
        (Cell { ch, fg, bg }, event)
    }

    /// What a click in the view asks for: to follow the bot under the mouse.
    pub open spec fn click(self, ui: Ui, state: ViewState) -> Option<ViewEvent> {
        match ui.mouse {
            Some(mouse) => if ui.area.has(mouse.x, mouse.y) {
                let dx = (mouse.x - ui.area.x) as u16;
                let dy = (mouse.y - ui.area.y) as u16;
                self.join(
                    cell_ui(ui, dx, dy),
                    state,
                    state.tile_at(ui.area.width, ui.area.height, dx, dy),
                )
            } else {
                None
            },
            None => None,
        }
    }

    /// Draws the tiles of the grid around the camera into the area of `ui`,
    /// row by row.
    pub fn render_tiles(&self, ui: &Ui, state: &ViewState, now: u64) -> (drawn: (
        Vec<Cell>,
        Option<ViewEvent>,
    ))
        requires
            state.wf(),
            ui.area.x + ui.area.width <= u16::MAX,
            ui.area.y + ui.area.height <= u16::MAX,
        ensures
            drawn.0@.len() == ui.area.width * ui.area.height,
            forall|dx: u16, dy: u16|
                dx < ui.area.width && dy < ui.area.height ==> drawn.0@[#[trigger] cell_index(
                    ui.area.width,
                    dx,
                    dy,
                )] == self.cell(
                    cell_ui(*ui, dx, dy),
                    *state,
                    state.tile_at(ui.area.width, ui.area.height, dx, dy),
                    now,
                ),
            drawn.1 == self.click(*ui, *state),
    {
        let width = ui.area.width;
        let height = ui.area.height;
        let mut cells: Vec<Cell> = Vec::new();
        let mut event: Option<ViewEvent> = None;
        let mut dy: u16 = 0;
        while dy < height
            invariant
                state.wf(),
                width == ui.area.width,
                height == ui.area.height,
                ui.area.x + width <= u16::MAX,
                ui.area.y + height <= u16::MAX,
                dy <= height,
                cells@.len() == dy * width,
                forall|ax: u16, ay: u16|
                    ax < width && ay < dy ==> cells@[#[trigger] cell_index(width, ax, ay)]
                        == self.cell(
                        cell_ui(*ui, ax, ay),
                        *state,
                        state.tile_at(width, height, ax, ay),
                        now,
                    ),
                event == if ui.mouse matches Some(mouse) && ui.area.has(mouse.x, mouse.y)
                    && mouse.y - ui.area.y < dy {
                    self.click(*ui, *state)
                } else {
                    None
                },
            decreases height - dy,
        {
            let mut dx: u16 = 0;
            while dx < width
                invariant
                    state.wf(),
                    width == ui.area.width,
                    height == ui.area.height,
                    ui.area.x + width <= u16::MAX,
                    ui.area.y + height <= u16::MAX,
                    dy < height,
                    dx <= width,
                    cells@.len() == dy * width + dx,
                    forall|ax: u16, ay: u16|
                        ax < width && ay < dy ==> cells@[#[trigger] cell_index(width, ax, ay)]
                            == self.cell(
                            cell_ui(*ui, ax, ay),
                            *state,
                            state.tile_at(width, height, ax, ay),
                            now,
                        ),
                    forall|ax: u16|
                        ax < dx ==> cells@[#[trigger] cell_index(width, ax, dy)] == self.cell(
                            cell_ui(*ui, ax, dy),
                            *state,
                            state.tile_at(width, height, ax, dy),
                            now,
                        ),
                    event == if ui.mouse matches Some(mouse) && ui.area.has(mouse.x, mouse.y) && (
                    mouse.y - ui.area.y < dy || (mouse.y - ui.area.y == dy && mouse.x - ui.area.x
                        < dx)) {
                        self.click(*ui, *state)
                    } else {
                        None
                    },
                decreases width - dx,
            {
                let x = state.camera.x as i64 - (width / 2) as i64 + dx as i64;
                let y = state.camera.y as i64 - (height / 2) as i64 + dy as i64;
                let tile = if -0x8000_0000 <= x && x <= 0x7fff_ffff && -0x8000_0000 <= y && y
                    <= 0x7fff_ffff {
                    state.snapshot.map.get(Pos { x: x as i32, y: y as i32 })
                } else {
                    Tile::new(TileBase::VOID)
                };
                assert(tile == state.tile_at(width, height, dx, dy));
                let cell_ui = Ui {
                    area: Rect { x: ui.area.x + dx, y: ui.area.y + dy, width: 1, height: 1 },
                    enabled: ui.enabled,
                    mouse: ui.mouse,
                    key: ui.key,
                    row: ui.row,
                };
                let (cell, join) = self.render_tile(&cell_ui, state, tile, now);
                let ghost before = cells@;
                cells.push(cell);
                if join.is_some() {
                    event = join;
                }
                proof {
                    assert forall|ax: u16, ay: u16| ax < width && ay < dy implies cells@[#[trigger] cell_index(
                        width,
                        ax,
                        ay,
                    )] == before[cell_index(width, ax, ay)] by {
                        lemma_cell_index(width as int, dy as int, ax as int, ay as int);
                    }
                }
                dx += 1;
            }
            assert(dy * width + width == (dy + 1) * width) by (nonlinear_arith);
            dy += 1;
        }
        assert(height * width == width * height) by (nonlinear_arith);
        (cells, event)
    }

    /// Draws the cursor with which the user picks the place of a new bot,
    /// if the cursor is in the area of `ui`: an `@` in black, on green where
    /// a bot can be put, on red where none can.
    pub fn render_cursor(&self, ui: &Ui, state: &ViewState, cells: &mut Vec<Cell>)
        requires
            old(cells)@.len() == ui.area.width * ui.area.height,
        ensures
            final(cells)@ == match cursor_cell(*ui, *state) {
                Some((dx, dy)) => old(cells)@.update(
                    cell_index(ui.area.width, dx, dy),
                    cursor_mark(state.cursor.unwrap().valid),
                ),
                None => old(cells)@,
            },
    {
        if let Some(cursor) = state.cursor {
            let x = cursor.x as i64 - ui.area.x as i64;
            let y = cursor.y as i64 - ui.area.y as i64;
            if x >= 0 && y >= 0 && x < ui.area.width as i64 && y < ui.area.height as i64 {
                let bg = if cursor.valid {
                    Color::Green
                } else {
                    Color::Red
                };
                proof {
                    lemma_cell_index(ui.area.width as int, ui.area.height as int, x as int, y as int);
                }
                let row: usize = y as usize;
                let width: usize = ui.area.width as usize;
                assert(row * width == y * ui.area.width);
                assert(cells.len() <= usize::MAX);
                let index = row * width + (x as usize);
                cells.set(index, Cell { ch: '@', fg: Color::Bg, bg });
            }
        }
    }

    /// What a key asks for: `w`, `a`, `s`, `d` and the arrows move the
    /// camera by a third of the view, as long as the view reacts.
    pub open spec fn camera_move(ui: Ui) -> Option<ViewEvent> {
        let x = (ui.area.width / 3) as i32;
        let y = (ui.area.height / 3) as i32;
        if !ui.enabled {
            None
        } else if ui.key == Some(Key::Char('w')) || ui.key == Some(Key::UpArrow) {
            Some(ViewEvent::MoveCamera { delta: Pos { x: 0, y: (-y) as i32 } })
        } else if ui.key == Some(Key::Char('a')) || ui.key == Some(Key::LeftArrow) {
            Some(ViewEvent::MoveCamera { delta: Pos { x: (-x) as i32, y: 0 } })
        } else if ui.key == Some(Key::Char('s')) || ui.key == Some(Key::DownArrow) {
            Some(ViewEvent::MoveCamera { delta: Pos { x: 0, y } })
        } else if ui.key == Some(Key::Char('d')) || ui.key == Some(Key::RightArrow) {
            Some(ViewEvent::MoveCamera { delta: Pos { x, y: 0 } })
        } else {
            None
        }
    }

    /// Handles the keyboard.
    pub fn process_keys(&self, ui: &Ui) -> (event: Option<ViewEvent>)
        ensures
            event == MapView::camera_move(*ui),
    {
        if !ui.enabled {
            return None;
        }
        let x = (ui.area.width / 3) as i32;
        let y = (ui.area.height / 3) as i32;
        if ui.key(Key::Char('w')) || ui.key(Key::UpArrow) {
            Some(ViewEvent::MoveCamera { delta: Pos { x: 0, y: -y } })
        } else if ui.key(Key::Char('a')) || ui.key(Key::LeftArrow) {
            Some(ViewEvent::MoveCamera { delta: Pos { x: -x, y: 0 } })
        } else if ui.key(Key::Char('s')) || ui.key(Key::DownArrow) {
            Some(ViewEvent::MoveCamera { delta: Pos { x: 0, y } })
        } else if ui.key(Key::Char('d')) || ui.key(Key::RightArrow) {
            Some(ViewEvent::MoveCamera { delta: Pos { x, y: 0 } })
        } else {
            None
        }
    }

    /// Draws the view: the tiles, the cursor on top of them, and what the
    /// mouse and the keyboard ask for, in this order.
    pub fn render(&self, ui: &Ui, state: &ViewState, now: u64) -> (frame: Frame)
        requires
            state.wf(),
            ui.area.x + ui.area.width <= u16::MAX,
            ui.area.y + ui.area.height <= u16::MAX,
        ensures
            frame.cells@.len() == ui.area.width * ui.area.height,
            forall|dx: u16, dy: u16|
                dx < ui.area.width && dy < ui.area.height ==> frame.cells@[#[trigger] cell_index(
                    ui.area.width,
                    dx,
                    dy,
                )] == if cursor_cell(*ui, *state) == Some((dx, dy)) {
                    cursor_mark(state.cursor.unwrap().valid)
                } else {
                    self.cell(
                        cell_ui(*ui, dx, dy),
                        *state,
                        state.tile_at(ui.area.width, ui.area.height, dx, dy),
                        now,
                    )
                },
            frame.events@ == match self.click(*ui, *state) {
                Some(event) => seq![event],
                None => Seq::<ViewEvent>::empty(),
            } + match MapView::camera_move(*ui) {
                Some(event) => seq![event],
                None => Seq::<ViewEvent>::empty(),
            },
    {
        let (mut cells, click) = self.render_tiles(ui, state, now);
        let ghost tiles = cells@;
        self.render_cursor(ui, state, &mut cells);
        let mut events: Vec<ViewEvent> = Vec::new();
        if let Some(event) = click {
            events.push(event);
        }
        if let Some(event) = self.process_keys(ui) {
            events.push(event);
        }
        proof {
            if let Some((cx, cy)) = cursor_cell(*ui, *state) {
                lemma_cell_index(ui.area.width as int, ui.area.height as int, cx as int, cy as int);
            }
            assert(cells@.len() == tiles.len());
            assert forall|dx: u16, dy: u16|
                dx < ui.area.width && dy < ui.area.height implies cells@[#[trigger] cell_index(
                ui.area.width,
                dx,
                dy,
            )] == if cursor_cell(*ui, *state) == Some((dx, dy)) {
                cursor_mark(state.cursor.unwrap().valid)
            } else {
                self.cell(
                    cell_ui(*ui, dx, dy),
                    *state,
                    state.tile_at(ui.area.width, ui.area.height, dx, dy),
                    now,
                )
            } by {
                lemma_cell_index(
                    ui.area.width as int,
                    ui.area.height as int,
                    dx as int,
                    dy as int,
                );
                if let Some((cx, cy)) = cursor_cell(*ui, *state) {
                    lemma_cell_index(
                        ui.area.width as int,
                        ui.area.height as int,
                        cx as int,
                        cy as int,
                    );
                    crate::tile_map::lemma_slots(
                        ui.area.width as int,
                        ui.area.height as int,
                        dx as int,
                        dy as int,
                        cx as int,
                        cy as int,
                    );
                }
            }
            assert(events@ =~= match self.click(*ui, *state) {
                Some(event) => seq![event],
                None => Seq::<ViewEvent>::empty(),
            } + match MapView::camera_move(*ui) {
                Some(event) => seq![event],
                None => Seq::<ViewEvent>::empty(),
            });
        }
        Frame { cells, events }
    }
}

} // verus!
