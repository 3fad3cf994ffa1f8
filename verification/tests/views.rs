use kartoffels::{
    create, Alignment, BotId, Button, ButtonResponse, Cell, Clock, Color, Config, Cursor, Dir,
    Key, MapView, Mouse, Policy, Pos, Rect, Snapshot, Style, Tile, TileBase, TileMap, Ui,
    ViewEvent, ViewState,
};

fn ui(x: u16, y: u16, width: u16, height: u16) -> Ui {
    Ui { area: Rect { x, y, width, height }, enabled: true, mouse: None, key: None, row: true }
}

fn plain() -> Style {
    Style { fg: None, bg: None, bold: false }
}

fn snapshot() -> (Snapshot, BotId, BotId) {
    let mut map = TileMap::filled(3, 3, Tile::new(TileBase::FLOOR));
    map.set(Pos::new(0, 0), Tile::new(TileBase::WALL_H));
    map.set(Pos::new(0, 1), Tile::new(TileBase::WALL_V));
    map.set(Pos::new(0, 2), Tile::new(b'='));
    let mut world = create(
        Config {
            name: "arena".to_string(),
            clock: Clock::Manual,
            policy: Policy { auto_respawn: true, max_alive_bots: 8, max_queued_bots: 8 },
            map: Some(map),
            seed: Some([2; 32]),
            path: None,
            events: false,
        },
        [0; 32],
        0,
    )
    .unwrap();
    let first = world.create_bot(vec![1], None, false).unwrap();
    let second = world.create_bot(vec![2], None, false).unwrap();
    world.spawn_at(Pos::new(1, 1), Dir::Right);
    world.spawn_at(Pos::new(2, 2), Dir::Up);
    (world.snapshot(), first, second)
}

fn state() -> (ViewState, BotId, BotId) {
    let (snapshot, first, second) = snapshot();
    let state = ViewState {
        camera: Pos::new(1, 1),
        snapshot,
        paused: false,
        hero_mode: false,
        bot: None,
        cursor: None,
    };
    (state, first, second)
}

#[test]
fn a_rect_knows_its_cells() {
    let rect = Rect { x: 2, y: 3, width: 4, height: 1 };
    assert!(rect.contains(2, 3));
    assert!(rect.contains(5, 3));
    assert!(!rect.contains(6, 3));
    assert!(!rect.contains(1, 3));
    assert!(!rect.contains(2, 4));
    assert!(!rect.contains(2, 2));
    assert!(!Rect { x: 0, y: 0, width: 0, height: 5 }.contains(0, 0));
    assert!(Rect { x: 65_535, y: 65_535, width: 1, height: 1 }.contains(65_535, 65_535));
}

#[test]
fn the_ui_tells_about_mouse_and_keys() {
    let mut ui = ui(0, 0, 10, 10);
    assert!(!ui.mouse_over(ui.area));
    assert!(!ui.mouse_pressed());
    assert!(!ui.key(Key::Enter));
    ui.mouse = Some(Mouse { x: 3, y: 4, pressed: true });
    ui.key = Some(Key::Char('x'));
    assert!(ui.mouse_over(ui.area));
    assert!(!ui.mouse_over(Rect { x: 4, y: 4, width: 3, height: 3 }));
    assert!(ui.mouse_pressed());
    assert!(ui.key(Key::Char('x')));
    assert!(!ui.key(Key::Char('y')));
    assert!(!ui.key(Key::Enter));
}

#[test]
fn a_new_button_is_enabled_and_left_aligned() {
    let button: Button<u8> = Button::new(Some(Key::Enter), "go".to_string());
    assert_eq!(
        button,
        Button {
            key: Some(Key::Enter),
            label: "go".to_string(),
            throwing: None,
            alignment: Alignment::Left,
            enabled: true,
        }
    );
    let button = button.throwing(7).centered().enabled(false);
    assert_eq!(button.throwing, Some(7));
    assert_eq!(button.alignment, Alignment::Center);
    assert!(!button.enabled);
    assert_eq!(button.right_aligned().alignment, Alignment::Right);
}

#[test]
fn keys_are_shown_by_name() {
    assert_eq!(Button::<u8>::key_name(Key::Char(' ')), "spc");
    assert_eq!(Button::<u8>::key_name(Key::Char('q')), "q");
    assert_eq!(Button::<u8>::key_name(Key::Char('\u{e9}')), "\u{e9}");
    assert_eq!(Button::<u8>::key_name(Key::Enter), "enter");
    assert_eq!(Button::<u8>::key_name(Key::Escape), "esc");
}

#[test]
fn the_width_counts_brackets_key_and_label() {
    assert_eq!(Button::<u8>::new(None, "close".to_string()).width(), 7);
    assert_eq!(Button::<u8>::new(None, String::new()).width(), 2);
    assert_eq!(Button::<u8>::new(Some(Key::Char('q')), "quit".to_string()).width(), 8);
    assert_eq!(Button::<u8>::new(Some(Key::Char(' ')), "pause".to_string()).width(), 11);
    assert_eq!(Button::<u8>::new(Some(Key::Enter), "ok".to_string()).width(), 10);
    assert_eq!(Button::<u8>::new(Some(Key::Escape), String::new()).width(), 6);
    assert_eq!(Button::<u8>::new(Some(Key::Char('\u{e9}')), "\u{2191}".to_string()).width(), 8);
    assert_eq!(Button::<u8>::new(None, "x".repeat(65_534)).width(), 0);
    assert_eq!(Button::<u8>::new(Some(Key::Char('q')), "x".repeat(65_534)).width(), 2);
}

#[test]
fn the_layout_follows_the_alignment() {
    let ui = ui(10, 5, 20, 3);
    let button: Button<u8> = Button::new(Some(Key::Char('q')), "quit".to_string());
    assert_eq!(button.layout(&ui), Rect { x: 10, y: 5, width: 8, height: 1 });
    let button = button.centered();
    assert_eq!(button.layout(&ui), Rect { x: 16, y: 5, width: 8, height: 1 });
    let button = button.right_aligned();
    assert_eq!(button.layout(&ui), Rect { x: 22, y: 5, width: 8, height: 1 });
    let odd = Button::<u8>::new(None, "close".to_string()).centered();
    assert_eq!(odd.layout(&ui), Rect { x: 16, y: 5, width: 7, height: 1 });
}

#[test]
fn a_button_is_laid_out_as_far_as_the_screen_goes() {
    let centred = Button::<u8>::new(Some(Key::Char('q')), "quit".to_string()).centered();
    let mut edge = ui(65_000, 5, 600, 1);
    assert_eq!(centred.layout(&edge), Rect { x: 65_296, y: 5, width: 8, height: 1 });
    edge.area = Rect { x: 65_527, y: 0, width: 8, height: 1 };
    assert_eq!(centred.layout(&edge), Rect { x: 65_527, y: 0, width: 8, height: 1 });
    let right = Button::<u8>::new(Some(Key::Char('q')), "quit".to_string()).right_aligned();
    let narrow = ui(10, 5, 4, 1);
    assert_eq!(right.layout(&narrow), Rect { x: 6, y: 5, width: 8, height: 1 });
    let corner = ui(65_000, 5, 535, 1);
    assert_eq!(right.layout(&corner), Rect { x: 65_527, y: 5, width: 8, height: 1 });
    let left = Button::<u8>::new(Some(Key::Char('q')), "quit".to_string());
    let beyond = ui(65_535, 5, 65_535, 1);
    assert_eq!(left.layout(&beyond), Rect { x: 65_535, y: 5, width: 8, height: 1 });
}

#[test]
fn a_button_is_pressed_by_its_key_or_by_a_click() {
    let button: Button<u8> = Button::new(Some(Key::Enter), "ok".to_string());
    let area = Rect { x: 0, y: 0, width: 10, height: 1 };
    let mut ui = ui(0, 0, 40, 1);
    assert_eq!(button.response(&ui, area), ButtonResponse { hovered: false, pressed: false });
    ui.key = Some(Key::Enter);
    assert_eq!(button.response(&ui, area), ButtonResponse { hovered: false, pressed: true });
    ui.key = Some(Key::Escape);
    ui.mouse = Some(Mouse { x: 9, y: 0, pressed: false });
    assert_eq!(button.response(&ui, area), ButtonResponse { hovered: true, pressed: false });
    ui.mouse = Some(Mouse { x: 9, y: 0, pressed: true });
    assert_eq!(button.response(&ui, area), ButtonResponse { hovered: true, pressed: true });
    ui.mouse = Some(Mouse { x: 10, y: 0, pressed: true });
    assert_eq!(button.response(&ui, area), ButtonResponse { hovered: false, pressed: false });
    let keyless: Button<u8> = Button::new(None, "ok".to_string());
    ui.key = None;
    assert_eq!(keyless.response(&ui, area), ButtonResponse { hovered: false, pressed: false });
}

#[test]
fn a_disabled_button_does_not_react() {
    let area = Rect { x: 0, y: 0, width: 10, height: 1 };
    let mut ui = ui(0, 0, 40, 1);
    ui.key = Some(Key::Enter);
    ui.mouse = Some(Mouse { x: 1, y: 0, pressed: true });
    let button: Button<u8> = Button::new(Some(Key::Enter), "ok".to_string()).enabled(false);
    assert_eq!(button.response(&ui, area), ButtonResponse { hovered: false, pressed: false });
    let button = button.enabled(true);
    ui.enabled = false;
    assert_eq!(button.response(&ui, area), ButtonResponse { hovered: false, pressed: false });
}

#[test]
fn the_style_tells_the_state_of_a_button() {
    let button: Button<u8> = Button::new(Some(Key::Enter), "ok".to_string());
    let mut ui = ui(0, 0, 40, 1);
    let idle = ButtonResponse { hovered: false, pressed: false };
    let hovered = ButtonResponse { hovered: true, pressed: false };
    let pressed = ButtonResponse { hovered: false, pressed: true };
    let green = Style { fg: Some(Color::Green), bg: None, bold: false };
    let lit = Style { fg: Some(Color::Bg), bg: Some(Color::Green), bold: false };
    let lit_bold = Style { fg: Some(Color::Bg), bg: Some(Color::Green), bold: true };
    let gray = Style { fg: Some(Color::DarkGray), bg: None, bold: false };
    assert_eq!(button.style(&ui, &idle), (green, plain()));
    assert_eq!(button.style(&ui, &hovered), (lit_bold, lit));
    assert_eq!(button.style(&ui, &pressed), (lit_bold, lit));
    ui.enabled = false;
    assert_eq!(button.style(&ui, &pressed), (gray, gray));
    ui.enabled = true;
    assert_eq!(button.enabled(false).style(&ui, &hovered), (gray, gray));
}

#[test]
fn a_button_with_a_key_is_drawn_in_four_pieces() {
    let mut ui = ui(2, 1, 30, 1);
    ui.key = Some(Key::Char('q'));
    let button = Button::new(Some(Key::Char('q')), "quit".to_string()).throwing(5u8);
    let rendered = button.render(&ui);
    assert_eq!(rendered.area, Rect { x: 2, y: 1, width: 8, height: 1 });
    assert_eq!(rendered.response, ButtonResponse { hovered: false, pressed: true });
    assert_eq!(rendered.thrown, Some(5));
    assert_eq!(rendered.space, 8);
    let lit = Style { fg: Some(Color::Bg), bg: Some(Color::Green), bold: false };
    let lit_bold = Style { fg: Some(Color::Bg), bg: Some(Color::Green), bold: true };
    let texts: Vec<(&str, Style)> =
        rendered.spans.iter().map(|span| (span.text.as_str(), span.style)).collect();
    assert_eq!(texts, vec![("[", lit), ("q", lit_bold), ("] ", lit), ("quit", lit)]);
}

#[test]
fn a_button_without_a_key_is_drawn_in_three_pieces() {
    let mut ui = ui(2, 1, 30, 4);
    ui.row = false;
    let button = Button::new(None, "close".to_string()).throwing(5u8).right_aligned();
    let rendered = button.render(&ui);
    assert_eq!(rendered.area, Rect { x: 25, y: 1, width: 7, height: 1 });
    assert_eq!(rendered.response, ButtonResponse { hovered: false, pressed: false });
    assert_eq!(rendered.thrown, None);
    assert_eq!(rendered.space, 1);
    let green = Style { fg: Some(Color::Green), bg: None, bold: false };
    let texts: Vec<(&str, Style)> =
        rendered.spans.iter().map(|span| (span.text.as_str(), span.style)).collect();
    assert_eq!(texts, vec![("[", plain()), ("close", green), ("]", plain())]);
}

#[test]
fn a_button_that_throws_nothing_can_still_be_pressed() {
    let mut ui = ui(0, 0, 30, 1);
    ui.mouse = Some(Mouse { x: 0, y: 0, pressed: true });
    let rendered = Button::<u8>::new(None, "close".to_string()).render(&ui);
    assert_eq!(rendered.response, ButtonResponse { hovered: true, pressed: true });
    assert_eq!(rendered.thrown, None);
}

#[test]
fn tiles_are_drawn_by_their_kind() {
    let (state, first, second) = state();
    let view = MapView { blink: 0 };
    let ui = ui(0, 0, 1, 1);
    let cell = |tile: Tile| view.render_tile(&ui, &state, tile, 0);
    let bg = Color::Bg;
    assert_eq!(cell(Tile::new(TileBase::FLOOR)), (Cell { ch: '.', fg: Color::DarkGray, bg }, None));
    assert_eq!(cell(Tile::new(TileBase::WALL_H)), (Cell { ch: '-', fg: Color::Gray, bg }, None));
    assert_eq!(cell(Tile::new(TileBase::WALL_V)), (Cell { ch: '|', fg: Color::Gray, bg }, None));
    assert_eq!(cell(Tile::new(TileBase::VOID)), (Cell { ch: ' ', fg: Color::Fg, bg }, None));
    assert_eq!(cell(Tile::new(b'=')), (Cell { ch: ' ', fg: Color::Fg, bg }, None));
    assert_eq!(
        cell(Tile::with_meta(TileBase::BOT, 1, 0)),
        (Cell { ch: '@', fg: Color::Bot(second), bg }, None)
    );
    for (number, arrow) in [(0, '\u{2191}'), (1, '\u{2192}'), (2, '\u{2193}'), (3, '\u{2190}')] {
        assert_eq!(
            cell(Tile::with_meta(TileBase::BOT_CHEVRON, 0, number)),
            (Cell { ch: arrow, fg: Color::Bot(first), bg }, None)
        );
    }
    assert_eq!(
        cell(Tile::with_meta(TileBase::BOT_CHEVRON, 0, 9)).0.ch,
        '\u{2190}'
    );
}

#[test]
fn a_paused_world_is_gray_but_for_its_bots() {
    let (mut state, first, second) = state();
    state.paused = true;
    let view = MapView { blink: 0 };
    let mut ui = ui(0, 0, 1, 1);
    let gray = Color::DarkGray;
    let bg = Color::Bg;
    assert_eq!(
        view.render_tile(&ui, &state, Tile::new(TileBase::WALL_H), 0).0,
        Cell { ch: '-', fg: gray, bg }
    );
    assert_eq!(
        view.render_tile(&ui, &state, Tile::new(TileBase::VOID), 0).0,
        Cell { ch: ' ', fg: gray, bg }
    );
    assert_eq!(
        view.render_tile(&ui, &state, Tile::with_meta(TileBase::BOT_CHEVRON, 1, 1), 0).0,
        Cell { ch: '\u{2192}', fg: gray, bg }
    );
    assert_eq!(
        view.render_tile(&ui, &state, Tile::with_meta(TileBase::BOT, 0, 0), 0).0,
        Cell { ch: '@', fg: Color::Bot(first), bg }
    );
    ui.enabled = false;
    assert_eq!(
        view.render_tile(&ui, &state, Tile::new(TileBase::WALL_H), 0).0,
        Cell { ch: '-', fg: Color::Gray, bg }
    );
    assert_eq!(
        view.render_tile(&ui, &state, Tile::with_meta(TileBase::BOT_CHEVRON, 1, 1), 0).0,
        Cell { ch: '\u{2192}', fg: Color::Bot(second), bg }
    );
}

#[test]
fn a_bot_under_the_mouse_is_lit_and_can_be_joined() {
    let (mut state, first, _) = state();
    let view = MapView { blink: 0 };
    let mut ui = ui(4, 4, 1, 1);
    let bot = Tile::with_meta(TileBase::BOT, 0, 0);
    let lit = Cell { ch: '@', fg: Color::Bg, bg: Color::Green };
    let unlit = Cell { ch: '@', fg: Color::Bot(first), bg: Color::Bg };
    ui.mouse = Some(Mouse { x: 4, y: 4, pressed: false });
    assert_eq!(view.render_tile(&ui, &state, bot, 0), (lit, None));
    ui.mouse = Some(Mouse { x: 4, y: 4, pressed: true });
    assert_eq!(
        view.render_tile(&ui, &state, bot, 0),
        (lit, Some(ViewEvent::JoinBot { id: first }))
    );
    assert_eq!(
        view.render_tile(&ui, &state, Tile::new(TileBase::FLOOR), 0),
        (Cell { ch: '.', fg: Color::DarkGray, bg: Color::Bg }, None)
    );
    ui.mouse = Some(Mouse { x: 5, y: 4, pressed: true });
    assert_eq!(view.render_tile(&ui, &state, bot, 0), (unlit, None));
    ui.mouse = Some(Mouse { x: 4, y: 4, pressed: true });
    state.hero_mode = true;
    assert_eq!(view.render_tile(&ui, &state, bot, 0), (unlit, None));
    state.hero_mode = false;
    ui.enabled = false;
    assert_eq!(view.render_tile(&ui, &state, bot, 0), (unlit, None));
}

#[test]
fn the_followed_bot_blinks() {
    let (mut state, first, second) = state();
    state.bot = Some(first);
    let view = MapView { blink: 10_000 };
    let ui = ui(0, 0, 1, 1);
    let bot = Tile::with_meta(TileBase::BOT, 0, 0);
    let lit = Cell { ch: '@', fg: Color::Bg, bg: Color::Green };
    let unlit = Cell { ch: '@', fg: Color::Bot(first), bg: Color::Bg };
    assert_eq!(view.render_tile(&ui, &state, bot, 10_000).0, lit);
    assert_eq!(view.render_tile(&ui, &state, bot, 10_500).0, lit);
    assert_eq!(view.render_tile(&ui, &state, bot, 10_501).0, unlit);
    assert_eq!(view.render_tile(&ui, &state, bot, 10_999).0, unlit);
    assert_eq!(view.render_tile(&ui, &state, bot, 11_000).0, lit);
    assert_eq!(view.render_tile(&ui, &state, bot, 9_000).0, lit);
    let other = Tile::with_meta(TileBase::BOT, 1, 0);
    assert_eq!(
        view.render_tile(&ui, &state, other, 10_000).0,
        Cell { ch: '@', fg: Color::Bot(second), bg: Color::Bg }
    );
    state.hero_mode = true;
    let mut hovering = ui;
    hovering.mouse = Some(Mouse { x: 0, y: 0, pressed: false });
    assert_eq!(view.render_tile(&hovering, &state, bot, 10_000).0, lit);
    assert_eq!(view.render_tile(&hovering, &state, bot, 10_600).0, unlit);
}

#[test]
fn the_view_shows_the_grid_around_the_camera() {
    let (state, first, second) = state();
    let view = MapView { blink: 0 };
    let (cells, event) = view.render_tiles(&ui(5, 5, 5, 3), &state, 0);
    assert_eq!(event, None);
    let text: String = cells.iter().map(|cell| cell.ch).collect();
    assert_eq!(text, " -..  |@\u{2191}   .@ ");
    assert_eq!(cells.len(), 15);
    assert_eq!(cells[7], Cell { ch: '@', fg: Color::Bot(first), bg: Color::Bg });
    assert_eq!(cells[8], Cell { ch: '\u{2191}', fg: Color::Bot(second), bg: Color::Bg });
    assert_eq!(cells[13], Cell { ch: '@', fg: Color::Bot(second), bg: Color::Bg });
    assert_eq!(cells[11], Cell { ch: ' ', fg: Color::Fg, bg: Color::Bg });
}

#[test]
fn the_view_follows_the_camera() {
    let (mut state, _, _) = state();
    let view = MapView { blink: 0 };
    state.camera = Pos::new(2, 2);
    let (cells, _) = view.render_tiles(&ui(0, 0, 2, 2), &state, 0);
    let text: String = cells.iter().map(|cell| cell.ch).collect();
    assert_eq!(text, "@\u{2191}.@");
    state.camera = Pos::new(i32::MIN, i32::MAX);
    let (cells, _) = view.render_tiles(&ui(0, 0, 4, 4), &state, 0);
    assert!(cells.iter().all(|cell| *cell == Cell { ch: ' ', fg: Color::Fg, bg: Color::Bg }));
    assert_eq!(cells.len(), 16);
    let (cells, event) = view.render_tiles(&ui(0, 0, 0, 4), &state, 0);
    assert!(cells.is_empty());
    assert_eq!(event, None);
}

#[test]
fn a_click_on_a_bot_in_the_view_joins_it() {
    let (state, first, second) = state();
    let view = MapView { blink: 0 };
    let mut ui = ui(5, 5, 5, 3);
    ui.mouse = Some(Mouse { x: 7, y: 6, pressed: true });
    let (cells, event) = view.render_tiles(&ui, &state, 0);
    assert_eq!(event, Some(ViewEvent::JoinBot { id: first }));
    assert_eq!(cells[7], Cell { ch: '@', fg: Color::Bg, bg: Color::Green });
    assert_eq!(cells[13], Cell { ch: '@', fg: Color::Bot(second), bg: Color::Bg });
    ui.mouse = Some(Mouse { x: 8, y: 7, pressed: true });
    assert_eq!(view.render_tiles(&ui, &state, 0).1, Some(ViewEvent::JoinBot { id: second }));
    ui.mouse = Some(Mouse { x: 8, y: 6, pressed: true });
    assert_eq!(view.render_tiles(&ui, &state, 0).1, None);
    ui.mouse = Some(Mouse { x: 2, y: 1, pressed: true });
    assert_eq!(view.render_tiles(&ui, &state, 0).1, None);
}

#[test]
fn the_cursor_is_drawn_over_the_tiles() {
    let (mut state, _, _) = state();
    let view = MapView { blink: 0 };
    let ui = ui(5, 5, 5, 3);
    let blank = Cell { ch: ' ', fg: Color::Fg, bg: Color::Bg };
    let mut cells = vec![blank; 15];
    view.render_cursor(&ui, &state, &mut cells);
    assert_eq!(cells, vec![blank; 15]);
    state.cursor = Some(Cursor { x: 6, y: 7, valid: true });
    view.render_cursor(&ui, &state, &mut cells);
    assert_eq!(cells[11], Cell { ch: '@', fg: Color::Bg, bg: Color::Green });
    assert_eq!(cells.iter().filter(|cell| **cell != blank).count(), 1);
    state.cursor = Some(Cursor { x: 9, y: 5, valid: false });
    view.render_cursor(&ui, &state, &mut cells);
    assert_eq!(cells[4], Cell { ch: '@', fg: Color::Bg, bg: Color::Red });
    for (x, y) in [(10, 5), (4, 5), (5, 4), (5, 8), (0, 0), (u32::MAX, u32::MAX)] {
        let mut untouched = vec![blank; 15];
        state.cursor = Some(Cursor { x, y, valid: true });
        view.render_cursor(&ui, &state, &mut untouched);
        assert_eq!(untouched, vec![blank; 15]);
    }
}

#[test]
fn keys_move_the_camera_by_a_third_of_the_view() {
    let view = MapView { blink: 0 };
    let mut ui = ui(0, 0, 31, 12);
    assert_eq!(view.process_keys(&ui), None);
    let moves = [
        (Key::Char('w'), Pos::new(0, -4)),
        (Key::UpArrow, Pos::new(0, -4)),
        (Key::Char('a'), Pos::new(-10, 0)),
        (Key::LeftArrow, Pos::new(-10, 0)),
        (Key::Char('s'), Pos::new(0, 4)),
        (Key::DownArrow, Pos::new(0, 4)),
        (Key::Char('d'), Pos::new(10, 0)),
        (Key::RightArrow, Pos::new(10, 0)),
    ];
    for (key, delta) in moves {
        ui.key = Some(key);
        assert_eq!(view.process_keys(&ui), Some(ViewEvent::MoveCamera { delta }));
    }
    ui.key = Some(Key::Char('x'));
    assert_eq!(view.process_keys(&ui), None);
    ui.key = Some(Key::Enter);
    assert_eq!(view.process_keys(&ui), None);
    ui.key = Some(Key::Char('w'));
    ui.enabled = false;
    assert_eq!(view.process_keys(&ui), None);
}

#[test]
fn render_draws_tiles_cursor_and_events() {
    let (mut state, first, _) = state();
    state.cursor = Some(Cursor { x: 5, y: 5, valid: false });
    let view = MapView { blink: 0 };
    let mut ui = ui(5, 5, 5, 3);
    ui.mouse = Some(Mouse { x: 7, y: 6, pressed: true });
    ui.key = Some(Key::Char('d'));
    let frame = view.render(&ui, &state, 0);
    let text: String = frame.cells.iter().map(|cell| cell.ch).collect();
    assert_eq!(text, "@-..  |@\u{2191}   .@ ");
    assert_eq!(frame.cells[0], Cell { ch: '@', fg: Color::Bg, bg: Color::Red });
    assert_eq!(
        frame.events,
        vec![
            ViewEvent::JoinBot { id: first },
            ViewEvent::MoveCamera { delta: Pos::new(1, 0) },
        ]
    );
    ui.mouse = None;
    assert_eq!(
        view.render(&ui, &state, 0).events,
        vec![ViewEvent::MoveCamera { delta: Pos::new(1, 0) }]
    );
    ui.key = None;
    assert_eq!(view.render(&ui, &state, 0).events, vec![]);
}
