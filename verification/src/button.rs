//! A button: a label, with a key in front of it that presses it.

use crate::ui::{Alignment, Color, Key, Rect, Style, Ui};
use vstd::prelude::*;

verus! {

/// A button that has not been drawn yet.
#[derive(Debug, PartialEq, Eq)]
pub struct Button<T> {
    pub key: Option<Key>,
    pub label: String,
    /// The event that the button throws when it is pressed.
    pub throwing: Option<T>,
    pub alignment: Alignment,
    pub enabled: bool,
}

/// What the user did with a button.
#[derive(Clone, Copy, Debug, PartialEq, Eq, Structural)]
pub struct ButtonResponse {
    pub hovered: bool,
    pub pressed: bool,
}

/// A piece of text with the style it is drawn in.
#[derive(Debug, PartialEq, Eq)]
pub struct Span {
    pub text: String,
    pub style: Style,
}

/// A button as it is to be drawn.
#[derive(Debug, PartialEq, Eq)]
pub struct RenderedButton<T> {
    /// The cells that the button takes.
    pub area: Rect,
    /// The pieces of text of the button, from the left.
    pub spans: Vec<Span>,
    pub response: ButtonResponse,
    /// The event that the button throws.
    pub thrown: Option<T>,
    /// How far the view moves on after the button: by its width in a row,
    /// by its height in a column.
    pub space: u16,
}

/// `char::to_string`: the string that holds the one character `ch`.
#[verifier::external_body]
fn char_to_string(ch: char) -> (text: String)
    ensures
        text@ == seq![ch],
{
    ch.to_string()
}

/// The name under which a key is shown: only letters, the space bar, enter
/// and escape have one.
pub open spec fn key_label(key: Key) -> Seq<char> {
    match key {
        Key::Char(ch) => if ch == ' ' {
            "spc"@
        } else {
            seq![ch]
        },
        Key::Enter => "enter"@,
        Key::Escape => "esc"@,
        _ => Seq::empty(),
    }
}

/// Whether a key has a name to be shown under.
pub open spec fn is_named(key: Key) -> bool {
    key is Char || key is Enter || key is Escape
}

/// The number of bytes that `text` takes.
pub open spec fn byte_len(text: Seq<char>) -> nat {
    vstd::utf8::encode_utf8(text).len()
}

/// The style of a button's key and the style of its label.
pub open spec fn styles(active: bool, response: ButtonResponse) -> (Style, Style) {
    if active {
        if response.pressed || response.hovered {
            (
                Style { fg: Some(Color::Bg), bg: Some(Color::Green), bold: true },
                Style { fg: Some(Color::Bg), bg: Some(Color::Green), bold: false },
            )
        } else {
            (
                Style { fg: Some(Color::Green), bg: None, bold: false },
                Style { fg: None, bg: None, bold: false },
            )
        }
    } else {
        (
            Style { fg: Some(Color::DarkGray), bg: None, bold: false },
            Style { fg: Some(Color::DarkGray), bg: None, bold: false },
        )
    }
}

impl<T> Button<T> {
    /// Whether the button can be drawn: its key, if it has one, has a name.
    pub open spec fn wf(self) -> bool {
        self.key matches Some(key) ==> is_named(key)
    }

    /// The width of the button in cells: the label between brackets, or the
    /// key between brackets, a space and the label. Widths past the largest
    /// `u16` wrap around.
    pub open spec fn spec_width(self) -> u16 {
        match self.key {
            Some(key) => (byte_len(key_label(key)) + byte_len(self.label@) + 3) as u16,
            None => (byte_len(self.label@) + 2) as u16,
        }
    }

    /// Where a button of width `width` stands in `area`.
    pub open spec fn spec_layout(self, area: Rect, width: u16) -> Rect {
        Rect {
            x: match self.alignment {
                Alignment::Left => area.x,
                Alignment::Center => (area.x + (area.width - width) / 2) as u16,
                Alignment::Right => (area.x + area.width - width) as u16,
            },
            y: area.y,
            width,
            height: 1,
        }
    }

    /// Whether the button can be laid out in `area` without a column
    /// leaving the range of the screen: on the left every button can. In
    /// the middle the button must not be wider than the area, and the
    /// column it starts in must be one of the screen. On the right the right
    /// edge of the area must be a column of the screen, and the button must
    /// not reach further left than the screen does.
    pub open spec fn fits(self, area: Rect) -> bool {
        match self.alignment {
            Alignment::Left => true,
            Alignment::Center => self.spec_width() <= area.width && area.x + (area.width
                - self.spec_width()) / 2 <= u16::MAX,
            Alignment::Right => area.x + area.width <= u16::MAX && self.spec_width() <= area.x
                + area.width,
        }
    }

    /// Whether the mouse is over a button that stands at `area`, and whether
    /// the button was pressed, by the mouse or by its key. A button that is
    /// disabled, or that stands in a disabled view, is neither.
    pub open spec fn spec_response(self, ui: Ui, area: Rect) -> ButtonResponse {
        let active = ui.enabled && self.enabled;
        let hovered = active && ui.hovers(area);
        ButtonResponse {
            hovered,
            pressed: (hovered && ui.clicked()) || (active && self.key.is_some() && ui.key
                == self.key),
        }
    }

    /// A button with the given key and label, aligned to the left, enabled,
    /// that throws nothing.
    pub fn new(key: Option<Key>, label: String) -> (button: Self)
        ensures
            button.key == key,
            button.label == label,
            button.throwing.is_none(),
            button.alignment == Alignment::Left,
            button.enabled,
    {
        Button { key, label, throwing: None, alignment: Alignment::Left, enabled: true }
    }

    /// This button, throwing `event` when it is pressed.
    pub fn throwing(self, event: T) -> (button: Self)
        ensures
            button == (Button { throwing: Some(event), ..self }),
    {
        let mut button = self;
        button.throwing = Some(event);
        button
    }

    /// This button, standing in the middle.
    pub fn centered(self) -> (button: Self)
        ensures
            button == (Button { alignment: Alignment::Center, ..self }),
    {
        let mut button = self;
        button.alignment = Alignment::Center;
        button
    }

    /// This button, standing on the right.
    pub fn right_aligned(self) -> (button: Self)
        ensures
            button == (Button { alignment: Alignment::Right, ..self }),
    {
        let mut button = self;
        button.alignment = Alignment::Right;
        button
    }

    /// This button, enabled or not.
    pub fn enabled(self, enabled: bool) -> (button: Self)
        ensures
            button == (Button { enabled, ..self }),
    {
        let mut button = self;
        button.enabled = enabled;
        button
    }

    /// The name under which `key` is shown.
    pub fn key_name(key: Key) -> (name: String)
        requires
            is_named(key),
        ensures
            name@ == key_label(key),
    {
        match key {
            Key::Char(ch) => if ch == ' ' {
                String::from_str("spc")
            } else {
                char_to_string(ch)
            },
            Key::Enter => String::from_str("enter"),
            _ => String::from_str("esc"),
        }
    }

    /// The width of the button in cells.
    pub fn width(&self) -> (width: u16)
        requires
            self.wf(),
        ensures
            width == self.spec_width(),
    {
        match self.key {
            Some(key) => {
                let name = Self::key_name(key);
                let wide = name.as_str().as_bytes().len() as u128
                    + self.label.as_str().as_bytes().len() as u128 + 3;
                #[verifier::truncate]
                (wide as u16)
            },
            None => {
                let wide = self.label.as_str().as_bytes().len() as u128 + 2;
                #[verifier::truncate]
                (wide as u16)
            },
        }
    }

    /// Where the button stands in the area of `ui`, in which it must fit.
    pub fn layout(&self, ui: &Ui) -> (area: Rect)
        requires
            self.wf(),
            self.fits(ui.area),
        ensures
            area == self.spec_layout(ui.area, self.spec_width()),
    {
        let width = self.width();
        let x = match self.alignment {
            Alignment::Left => ui.area.x,
            Alignment::Center => ui.area.x + (ui.area.width - width) / 2,
            Alignment::Right => ui.area.x + ui.area.width - width,
        };
        Rect { x, y: ui.area.y, width, height: 1 }
    }

    /// What the user does with the button, which stands at `area`.
    pub fn response(&self, ui: &Ui, area: Rect) -> (response: ButtonResponse)
        ensures
            response == self.spec_response(*ui, area),
    {
        let hovered = ui.enabled && self.enabled && ui.mouse_over(area);
        let by_mouse = hovered && ui.mouse_pressed();
        let by_keyboard = ui.enabled && self.enabled && match self.key {
            Some(key) => ui.key(key),
            None => false,
        };
        ButtonResponse { hovered, pressed: by_mouse || by_keyboard }
    }

    /// The style of the key and the style of the label: dark gray on a
    /// button that does not react, black on green on one that is pressed or
    /// under the mouse, and a green key beside a plain label else.
    pub fn style(&self, ui: &Ui, response: &ButtonResponse) -> (pair: (Style, Style))
        ensures
            pair == styles(ui.enabled && self.enabled, *response),
    {
        let active = ui.enabled && self.enabled;
        let lit = response.pressed || response.hovered;
        let key = if active {
            if lit {
                Style { fg: Some(Color::Bg), bg: Some(Color::Green), bold: true }
            } else {
                Style { fg: Some(Color::Green), bg: None, bold: false }
            }
        } else {
            Style { fg: Some(Color::DarkGray), bg: None, bold: false }
        };
        let label = if active {
            if lit {
                Style { fg: Some(Color::Bg), bg: Some(Color::Green), bold: false }
            } else {
                Style { fg: None, bg: None, bold: false }
            }
        } else {
            Style { fg: Some(Color::DarkGray), bg: None, bold: false }
        };
        (key, label)
    }

    /// Whether `spans` are the pieces of this button, drawn in the styles
    /// `key` and `label`: with a key, a bracket, the key's name, a bracket
    /// with a space, and the label; without one, the label between brackets,
    /// in the style of a key.
    pub open spec fn drawn_as(self, spans: Seq<Span>, key: Style, label: Style) -> bool {
        match self.key {
            Some(code) => {
                &&& spans.len() == 4
                &&& spans[0].text@ == "["@ && spans[0].style == label
                &&& spans[1].text@ == key_label(code) && spans[1].style == key
                &&& spans[2].text@ == "] "@ && spans[2].style == label
                &&& spans[3].text@ == self.label@ && spans[3].style == label
            },
            None => {
                &&& spans.len() == 3
                &&& spans[0].text@ == "["@ && spans[0].style == label
                &&& spans[1].text@ == self.label@ && spans[1].style == key
                &&& spans[2].text@ == "]"@ && spans[2].style == label
            },
        }
    }

    /// Draws the button into the area of `ui`: says where it stands, what
    /// it shows, what the user did with it, and which event it throws. A
    /// button throws its event when it is pressed.
    pub fn render(self, ui: &Ui) -> (rendered: RenderedButton<T>)
        requires
            self.wf(),
            self.fits(ui.area),
        ensures
            rendered.area == self.spec_layout(ui.area, self.spec_width()),
            rendered.response == self.spec_response(*ui, rendered.area),
            self.drawn_as(
                rendered.spans@,
                styles(ui.enabled && self.enabled, rendered.response).0,
                styles(ui.enabled && self.enabled, rendered.response).1,
            ),
            rendered.thrown == if rendered.response.pressed {
                self.throwing
            } else {
                None
            },
            rendered.space == if ui.row {
                rendered.area.width
            } else {
                rendered.area.height
            },
    {
        let area = self.layout(ui);
        let response = self.response(ui, area);
        let (key_style, label_style) = self.style(ui, &response);
        let mut spans: Vec<Span> = Vec::new();
        match self.key {
            Some(key) => {
                spans.push(Span { text: String::from_str("["), style: label_style });
                spans.push(Span { text: Self::key_name(key), style: key_style });
                spans.push(Span { text: String::from_str("] "), style: label_style });
                spans.push(Span { text: self.label, style: label_style });
            },
            None => {
                spans.push(Span { text: String::from_str("["), style: label_style });
                spans.push(Span { text: self.label, style: key_style });
                spans.push(Span { text: String::from_str("]"), style: label_style });
            },
        }
        let space = if ui.row {
            area.width
        } else {
            area.height
        };
        let thrown = if response.pressed {
            self.throwing
        } else {
            None
        };
        RenderedButton { area, spans, response, thrown, space }
    }
}

} // verus!
