//! Console value types.
use vstd::prelude::*;

verus! {

/// The standard console streams.
#[derive(Debug, Clone, Copy, PartialEq, Eq, Structural)]
pub enum StdHandle {
    /// Standard input.
    Input,
    /// Standard output.
    Output,
    /// Standard error.
    Error,
}

/// The state of a console screen buffer.
#[derive(Debug, Clone)]
pub struct ScreenBufferInfo {
    /// Buffer width in characters.
    pub size_x: i16,
    /// Buffer height in characters.
    pub size_y: i16,
    /// Cursor column.
    pub cursor_x: i16,
    /// Cursor row.
    pub cursor_y: i16,
    /// Current text attributes.
    pub attributes: u16,
    /// Left edge of the visible window.
    pub window_left: i16,
    /// Top edge of the visible window.
    pub window_top: i16,
    /// Right edge of the visible window.
    pub window_right: i16,
    /// Bottom edge of the visible window.
    pub window_bottom: i16,
    /// Largest possible window width.
    pub max_window_x: i16,
    /// Largest possible window height.
    pub max_window_y: i16,
}

impl ScreenBufferInfo {
    /// Width of the visible window; both edges are inside it.
    pub fn window_width(&self) -> (r: i16)
        requires
            i16::MIN <= self.window_right - self.window_left + 1 <= i16::MAX,
        ensures
            r == self.window_right - self.window_left + 1,
    {
        (self.window_right as i32 - self.window_left as i32 + 1) as i16
    }

    /// Height of the visible window; both edges are inside it.
    pub fn window_height(&self) -> (r: i16)
        requires
            i16::MIN <= self.window_bottom - self.window_top + 1 <= i16::MAX,
        ensures
            r == self.window_bottom - self.window_top + 1,
    {
        (self.window_bottom as i32 - self.window_top as i32 + 1) as i16
    }
}

/// The sixteen console colors.
#[derive(Debug, Clone, Copy, PartialEq, Eq, Structural)]
pub enum Color {
    Black,
    DarkBlue,
    DarkGreen,
    DarkCyan,
    DarkRed,
    DarkMagenta,
    DarkYellow,
    Gray,
    DarkGray,
    Blue,
    Green,
    Cyan,
    Red,
    Magenta,
    Yellow,
    White,
}

/// The 4-bit code of each color.
pub open spec fn color_code(c: Color) -> u16 {
    match c {
        Color::Black => 0,
        Color::DarkBlue => 1,
        Color::DarkGreen => 2,
        Color::DarkCyan => 3,
        Color::DarkRed => 4,
        Color::DarkMagenta => 5,
        Color::DarkYellow => 6,
        Color::Gray => 7,
        Color::DarkGray => 8,
        Color::Blue => 9,
        Color::Green => 10,
        Color::Cyan => 11,
        Color::Red => 12,
        Color::Magenta => 13,
        Color::Yellow => 14,
        Color::White => 15,
    }
}

impl Color {
    /// The color's 4-bit code.
    pub fn value(self) -> (r: u16)
        ensures
            r == color_code(self),
    {
        match self {
            Color::Black => 0,
            Color::DarkBlue => 1,
            Color::DarkGreen => 2,
            Color::DarkCyan => 3,
            Color::DarkRed => 4,
            Color::DarkMagenta => 5,
            Color::DarkYellow => 6,
            Color::Gray => 7,
            Color::DarkGray => 8,
            Color::Blue => 9,
            Color::Green => 10,
            Color::Cyan => 11,
            Color::Red => 12,
            Color::Magenta => 13,
            Color::Yellow => 14,
            Color::White => 15,
        }
    }

    /// The color coded by the low four bits of `value`.
    pub fn from_u16(value: u16) -> (r: Color)
        ensures
            color_code(r) == value % 16,
    {
        match value % 16 {
            0 => Color::Black,
            1 => Color::DarkBlue,
            2 => Color::DarkGreen,
            3 => Color::DarkCyan,
            4 => Color::DarkRed,
            5 => Color::DarkMagenta,
            6 => Color::DarkYellow,
            7 => Color::Gray,
            8 => Color::DarkGray,
            9 => Color::Blue,
            10 => Color::Green,
            11 => Color::Cyan,
            12 => Color::Red,
            13 => Color::Magenta,
            14 => Color::Yellow,
            _ => Color::White,
        }
    }
}

/// Foreground and background colors of console text.
#[derive(Debug, Clone, Copy, PartialEq, Eq, Structural)]
pub struct TextAttribute {
    foreground: Color,
    background: Color,
}

impl View for TextAttribute {
    type V = (Color, Color);

    /// The foreground and background colors.
    closed spec fn view(&self) -> (Color, Color) {
        (self.foreground, self.background)
    }
}

/// The attribute word: the foreground in the low four bits, the background in the next four.
pub open spec fn attribute_word(fg: Color, bg: Color) -> u16 {
    (color_code(fg) + 16 * color_code(bg)) as u16
}

impl TextAttribute {
    /// Text in `foreground` on `background`.
    pub fn new(foreground: Color, background: Color) -> (r: TextAttribute)
        ensures
            r@ == (foreground, background),
    {
        TextAttribute { foreground, background }
    }

    /// Gray text on black.
    pub fn default_colors() -> (r: TextAttribute)
        ensures
            r@ == (Color::Gray, Color::Black),
    {
        TextAttribute::new(Color::Gray, Color::Black)
    }

    /// The attribute word that the console uses.
    pub fn to_u16(self) -> (r: u16)
        ensures
            r == attribute_word(self@.0, self@.1),
    {
        self.foreground.value() + 16 * self.background.value()
    }

    /// The colors of an attribute word; bits above the low eight are ignored.
    pub fn from_u16(word: u16) -> (r: TextAttribute)
        ensures
            color_code(r@.0) == word % 16,
            color_code(r@.1) == (word / 16) % 16,
    {
        TextAttribute { foreground: Color::from_u16(word), background: Color::from_u16(word / 16) }
    }
}

impl Default for TextAttribute {
    fn default() -> (r: TextAttribute)
        ensures
            r@ == (Color::Gray, Color::Black),
    {
        TextAttribute::default_colors()
    }
}

/// Reading back the word of an attribute gives the same colors: colors whose
/// codes `from_u16` reports for the word are the colors it was made from.
pub proof fn attribute_word_round_trip(fg: Color, bg: Color, fg2: Color, bg2: Color)
    requires
        color_code(fg2) == attribute_word(fg, bg) % 16,
        color_code(bg2) == (attribute_word(fg, bg) / 16) % 16,
    ensures
        fg2 == fg,
        bg2 == bg,
{
    assert(color_code(fg2) == color_code(fg));
    assert(color_code(bg2) == color_code(bg));
}

} // verus!
