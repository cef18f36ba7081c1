//! Colours of the console's text, and the colour in which a memory word is shown.

use vstd::prelude::*;

verus! {

/// A colour of the terminal: one of its named colours, or red, green and blue.
#[derive(Debug, Clone, Copy, PartialEq, Eq, Structural)]
pub enum Color {
    White,
    Gray,
    DarkGray,
    Red,
    Green,
    Blue,
    Yellow,
    LightRed,
    LightGreen,
    LightBlue,
    LightYellow,
    LightCyan,
    Rgb(u8, u8, u8),
}

/// A piece of text in one colour.
#[derive(Debug, Clone, PartialEq, Eq)]
pub struct ColoredString {
    pub text: String,
    pub color: Color,
}

impl ColoredString {
    /// The text in the colour.
    pub fn new(text: String, color: Color) -> (s: Self)
        ensures
            s.text == text,
            s.color == color,
    {
        ColoredString { text, color }
    }
}

/// The brightness of one channel: `level` out of `top` spread over the upper
/// half of the range, so that 0 gives 127 and `top` gives 255.
pub open spec fn channel(level: int, top: int) -> int {
    (255 * (top + level)) / (2 * top)
}

/// The colour in which a word is shown: dark grey for 0; for any other word its
/// five high bits as red, the six bits below as green and the five low bits as
/// blue.
pub open spec fn color_of(value: u16) -> Color {
    if value == 0 {
        Color::Rgb(64, 64, 64)
    } else {
        Color::Rgb(
            channel(((value / 0x800) % 0x20) as int, 31) as u8,
            channel(((value / 0x20) % 0x40) as int, 63) as u8,
            channel((value % 0x20) as int, 31) as u8,
        )
    }
}

/// The colour in which a word is shown.
pub fn color_from_value(value: u16) -> (color: Color)
    ensures
        color == color_of(value),
{
    if value == 0 {
        return Color::Rgb(64, 64, 64);
    }
    let red: u32 = ((value / 0x800) % 0x20) as u32;
    let green: u32 = ((value / 0x20) % 0x40) as u32;
    let blue: u32 = (value % 0x20) as u32;
    let r: u32 = (255 * (31 + red)) / 62;
    let g: u32 = (255 * (63 + green)) / 126;
    let b: u32 = (255 * (31 + blue)) / 62;
    Color::Rgb(r as u8, g as u8, b as u8)
}

} // verus!
