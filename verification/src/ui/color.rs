//! The colors a terminal may be asked to draw with.

use vstd::prelude::*;
use vstd::std_specs::convert::FromSpecImpl;
use crossterm::style::Color as TerminalColor;

verus! {

/// Declares `crossterm::style::Color`, the color type of the terminal
/// library, to the verifier.
///
/// Nothing is assumed of the type here: the verifier reads its variants and
/// their fields from crossterm's own definition, which is what allows the
/// conversion below to be proved variant by variant.
#[verifier::external_type_specification]
pub struct ExTerminalColor(TerminalColor);

/// Represents a color to be used for text styling purposes.
///
/// The 16 named colors are supported by almost all terminals. The `Rgb` and
/// `AnsiValue` variants are supported by more modern ones.
#[derive(Copy, Clone, Debug, PartialEq, Eq, Hash, Structural)]
pub enum Color {
    /// Black color.
    Black,
    /// Dark grey color.
    DarkGrey,
    /// Light red color.
    Red,
    /// Dark red color.
    DarkRed,
    /// Light green color.
    Green,
    /// Dark green color.
    DarkGreen,
    /// Light yellow color.
    Yellow,
    /// Dark yellow color.
    DarkYellow,
    /// Light blue color.
    Blue,
    /// Dark blue color.
    DarkBlue,
    /// Light magenta color.
    Magenta,
    /// Dark magenta color.
    DarkMagenta,
    /// Light cyan color.
    Cyan,
    /// Dark cyan color.
    DarkCyan,
    /// White color.
    White,
    /// Grey color.
    Grey,
    /// A 24-bit color given by its red, green and blue channels.
    Rgb {
        /// Red channel.
        r: u8,
        /// Green channel.
        g: u8,
        /// Blue channel.
        b: u8,
    },
    /// A color of the 8-bit ANSI palette, given by its index.
    AnsiValue(u8),
}

impl Color {
    /// The terminal library's color that stands for `self`: the like-named
    /// variant, with channels and palette index carried over unchanged.
    pub open spec fn terminal_color(self) -> TerminalColor {
        match self {
            Color::Black => TerminalColor::Black,
            Color::DarkGrey => TerminalColor::DarkGrey,
            Color::Red => TerminalColor::Red,
            Color::DarkRed => TerminalColor::DarkRed,
            Color::Green => TerminalColor::Green,
            Color::DarkGreen => TerminalColor::DarkGreen,
            Color::Yellow => TerminalColor::Yellow,
            Color::DarkYellow => TerminalColor::DarkYellow,
            Color::Blue => TerminalColor::Blue,
            Color::DarkBlue => TerminalColor::DarkBlue,
            Color::Magenta => TerminalColor::Magenta,
            Color::DarkMagenta => TerminalColor::DarkMagenta,
            Color::Cyan => TerminalColor::Cyan,
            Color::DarkCyan => TerminalColor::DarkCyan,
            Color::White => TerminalColor::White,
            Color::Grey => TerminalColor::Grey,
            Color::Rgb { r, g, b } => TerminalColor::Rgb { r, g, b },
            Color::AnsiValue(n) => TerminalColor::AnsiValue(n),
        }
    }

    /// Whether `self` is one of the 16 named colors, which almost all
    /// terminals support.
    pub open spec fn is_named(self) -> bool {
        !(self is Rgb) && !(self is AnsiValue)
    }

    /// The conversion keeps colors apart: two colors that the terminal
    /// library is handed as the same color are the same color.
    pub proof fn lemma_terminal_color_injective(c1: Color, c2: Color)
        requires
            c1.terminal_color() == c2.terminal_color(),
        ensures
            c1 == c2,
    {
    }

    /// The conversion keeps the shape of a color: a 24-bit color stays one
    /// with the same channels, a palette color stays one with the same index,
    /// a named color stays a named color, and no color becomes the terminal
    /// library's `Reset`.
    pub proof fn lemma_terminal_color_keeps_shape(c: Color)
        ensures
            c matches Color::Rgb { r, g, b } ==> c.terminal_color() == (TerminalColor::Rgb {
                r,
                g,
                b,
            }),
            c matches Color::AnsiValue(n) ==> c.terminal_color() == TerminalColor::AnsiValue(n),
            c.is_named() ==> !(c.terminal_color() is Rgb) && !(c.terminal_color() is AnsiValue),
            !(c.terminal_color() is Reset),
    {
    }
}

impl From<Color> for TerminalColor {
    /// Converts a color into the terminal library's representation of it.
    /// Every color has one: the conversion cannot fail.
    fn from(c: Color) -> (out: Self)
        ensures
            out == c.terminal_color(),
    {
        match c {
            Color::Black => TerminalColor::Black,
            Color::DarkGrey => TerminalColor::DarkGrey,
            Color::Red => TerminalColor::Red,
            Color::DarkRed => TerminalColor::DarkRed,
            Color::Green => TerminalColor::Green,
            Color::DarkGreen => TerminalColor::DarkGreen,
            Color::Yellow => TerminalColor::Yellow,
            Color::DarkYellow => TerminalColor::DarkYellow,
            Color::Blue => TerminalColor::Blue,
            Color::DarkBlue => TerminalColor::DarkBlue,
            Color::Magenta => TerminalColor::Magenta,
            Color::DarkMagenta => TerminalColor::DarkMagenta,
            Color::Cyan => TerminalColor::Cyan,
            Color::DarkCyan => TerminalColor::DarkCyan,
            Color::White => TerminalColor::White,
            Color::Grey => TerminalColor::Grey,
            Color::Rgb { r, g, b } => TerminalColor::Rgb { r, g, b },
            Color::AnsiValue(n) => TerminalColor::AnsiValue(n),
        }
    }
}

impl FromSpecImpl<Color> for TerminalColor {
    open spec fn obeys_from_spec() -> bool {
        true
    }

    open spec fn from_spec(c: Color) -> Self {
        c.terminal_color()
    }
}

} // verus!
