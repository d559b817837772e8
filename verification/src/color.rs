//! Terminal palette colors and their resolution to RGBA.
//!
//! Channels are exact fractions: a channel holds the numerator of a fraction
//! over [`CHANNEL_ONE`]. The denominator is chosen so that every palette
//! value (tenths, quarters, hundredths and 255ths) is a whole number.

use vstd::prelude::*;

verus! {

/// The channel value that stands for 1.0.
pub const CHANNEL_ONE: u16 = 5100;

/// An RGBA color in sRGB space; each channel is a fraction over
/// [`CHANNEL_ONE`].
#[derive(Clone, Copy, Debug, PartialEq, Eq, Structural)]
pub struct Rgba {
    pub r: u16,
    pub g: u16,
    pub b: u16,
    pub a: u16,
}

impl Rgba {
    /// Every channel lies between 0.0 and 1.0.
    pub open spec fn wf(self) -> bool {
        &&& self.r <= CHANNEL_ONE
        &&& self.g <= CHANNEL_ONE
        &&& self.b <= CHANNEL_ONE
        &&& self.a <= CHANNEL_ONE
    }

    /// The opaque color with the given channels.
    pub open spec fn opaque(r: int, g: int, b: int) -> Rgba {
        Rgba { r: r as u16, g: g as u16, b: b as u16, a: CHANNEL_ONE }
    }

    /// Opaque white.
    pub open spec fn white() -> Rgba {
        Rgba::opaque(5100, 5100, 5100)
    }

    /// The opaque color with the given channels.
    pub fn srgb(r: u16, g: u16, b: u16) -> (c: Rgba)
        ensures
            c == Rgba::opaque(r as int, g as int, b as int),
    {
        Rgba { r, g, b, a: CHANNEL_ONE }
    }

    /// The same color with another alpha.
    pub fn with_alpha(self, a: u16) -> (c: Rgba)
        ensures
            c == (Rgba { a, ..self }),
    {
        Rgba { r: self.r, g: self.g, b: self.b, a }
    }
}

/// A color as a terminal cell carries it: a name from the 16-color palette,
/// an index into the 256-color palette, literal RGB bytes, or `Reset`, which
/// stands for "the default".
#[derive(Clone, Copy, Debug, PartialEq, Eq, Structural)]
pub enum TermColor {
    Reset,
    Black,
    Red,
    Green,
    Yellow,
    Blue,
    Magenta,
    Cyan,
    Gray,
    DarkGray,
    LightRed,
    LightGreen,
    LightYellow,
    LightBlue,
    LightMagenta,
    LightCyan,
    White,
    Rgb(u8, u8, u8),
    Indexed(u8),
}

/// The channel value of a byte: `v / 255`.
pub open spec fn byte_channel(v: int) -> int {
    20 * v
}

/// Entry `i` of the standard 16-color palette: eight normal colors at 0.8
/// (gray at 0.75), then dark gray at 0.5 and the seven light colors, whose
/// weak channels are 0.33.
pub open spec fn ansi(i: int) -> Rgba {
    if i == 0 {
        Rgba::opaque(0, 0, 0)
    } else if i == 1 {
        Rgba::opaque(4080, 0, 0)
    } else if i == 2 {
        Rgba::opaque(0, 4080, 0)
    } else if i == 3 {
        Rgba::opaque(4080, 4080, 0)
    } else if i == 4 {
        Rgba::opaque(0, 0, 4080)
    } else if i == 5 {
        Rgba::opaque(4080, 0, 4080)
    } else if i == 6 {
        Rgba::opaque(0, 4080, 4080)
    } else if i == 7 {
        Rgba::opaque(3825, 3825, 3825)
    } else if i == 8 {
        Rgba::opaque(2550, 2550, 2550)
    } else if i == 9 {
        Rgba::opaque(5100, 1683, 1683)
    } else if i == 10 {
        Rgba::opaque(1683, 5100, 1683)
    } else if i == 11 {
        Rgba::opaque(5100, 5100, 1683)
    } else if i == 12 {
        Rgba::opaque(1683, 1683, 5100)
    } else if i == 13 {
        Rgba::opaque(5100, 1683, 5100)
    } else if i == 14 {
        Rgba::opaque(1683, 5100, 5100)
    } else {
        Rgba::opaque(5100, 5100, 5100)
    }
}

/// One axis of the 6x6x6 color cube: level 0 is dark, level `k > 0` is the
/// byte `55 + 40 k`.
pub open spec fn cube_level(k: int) -> int {
    if k == 0 {
        0
    } else {
        byte_channel(55 + 40 * k)
    }
}

/// Entry `i` of the 256-color palette: the 16 standard colors, the color
/// cube with blue varying fastest, then a 24-step gray ramp from byte 8 in
/// steps of 10.
pub open spec fn indexed(i: int) -> Rgba {
    if i < 16 {
        ansi(i)
    } else if i < 232 {
        let n = i - 16;
        Rgba::opaque(cube_level(n / 36), cube_level((n / 6) % 6), cube_level(n % 6))
    } else {
        let v = byte_channel(8 + 10 * (i - 232));
        Rgba::opaque(v, v, v)
    }
}

/// The position of a named color in the standard palette.
pub open spec fn ansi_index(color: TermColor) -> int
    recommends
        !(color is Reset) && !(color is Rgb) && !(color is Indexed),
{
    match color {
        TermColor::Black => 0,
        TermColor::Red => 1,
        TermColor::Green => 2,
        TermColor::Yellow => 3,
        TermColor::Blue => 4,
        TermColor::Magenta => 5,
        TermColor::Cyan => 6,
        TermColor::Gray => 7,
        TermColor::DarkGray => 8,
        TermColor::LightRed => 9,
        TermColor::LightGreen => 10,
        TermColor::LightYellow => 11,
        TermColor::LightBlue => 12,
        TermColor::LightMagenta => 13,
        TermColor::LightCyan => 14,
        _ => 15,
    }
}

/// The RGBA value of a terminal color, with `Reset` read as white.
pub open spec fn resolved(color: TermColor) -> Rgba {
    match color {
        TermColor::Reset => Rgba::white(),
        TermColor::Rgb(r, g, b) => Rgba::opaque(
            byte_channel(r as int),
            byte_channel(g as int),
            byte_channel(b as int),
        ),
        TermColor::Indexed(i) => indexed(i as int),
        _ => ansi(ansi_index(color)),
    }
}

/// The RGBA value of a terminal color, with `Reset` read as `default`.
pub open spec fn resolved_or(color: TermColor, default: Rgba) -> Rgba {
    if color is Reset {
        default
    } else {
        resolved(color)
    }
}

fn cube_channel(k: u8) -> (v: u16)
    requires
        k < 6,
    ensures
        v == cube_level(k as int),
{
    if k == 0 {
        0
    } else {
        20 * (55 + 40 * (k as u16))
    }
}

/// Resolves an index into the 256-color palette.
pub fn indexed_color(index: u8) -> (c: Rgba)
    ensures
        c == indexed(index as int),
        c.wf(),
{
    if index < 16 {
        match index {
            0 => Rgba::srgb(0, 0, 0),
            1 => Rgba::srgb(4080, 0, 0),
            2 => Rgba::srgb(0, 4080, 0),
            3 => Rgba::srgb(4080, 4080, 0),
            4 => Rgba::srgb(0, 0, 4080),
            5 => Rgba::srgb(4080, 0, 4080),
            6 => Rgba::srgb(0, 4080, 4080),
            7 => Rgba::srgb(3825, 3825, 3825),
            8 => Rgba::srgb(2550, 2550, 2550),
            9 => Rgba::srgb(5100, 1683, 1683),
            10 => Rgba::srgb(1683, 5100, 1683),
            11 => Rgba::srgb(5100, 5100, 1683),
            12 => Rgba::srgb(1683, 1683, 5100),
            13 => Rgba::srgb(5100, 1683, 5100),
            14 => Rgba::srgb(1683, 5100, 5100),
            _ => Rgba::srgb(5100, 5100, 5100),
        }
    } else if index < 232 {
        let n: u8 = index - 16;
        let b: u8 = n % 6;
        let g: u8 = (n / 6) % 6;
        let r: u8 = n / 36;
        Rgba::srgb(cube_channel(r), cube_channel(g), cube_channel(b))
    } else {
        let v: u16 = 20 * (8 + 10 * ((index - 232) as u16));
        Rgba::srgb(v, v, v)
    }
}

/// Resolves a terminal color, reading `Reset` as white.
pub fn ratatui_color_to_bevy(color: TermColor) -> (c: Rgba)
    ensures
        c == resolved(color),
        c.wf(),
        c.a == CHANNEL_ONE,
{
    match color {
        TermColor::Reset => Rgba::srgb(5100, 5100, 5100),
        TermColor::Black => indexed_color(0),
        TermColor::Red => indexed_color(1),
        TermColor::Green => indexed_color(2),
        TermColor::Yellow => indexed_color(3),
        TermColor::Blue => indexed_color(4),
        TermColor::Magenta => indexed_color(5),
        TermColor::Cyan => indexed_color(6),
        TermColor::Gray => indexed_color(7),
        TermColor::DarkGray => indexed_color(8),
        TermColor::LightRed => indexed_color(9),
        TermColor::LightGreen => indexed_color(10),
        TermColor::LightYellow => indexed_color(11),
        TermColor::LightBlue => indexed_color(12),
        TermColor::LightMagenta => indexed_color(13),
        TermColor::LightCyan => indexed_color(14),
        TermColor::White => indexed_color(15),
        TermColor::Rgb(r, g, b) => Rgba::srgb(20 * (r as u16), 20 * (g as u16), 20 * (b as u16)),
        TermColor::Indexed(i) => indexed_color(i),
    }
}

/// Resolves a foreground color; `Reset` gives `default`.
pub fn ratatui_fg_to_bevy(color: TermColor, default: Rgba) -> (c: Rgba)
    ensures
        c == resolved_or(color, default),
{
    match color {
        TermColor::Reset => default,
        _ => ratatui_color_to_bevy(color),
    }
}

/// Resolves a background color; `Reset` gives `default`.
pub fn ratatui_bg_to_bevy(color: TermColor, default: Rgba) -> (c: Rgba)
    ensures
        c == resolved_or(color, default),
{
    match color {
        TermColor::Reset => default,
        _ => ratatui_color_to_bevy(color),
    }
}

/// Every terminal color resolves to an opaque color with channels in range,
/// so a resolved color is in range as soon as the default is.
pub proof fn lemma_resolved_in_range(color: TermColor, default: Rgba)
    ensures
        resolved(color).wf(),
        resolved(color).a == CHANNEL_ONE,
        default.wf() ==> resolved_or(color, default).wf(),
{
}

/// A named color and its index in the 256-color palette are the same color.
pub proof fn lemma_named_is_indexed(color: TermColor)
    requires
        !(color is Reset),
        !(color is Rgb),
        !(color is Indexed),
    ensures
        0 <= ansi_index(color) < 16,
        resolved(color) == indexed(ansi_index(color)),
{
}

} // verus!
