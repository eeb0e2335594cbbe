//! Theme colors: what the color names written in the config file mean, and
//! the resolved theme with its fallbacks.
use vstd::prelude::*;

use std::str::FromStr;

use ratatui::style::Color as C;

use crate::config::ThemeConfig;
use crate::text::{chars_of, string_of, trim, trim_chars};

verus! {

/// A terminal color: one of the named colors, a 24-bit color, or an index
/// into the 256-color palette.
#[derive(Clone, Copy, Debug, PartialEq, Eq, Structural)]
pub enum ThemeColor {
    Reset,
    Black,
    Red,
    Green,
    Yellow,
    Blue,
    Magenta,
    Cyan,
    Gray,
    DarkGray,
    LightRed,
    LightGreen,
    LightYellow,
    LightBlue,
    LightMagenta,
    LightCyan,
    White,
    Rgb(u8, u8, u8),
    Indexed(u8),
}

use ThemeColor as T;

/// The color ratatui's `Color::from_str` reads from a text (a name in any
/// case and spelling it accepts, a palette index, or `#rrggbb`), or `None`
/// when it reads none.
pub uninterp spec fn color_named(s: Seq<char>) -> Option<ThemeColor>;

/// Calls ratatui's `Color::from_str` and carries each variant over to the
/// same variant of [`ThemeColor`]; a parse error gives `None`.
#[verifier::external_body]
fn color_from_str(s: &str) -> (r: Option<ThemeColor>)
    ensures
        r == color_named(s@),
{
    C::from_str(s).ok().map(|c| match c {
        C::Reset => T::Reset, C::Black => T::Black, C::Red => T::Red, C::Green => T::Green,
        C::Yellow => T::Yellow, C::Blue => T::Blue, C::Magenta => T::Magenta, C::Cyan => T::Cyan,
        C::Gray => T::Gray, C::DarkGray => T::DarkGray, C::LightRed => T::LightRed,
        C::LightGreen => T::LightGreen, C::LightYellow => T::LightYellow,
        C::LightBlue => T::LightBlue, C::LightMagenta => T::LightMagenta,
        C::LightCyan => T::LightCyan, C::White => T::White,
        C::Rgb(r, g, b) => T::Rgb(r, g, b), C::Indexed(i) => T::Indexed(i),
    })
}

/// The color a config value names once surrounding whitespace is trimmed,
/// or the fallback when it names none.
pub open spec fn color_or(s: Seq<char>, fallback: ThemeColor) -> ThemeColor {
    match color_named(trim(s)) {
        Some(c) => c,
        None => fallback,
    }
}

/// Reads a color value from the config file, trimmed; a value that names no
/// color gives `fallback`.
pub fn parse_color(s: &str, fallback: ThemeColor) -> (r: ThemeColor)
    ensures
        r == color_or(s@, fallback),
{
    let t = string_of(&trim_chars(&chars_of(s)));
    match color_from_str(t.as_str()) {
        Some(c) => c,
        None => fallback,
    }
}

/// The theme's colors, resolved.
#[derive(Clone, Copy, Debug)]
pub struct Theme {
    pub accent: ThemeColor,
    pub selection_fg: ThemeColor,
    pub border: ThemeColor,
    pub dim: ThemeColor,
    pub muted: ThemeColor,
}

impl ThemeConfig {
    /// The theme's colors; a value that names no color falls back to the
    /// default (cyan, black, dark gray, dark gray, gray).
    pub fn resolve(&self) -> (r: Theme)
        ensures
            r.accent == color_or(self.accent@, ThemeColor::Cyan),
            r.selection_fg == color_or(self.selection_fg@, ThemeColor::Black),
            r.border == color_or(self.border@, ThemeColor::DarkGray),
            r.dim == color_or(self.dim@, ThemeColor::DarkGray),
            r.muted == color_or(self.muted@, ThemeColor::Gray),
    {
        Theme {
            accent: parse_color(self.accent.as_str(), ThemeColor::Cyan),
            selection_fg: parse_color(self.selection_fg.as_str(), ThemeColor::Black),
            border: parse_color(self.border.as_str(), ThemeColor::DarkGray),
            dim: parse_color(self.dim.as_str(), ThemeColor::DarkGray),
            muted: parse_color(self.muted.as_str(), ThemeColor::Gray),
        }
    }
}

} // verus!
