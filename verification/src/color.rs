//! Theme colours: reading a hex string, and the colour as the toolkit stores
//! it.

use crate::text::{strip_leading, strip_leading_spec, trim, trim_spec};
use vstd::prelude::*;

verus! {

/// A colour as the toolkit stores it: sRGB channels multiplied by alpha, and
/// alpha.
#[derive(Clone, Copy, Debug, PartialEq, Eq, Structural)]
pub struct Color {
    pub r: u8,
    pub g: u8,
    pub b: u8,
    pub a: u8,
}

/// A colour as a hex string spells it.
#[derive(Clone, Copy, Debug, PartialEq, Eq, Structural)]
pub enum HexColor {
    /// Six digits: red, green, blue.
    Rgb { r: u8, g: u8, b: u8 },
    /// Eight digits: alpha first, then red, green, blue, not multiplied by
    /// alpha.
    Argb { a: u8, r: u8, g: u8, b: u8 },
}

/// The value of one hex digit, in either case.
pub open spec fn hex_value(c: char) -> Option<u8> {
    let n = c as u32;
    if 0x30 <= n <= 0x39 {
        Some((n - 0x30) as u8)
    } else if 0x61 <= n <= 0x66 {
        Some((n - 0x61 + 10) as u8)
    } else if 0x41 <= n <= 0x46 {
        Some((n - 0x41 + 10) as u8)
    } else {
        None
    }
}

/// The byte that the two hex digits at `at` and `at + 1` spell.
pub open spec fn hex_pair(digits: Seq<char>, at: int) -> Option<u8>
    recommends
        0 <= at,
        at + 1 < digits.len(),
{
    match (hex_value(digits[at]), hex_value(digits[at + 1])) {
        (Some(high), Some(low)) => Some((16 * high + low) as u8),
        _ => None,
    }
}

/// The digits of a colour string: the string without the white space around
/// it and without the `#` signs that then lead it.
pub open spec fn hex_digits(text: Seq<char>) -> Seq<char> {
    strip_leading_spec(trim_spec(text), '#')
}

/// The colour that a run of digits spells, if it spells one: six hex digits
/// for an opaque colour, eight for one with alpha first.
pub open spec fn read_digits_spec(digits: Seq<char>) -> Option<HexColor> {
    if digits.len() == 6 {
        match (hex_pair(digits, 0), hex_pair(digits, 2), hex_pair(digits, 4)) {
            (Some(r), Some(g), Some(b)) => Some(HexColor::Rgb { r, g, b }),
            _ => None,
        }
    } else if digits.len() == 8 {
        match (
            hex_pair(digits, 0),
            hex_pair(digits, 2),
            hex_pair(digits, 4),
            hex_pair(digits, 6),
        ) {
            (Some(a), Some(r), Some(g), Some(b)) => Some(HexColor::Argb { a, r, g, b }),
            _ => None,
        }
    } else {
        None
    }
}

/// The colour that a string spells, if it spells one.
pub open spec fn parse_hex_spec(text: Seq<char>) -> Option<HexColor> {
    read_digits_spec(hex_digits(text))
}

/// Whether `color` is what the toolkit stores for `hex`.
///
/// An opaque colour is stored as it is. Of a colour with alpha the toolkit
/// keeps the alpha; it stores full alpha as opaque and zero alpha as
/// transparent black; in between, the channels are scaled in floating point
/// and nothing is said of them here.
pub open spec fn resolves(hex: HexColor, color: Color) -> bool {
    match hex {
        HexColor::Rgb { r, g, b } => color == (Color { r, g, b, a: 255 }),
        HexColor::Argb { a, r, g, b } => {
            &&& color.a == a
            &&& a == 255 ==> color == (Color { r, g, b, a: 255 })
            &&& a == 0 ==> color == (Color { r: 0, g: 0, b: 0, a: 0 })
        },
    }
}

/// Whether `color` is what reading `text` gives: nothing if `text` spells no
/// colour, else what the toolkit stores for the colour it spells.
#[verifier::opaque]
pub open spec fn spells(text: Seq<char>, color: Option<Color>) -> bool {
    match parse_hex_spec(text) {
        Some(hex) => color matches Some(c) && resolves(hex, c),
        None => color is None,
    }
}

/// Calls `egui::Color32::from_rgb` and hands out the four bytes it stores:
/// the three channels as given, with full alpha.
#[verifier::external_body]
fn color_from_rgb(r: u8, g: u8, b: u8) -> (color: Color)
    ensures
        color == (Color { r, g, b, a: 255 }),
{
    let [r, g, b, a] = egui::Color32::from_rgb(r, g, b).to_array();
    Color { r, g, b, a }
}

/// Calls `egui::Color32::from_rgba_unmultiplied` and hands out the four bytes
/// it stores. The alpha is kept. With full alpha the channels are kept too,
/// with zero alpha all four bytes are zero. In between the channels are
/// multiplied by alpha in floating point, of which nothing is claimed.
#[verifier::external_body]
fn color_from_rgba_unmultiplied(r: u8, g: u8, b: u8, a: u8) -> (color: Color)
    ensures
        color.a == a,
        a == 255 ==> color == (Color { r, g, b, a: 255 }),
        a == 0 ==> color == (Color { r: 0, g: 0, b: 0, a: 0 }),
{
    let [r, g, b, a] = egui::Color32::from_rgba_unmultiplied(r, g, b, a).to_array();
    Color { r, g, b, a }
}

fn hex_digit(c: char) -> (value: Option<u8>)
    ensures
        value == hex_value(c),
{
    let n = c as u32;
    if 0x30 <= n && n <= 0x39 {
        Some((n - 0x30) as u8)
    } else if 0x61 <= n && n <= 0x66 {
        Some((n - 0x61 + 10) as u8)
    } else if 0x41 <= n && n <= 0x46 {
        Some((n - 0x41 + 10) as u8)
    } else {
        None
    }
}

fn read_pair(digits: &str, at: usize) -> (value: Option<u8>)
    requires
        at + 1 < digits@.len() <= usize::MAX,
    ensures
        value == hex_pair(digits@, at as int),
{
    let high = hex_digit(digits.get_char(at));
    let low = hex_digit(digits.get_char(at + 1));
    match (high, low) {
        (Some(high), Some(low)) => Some(16 * high + low),
        _ => None,
    }
}

/// Reads a colour from its digits: six hex digits for an opaque colour, eight
/// for one with alpha first.
pub fn read_digits(digits: &str) -> (color: Option<HexColor>)
    ensures
        color == read_digits_spec(digits@),
{
    let len = digits.unicode_len();
    if len == 6 {
        match (read_pair(digits, 0), read_pair(digits, 2), read_pair(digits, 4)) {
            (Some(r), Some(g), Some(b)) => Some(HexColor::Rgb { r, g, b }),
            _ => None,
        }
    } else if len == 8 {
        match (
            read_pair(digits, 0),
            read_pair(digits, 2),
            read_pair(digits, 4),
            read_pair(digits, 6),
        ) {
            (Some(a), Some(r), Some(g), Some(b)) => Some(HexColor::Argb { a, r, g, b }),
            _ => None,
        }
    } else {
        None
    }
}

/// Reads a colour from a hex string: the white space around it and the `#`
/// signs that lead it are passed over, the rest has to be its digits.
pub fn parse_hex(value: &str) -> (color: Option<HexColor>)
    ensures
        color == parse_hex_spec(value@),
{
    read_digits(strip_leading(trim(value), '#'))
}

/// The colour as the toolkit stores it.
pub fn resolve(hex: HexColor) -> (color: Color)
    ensures
        resolves(hex, color),
{
    match hex {
        HexColor::Rgb { r, g, b } => color_from_rgb(r, g, b),
        HexColor::Argb { a, r, g, b } => color_from_rgba_unmultiplied(r, g, b, a),
    }
}

/// Reads a theme colour from a hex string: six digits for an opaque colour,
/// eight for one with alpha first. Anything else is no colour.
pub fn parse_color(value: &str) -> (color: Option<Color>)
    ensures
        spells(value@, color),
{
    reveal(spells);
    match parse_hex(value) {
        Some(hex) => Some(resolve(hex)),
        None => None,
    }
}

} // verus!
