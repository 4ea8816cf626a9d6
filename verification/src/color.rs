//! Plain red/green/blue color values.
//!
//! The dashboard's theme is carried through the core as plain byte triples;
//! the rendering layer converts them to its own color type at the edge.

use vstd::prelude::*;
use vstd::string::StrSliceExecFns;

verus! {

/// A color as one byte per channel.
#[derive(Clone, Copy, Debug, PartialEq, Eq, Structural)]
pub struct SerializableColor {
    /// Red channel.
    pub r: u8,
    /// Green channel.
    pub g: u8,
    /// Blue channel.
    pub b: u8,
}

/// The value of one hexadecimal digit, or -1 for any other character.
pub open spec fn hex_digit_val(c: char) -> int {
    if '0' <= c && c <= '9' {
        c as int - '0' as int
    } else if 'a' <= c && c <= 'f' {
        c as int - 'a' as int + 10
    } else if 'A' <= c && c <= 'F' {
        c as int - 'A' as int + 10
    } else {
        -1
    }
}

/// Whether the seven characters are a `#rrggbb` color.
pub open spec fn is_hex_color(s: Seq<char>) -> bool {
    s.len() == 7 && s[0] == '#' && forall|i: int| 1 <= i < 7 ==> hex_digit_val(#[trigger] s[i]) >= 0
}

/// The channel value of two hexadecimal digits.
pub open spec fn hex_pair_val(hi: char, lo: char) -> int {
    16 * hex_digit_val(hi) + hex_digit_val(lo)
}

impl SerializableColor {
    /// Parse a `#rrggbb` string into a color; any other shape is rejected.
    pub fn from_hex(hex: &str) -> (color: Option<SerializableColor>)
        ensures
            color.is_some() <==> is_hex_color(hex@),
            color matches Some(c) ==> {
                &&& c.r == hex_pair_val(hex@[1], hex@[2])
                &&& c.g == hex_pair_val(hex@[3], hex@[4])
                &&& c.b == hex_pair_val(hex@[5], hex@[6])
            },
    {
        if hex.unicode_len() != 7 {
            return None;
        }
        if hex.get_char(0) != '#' {
            return None;
        }
        let d1 = hex_digit(hex.get_char(1));
        let d2 = hex_digit(hex.get_char(2));
        let d3 = hex_digit(hex.get_char(3));
        let d4 = hex_digit(hex.get_char(4));
        let d5 = hex_digit(hex.get_char(5));
        let d6 = hex_digit(hex.get_char(6));
        match (d1, d2, d3, d4, d5, d6) {
            (Some(h1), Some(h2), Some(h3), Some(h4), Some(h5), Some(h6)) => {
                assert(forall|i: int| 1 <= i < 7 ==> hex_digit_val(#[trigger] hex@[i]) >= 0);
                Some(SerializableColor { r: 16 * h1 + h2, g: 16 * h3 + h4, b: 16 * h5 + h6 })
            },
            _ => None,
        }
    }
}

/// The value of one hexadecimal digit character.
fn hex_digit(c: char) -> (v: Option<u8>)
    ensures
        v.is_some() <==> hex_digit_val(c) >= 0,
        v matches Some(d) ==> d == hex_digit_val(c) && d < 16,
{
    if '0' <= c && c <= '9' {
        Some((c as u8) - ('0' as u8))
    } else if 'a' <= c && c <= 'f' {
        Some((c as u8) - ('a' as u8) + 10)
    } else if 'A' <= c && c <= 'F' {
        Some((c as u8) - ('A' as u8) + 10)
    } else {
        None
    }
}

} // verus!
