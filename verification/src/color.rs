//! RGBA colors held as four 8-bit channels, with hexadecimal formatting and
//! parsing.

use vstd::prelude::*;
use vstd::string::StringSliceAdditionalSpecFns;
use crate::text::string_from_chars;

verus! {

/// An RGBA color; each channel ranges over `0..=255` and `a == 255` means
/// fully opaque.
#[derive(Clone, Copy, Debug, PartialEq, Eq, Structural)]
pub struct Color {
    pub r: u8,
    pub g: u8,
    pub b: u8,
    pub a: u8,
}

/// The character for one hexadecimal digit (lowercase).
pub open spec fn hex_digit_char(d: int) -> char {
    if d == 0 {
        '0'
    } else if d == 1 {
        '1'
    } else if d == 2 {
        '2'
    } else if d == 3 {
        '3'
    } else if d == 4 {
        '4'
    } else if d == 5 {
        '5'
    } else if d == 6 {
        '6'
    } else if d == 7 {
        '7'
    } else if d == 8 {
        '8'
    } else if d == 9 {
        '9'
    } else if d == 10 {
        'a'
    } else if d == 11 {
        'b'
    } else if d == 12 {
        'c'
    } else if d == 13 {
        'd'
    } else if d == 14 {
        'e'
    } else {
        'f'
    }
}

/// Two lowercase hex digits of one byte.
pub open spec fn hex2(b: int) -> Seq<char> {
    seq![hex_digit_char(b / 16), hex_digit_char(b % 16)]
}

/// The six hex digits `rrggbb` of a color.
pub open spec fn rgb_hex_chars(c: Color) -> Seq<char> {
    hex2(c.r as int) + hex2(c.g as int) + hex2(c.b as int)
}

/// The eight hex digits `rrggbbaa` of a color.
pub open spec fn rgba_hex_chars(c: Color) -> Seq<char> {
    rgb_hex_chars(c) + hex2(c.a as int)
}

fn hex_digit(d: u8) -> (c: char)
    requires
        d < 16,
    ensures
        c == hex_digit_char(d as int),
{
    if d == 0 {
        '0'
    } else if d == 1 {
        '1'
    } else if d == 2 {
        '2'
    } else if d == 3 {
        '3'
    } else if d == 4 {
        '4'
    } else if d == 5 {
        '5'
    } else if d == 6 {
        '6'
    } else if d == 7 {
        '7'
    } else if d == 8 {
        '8'
    } else if d == 9 {
        '9'
    } else if d == 10 {
        'a'
    } else if d == 11 {
        'b'
    } else if d == 12 {
        'c'
    } else if d == 13 {
        'd'
    } else if d == 14 {
        'e'
    } else {
        'f'
    }
}

/// Append the two hex digits of a byte.
pub(crate) fn push_hex2(v: &mut Vec<char>, b: u8)
    ensures
        final(v)@ == old(v)@ + hex2(b as int),
{
    v.push(hex_digit(b / 16));
    v.push(hex_digit(b % 16));
    assert(v@ =~= old(v)@ + hex2(b as int));
}

/// Whether a byte is an ASCII hex digit.
pub open spec fn is_hex_byte(b: u8) -> bool {
    (48 <= b && b <= 57) || (97 <= b && b <= 102) || (65 <= b && b <= 70)
}

/// Numeric value of an ASCII hex digit byte.
pub open spec fn hex_byte_val(b: u8) -> int {
    if 48 <= b && b <= 57 {
        b - 48
    } else if 97 <= b && b <= 102 {
        b - 87
    } else {
        b - 55
    }
}

/// Value of a two-hex-digit byte pair, if both bytes are hex digits.
pub open spec fn hex_pair_val(hi: u8, lo: u8) -> int {
    hex_byte_val(hi) * 16 + hex_byte_val(lo)
}

/// The color denoted by exactly eight hex digit bytes `rrggbbaa`, if the
/// sequence has that shape.
pub open spec fn parse_rgba_hex(bs: Seq<u8>) -> Option<Color> {
    if bs.len() == 8 && (forall|i: int| 0 <= i < 8 ==> is_hex_byte(#[trigger] bs[i])) {
        Some(
            Color {
                r: hex_pair_val(bs[0], bs[1]) as u8,
                g: hex_pair_val(bs[2], bs[3]) as u8,
                b: hex_pair_val(bs[4], bs[5]) as u8,
                a: hex_pair_val(bs[6], bs[7]) as u8,
            },
        )
    } else {
        None
    }
}

/// The color denoted by exactly six hex digit bytes `rrggbb` (alpha 255), if
/// the sequence has that shape.
pub open spec fn parse_rgb_hex(bs: Seq<u8>) -> Option<Color> {
    if bs.len() == 6 && (forall|i: int| 0 <= i < 6 ==> is_hex_byte(#[trigger] bs[i])) {
        Some(
            Color {
                r: hex_pair_val(bs[0], bs[1]) as u8,
                g: hex_pair_val(bs[2], bs[3]) as u8,
                b: hex_pair_val(bs[4], bs[5]) as u8,
                a: 255,
            },
        )
    } else {
        None
    }
}

fn hex_byte(b: u8) -> (r: Option<u8>)
    ensures
        r is Some <==> is_hex_byte(b),
        r is Some ==> r->0 as int == hex_byte_val(b) && r->0 < 16,
{
    if 48 <= b && b <= 57 {
        Some(b - 48)
    } else if 97 <= b && b <= 102 {
        Some(b - 87)
    } else if 65 <= b && b <= 70 {
        Some(b - 55)
    } else {
        None
    }
}

fn hex_pair(hi: u8, lo: u8) -> (r: Option<u8>)
    ensures
        r is Some <==> is_hex_byte(hi) && is_hex_byte(lo),
        r is Some ==> r->0 as int == hex_pair_val(hi, lo),
{
    match (hex_byte(hi), hex_byte(lo)) {
        (Some(h), Some(l)) => Some(h * 16 + l),
        _ => None,
    }
}

impl Color {
    /// Build a color from its four 8-bit channels.
    pub fn from_rgba8(r: u8, g: u8, b: u8, a: u8) -> (c: Color)
        ensures
            c == (Color { r, g, b, a }),
    {
        Color { r, g, b, a }
    }

    /// Opaque black.
    pub fn black() -> (c: Color)
        ensures
            c == (Color { r: 0, g: 0, b: 0, a: 255 }),
    {
        Color { r: 0, g: 0, b: 0, a: 255 }
    }

    /// The alpha channel (255 means fully opaque).
    pub fn a(&self) -> (r: u8)
        ensures
            r == self.a,
    {
        self.a
    }

    /// The six lowercase hex digits `rrggbb`.
    pub fn rgb_hex(&self) -> (r: String)
        ensures
            r@ == rgb_hex_chars(*self),
    {
        let mut v: Vec<char> = Vec::new();
        push_hex2(&mut v, self.r);
        push_hex2(&mut v, self.g);
        push_hex2(&mut v, self.b);
        assert(v@ =~= rgb_hex_chars(*self));
        string_from_chars(v)
    }

    /// The eight lowercase hex digits `rrggbbaa`.
    pub fn rgba_hex(&self) -> (r: String)
        ensures
            r@ == rgba_hex_chars(*self),
    {
        let mut v: Vec<char> = Vec::new();
        push_hex2(&mut v, self.r);
        push_hex2(&mut v, self.g);
        push_hex2(&mut v, self.b);
        push_hex2(&mut v, self.a);
        assert(v@ =~= rgba_hex_chars(*self));
        string_from_chars(v)
    }

    /// Parse exactly eight hex digits `rrggbbaa`.
    pub fn from_rgba_str(s: &str) -> (r: Option<Color>)
        ensures
            r == parse_rgba_hex(s.spec_bytes()),
    {
        let bs = s.as_bytes();
        if bs.len() != 8 {
            return None;
        }
        let p0 = hex_pair(bs[0], bs[1]);
        let p1 = hex_pair(bs[2], bs[3]);
        let p2 = hex_pair(bs[4], bs[5]);
        let p3 = hex_pair(bs[6], bs[7]);
        match (p0, p1, p2, p3) {
            (Some(r), Some(g), Some(b), Some(a)) => Some(Color { r, g, b, a }),
            _ => {
                assert(exists|i: int| 0 <= i < 8 && !is_hex_byte(s.spec_bytes()[i]));
                None
            },
        }
    }

    /// Parse exactly six hex digits `rrggbb`; alpha becomes 255.
    pub fn from_rgb_str(s: &str) -> (r: Option<Color>)
        ensures
            r == parse_rgb_hex(s.spec_bytes()),
    {
        let bs = s.as_bytes();
        if bs.len() != 6 {
            return None;
        }
        let p0 = hex_pair(bs[0], bs[1]);
        let p1 = hex_pair(bs[2], bs[3]);
        let p2 = hex_pair(bs[4], bs[5]);
        match (p0, p1, p2) {
            (Some(r), Some(g), Some(b)) => Some(Color { r, g, b, a: 255 }),
            _ => {
                assert(exists|i: int| 0 <= i < 6 && !is_hex_byte(s.spec_bytes()[i]));
                None
            },
        }
    }
}

} // verus!
