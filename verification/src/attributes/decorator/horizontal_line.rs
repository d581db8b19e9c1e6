//! `horizontal_line`: a line above a property, in the theme's colour or in one
//! given as `#rrggbb` or `#rrggbbaa`.

use vstd::prelude::*;
use vstd::string::*;

use crate::text::{chars_of, string_of, trim, trim_str};

verus! {

pub const KEY: &'static str = "horizontal_line";

/// A colour as four 8-bit channels.
#[derive(Clone, Copy, Debug, PartialEq, Eq, Structural)]
pub struct Rgba8 {
    pub red: u8,
    pub green: u8,
    pub blue: u8,
    pub alpha: u8,
}

/// A line, in the theme's colour when it has none of its own.
pub struct HorizontalLine {
    pub color: Option<Rgba8>,
}

/// The value of a hexadecimal digit (either case).
pub open spec fn hex_value(c: char) -> Option<u8> {
    if '0' <= c <= '9' {
        Some((c as u32 - '0' as u32) as u8)
    } else if 'a' <= c <= 'f' {
        Some((c as u32 - 'a' as u32 + 10) as u8)
    } else if 'A' <= c <= 'F' {
        Some((c as u32 - 'A' as u32 + 10) as u8)
    } else {
        None
    }
}

/// A channel written as two characters, read as `u8::from_str_radix` reads
/// base 16: two hexadecimal digits, or `+` and one digit.
pub open spec fn channel_of(c0: char, c1: char) -> Option<u8> {
    if c0 == '+' {
        hex_value(c1)
    } else {
        match (hex_value(c0), hex_value(c1)) {
            (Some(h), Some(l)) => Some((h * 16 + l) as u8),
            _ => None,
        }
    }
}

/// The colour that the digits give: three or four channels of two characters
/// each, the alpha channel opaque when there are three. Every character that
/// a channel accepts is ASCII, so counting characters and counting bytes agree
/// wherever a colour comes out.
pub open spec fn color_of_digits(d: Seq<char>) -> Option<Rgba8> {
    if d.len() != 6 && d.len() != 8 {
        None
    } else {
        match (channel_of(d[0], d[1]), channel_of(d[2], d[3]), channel_of(d[4], d[5])) {
            (Some(r), Some(g), Some(b)) => if d.len() == 6 {
                Some(Rgba8 { red: r, green: g, blue: b, alpha: 255 })
            } else {
                match channel_of(d[6], d[7]) {
                    Some(a) => Some(Rgba8 { red: r, green: g, blue: b, alpha: a }),
                    None => None,
                }
            },
            _ => None,
        }
    }
}

/// The digits of a colour: the text without one leading `#`.
pub open spec fn color_digits(s: Seq<char>) -> Seq<char> {
    if s.len() > 0 && s[0] == '#' {
        s.drop_first()
    } else {
        s
    }
}

/// The message for a colour that does not read.
pub open spec fn color_error() -> Seq<char> {
    "expected a colour like #5a5a5a or #5a5a5a80"@
}

/// What `horizontal_line` with `raw_args` gives.
pub open spec fn horizontal_line_of(raw_args: Seq<char>) -> Result<Option<Rgba8>, Seq<char>> {
    let source = trim(raw_args);
    if source.len() == 0 {
        Ok(None)
    } else {
        match color_of_digits(color_digits(source)) {
            Some(c) => Ok(Some(c)),
            None => Err(color_error()),
        }
    }
}

fn hex_digit(c: char) -> (r: Option<u8>)
    ensures
        r == hex_value(c),
{
    if '0' <= c && c <= '9' {
        Some((c as u32 - '0' as u32) as u8)
    } else if 'a' <= c && c <= 'f' {
        Some((c as u32 - 'a' as u32 + 10) as u8)
    } else if 'A' <= c && c <= 'F' {
        Some((c as u32 - 'A' as u32 + 10) as u8)
    } else {
        None
    }
}

fn parse_channel(c0: char, c1: char) -> (r: Option<u8>)
    ensures
        r == channel_of(c0, c1),
{
    if c0 == '+' {
        hex_digit(c1)
    } else {
        match (hex_digit(c0), hex_digit(c1)) {
            (Some(h), Some(l)) => Some(h * 16 + l),
            _ => None,
        }
    }
}

/// Reads a colour written as six or eight hexadecimal digits, with or without
/// a leading `#`.
fn parse_color(source: &str) -> (r: Result<Rgba8, String>)
    ensures
        match r {
            Ok(c) => color_of_digits(color_digits(source@)) == Some(c),
            Err(m) => color_of_digits(color_digits(source@)) is None && m@ == color_error(),
        },
{
    let all = chars_of(source);
    let mut d: Vec<char> = Vec::new();
    let first: usize = if all.len() > 0 && all[0] == '#' {
        1
    } else {
        0
    };
    let mut i = first;
    while i < all.len()
        invariant
            first <= i <= all.len(),
            all@ == source@,
            first == 1 ==> all@.len() > 0 && all@[0] == '#',
            first == 0 ==> !(all@.len() > 0 && all@[0] == '#'),
            d@ == all@.subrange(first as int, i as int),
        decreases all.len() - i,
    {
        d.push(all[i]);
        i = i + 1;
    }
    assert(d@ =~= color_digits(source@));
    if d.len() != 6 && d.len() != 8 {
        return Err(string_of("expected a colour like #5a5a5a or #5a5a5a80"));
    }
    let red = parse_channel(d[0], d[1]);
    let green = parse_channel(d[2], d[3]);
    let blue = parse_channel(d[4], d[5]);
    match (red, green, blue) {
        (Some(r), Some(g), Some(b)) => {
            if d.len() == 6 {
                Ok(Rgba8 { red: r, green: g, blue: b, alpha: 255 })
            } else {
                match parse_channel(d[6], d[7]) {
                    Some(a) => Ok(Rgba8 { red: r, green: g, blue: b, alpha: a }),
                    None => Err(string_of("expected a colour like #5a5a5a or #5a5a5a80")),
                }
            }
        },
        _ => Err(string_of("expected a colour like #5a5a5a or #5a5a5a80")),
    }
}

impl HorizontalLine {
    /// Reads the optional colour of a line.
    pub fn parse(raw_args: &str) -> (r: Result<Self, String>)
        ensures
            match r {
                Ok(line) => horizontal_line_of(raw_args@) == Ok::<Option<Rgba8>, Seq<char>>(
                    line.color,
                ),
                Err(m) => horizontal_line_of(raw_args@) == Err::<Option<Rgba8>, Seq<char>>(m@),
            },
    {
        let source = trim_str(raw_args);
        if source.unicode_len() == 0 {
            return Ok(HorizontalLine { color: None });
        }
        match parse_color(source) {
            Ok(color) => Ok(HorizontalLine { color: Some(color) }),
            Err(m) => Err(m),
        }
    }
}

} // verus!
