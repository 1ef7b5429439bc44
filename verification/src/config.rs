//! User configuration: the values that are not floating point.
//!
//! Colors are written the way people write them (`#rrggbb`, `#rgb`, with or without
//! the hash), the cursor is a shape and a blink, and the palette has exactly sixteen
//! entries.

use vstd::prelude::*;

use crate::strs::{chars_of, is_whitespace, push_char, trim_end, trim_start};

verus! {

/// An 8-bit RGB color, parsed from `#rrggbb` or `#rgb`.
#[derive(Clone, Copy, PartialEq, Eq, Debug, Structural)]
pub struct Color {
    pub r: u8,
    pub g: u8,
    pub b: u8,
}

impl Default for Color {
    fn default() -> (c: Self)
        ensures
            c == (Color { r: 0, g: 0, b: 0 }),
    {
        Color { r: 0, g: 0, b: 0 }
    }
}

/// A color that could not be parsed, with the text the user wrote.
#[derive(Clone, PartialEq, Eq, Debug)]
pub struct ColorError(pub String);

/// `s` without any `#` it starts with.
pub open spec fn strip_hashes(s: Seq<char>) -> Seq<char>
    decreases s.len(),
{
    if s.len() > 0 && s[0] == '#' {
        strip_hashes(s.drop_first())
    } else {
        s
    }
}

/// The value of a hexadecimal digit, either case.
pub open spec fn hex_value(c: char) -> Option<u8> {
    if '0' <= c <= '9' {
        Some((c as u32 - 48) as u8)
    } else if 'a' <= c <= 'f' {
        Some((c as u32 - 87) as u8)
    } else if 'A' <= c <= 'F' {
        Some((c as u32 - 55) as u8)
    } else {
        None
    }
}

/// The values of the hexadecimal digits of `s`, or `None` if any character is not one.
pub open spec fn hex_digits(s: Seq<char>) -> Option<Seq<u8>>
    decreases s.len(),
{
    if s.len() == 0 {
        Some(Seq::empty())
    } else {
        match (hex_digits(s.drop_last()), hex_value(s.last())) {
            (Some(p), Some(v)) => Some(p.push(v)),
            _ => None,
        }
    }
}

/// The color `text` spells: surrounding whitespace and leading hashes dropped, then
/// three hex digits (each doubled) or six (in pairs).
pub open spec fn spec_parse(text: Seq<char>) -> Option<Color> {
    match hex_digits(strip_hashes(trim_end(trim_start(text)))) {
        Some(d) => if d.len() == 3 {
            Some(Color { r: (d[0] * 17) as u8, g: (d[1] * 17) as u8, b: (d[2] * 17) as u8 })
        } else if d.len() == 6 {
            Some(Color { r: (d[0] * 16 + d[1]) as u8, g: (d[2] * 16 + d[3]) as u8, b: (d[4] * 16 + d[5]) as u8 })
        } else {
            None
        },
        None => None,
    }
}

/// The lower-case hexadecimal digit for `v`, below sixteen.
pub open spec fn hex_char(v: int) -> char {
    if v < 10 {
        (48 + v) as char
    } else {
        (87 + v) as char
    }
}

/// `#rrggbb` in lower case: how a color is shown and saved.
pub open spec fn spec_hex(c: Color) -> Seq<char> {
    seq![
        '#',
        hex_char((c.r / 16) as int),
        hex_char((c.r % 16) as int),
        hex_char((c.g / 16) as int),
        hex_char((c.g % 16) as int),
        hex_char((c.b / 16) as int),
        hex_char((c.b % 16) as int),
    ]
}

/// The lower-case hexadecimal digit for `v`.
fn hex_char_exec(v: u8) -> (c: char)
    requires
        v < 16,
    ensures
        c == hex_char(v as int),
{
    if v < 10 {
        (48 + v) as char
    } else {
        (87 + v) as char
    }
}

/// A character that is no hex digit makes the whole string none.
proof fn lemma_hex_digits_none(s: Seq<char>, i: int)
    requires
        0 <= i < s.len(),
        hex_value(s[i]) is None,
    ensures
        hex_digits(s) is None,
    decreases s.len(),
{
    if i < s.len() - 1 {
        lemma_hex_digits_none(s.drop_last(), i);
    }
}

/// Every digit value is below sixteen.
proof fn lemma_hex_digits_small(s: Seq<char>)
    requires
        hex_digits(s) is Some,
    ensures
        hex_digits(s)->0.len() == s.len(),
        forall|j: int| 0 <= j < s.len() ==> #[trigger] hex_digits(s)->0[j] < 16,
    decreases s.len(),
{
    if s.len() > 0 {
        lemma_hex_digits_small(s.drop_last());
    }
}

/// The value of a hexadecimal digit, either case.
fn hex_digit(c: char) -> (r: Option<u8>)
    ensures
        r == hex_value(c),
{
    if '0' <= c && c <= '9' {
        Some((c as u32 - 48) as u8)
    } else if 'a' <= c && c <= 'f' {
        Some((c as u32 - 87) as u8)
    } else if 'A' <= c && c <= 'F' {
        Some((c as u32 - 55) as u8)
    } else {
        None
    }
}

impl Color {
    /// `#rrggbb` in lower case: how the color is shown and saved.
    #[must_use]
    pub fn to_hex(&self) -> (s: String)
        ensures
            s@ == spec_hex(*self),
    {
        let mut s = String::new();
        push_char(&mut s, '#');
        push_char(&mut s, hex_char_exec(self.r / 16));
        push_char(&mut s, hex_char_exec(self.r % 16));
        push_char(&mut s, hex_char_exec(self.g / 16));
        push_char(&mut s, hex_char_exec(self.g % 16));
        push_char(&mut s, hex_char_exec(self.b / 16));
        push_char(&mut s, hex_char_exec(self.b % 16));
        assert(s@ =~= spec_hex(*self));
        s
    }

    #[must_use]
    pub fn new(r: u8, g: u8, b: u8) -> (c: Self)
        ensures
            c == (Color { r, g, b }),
    {
        Color { r, g, b }
    }

    /// Parse `#rrggbb`, `#rgb`, or the same without the leading hash.
    ///
    /// Themes in the wild use every spelling. Rejecting one because of a missing `#`
    /// would be pedantry a user has to debug.
    pub fn parse(text: &str) -> (r: Result<Self, ColorError>)
        ensures
            match r {
                Ok(c) => spec_parse(text@) == Some(c),
                Err(e) => spec_parse(text@) is None && e.0@ == text@,
            },
    {
        let chars = chars_of(text);
        let len = chars.len();
        let mut start: usize = 0;
        assert(chars@.subrange(0, len as int) =~= chars@);
        while start < len && is_whitespace(chars[start])
            invariant
                start <= len == chars@.len(),
                chars@ == text@,
                trim_start(text@) == trim_start(chars@.subrange(start as int, len as int)),
            decreases len - start,
        {
            assert(chars@.subrange(start as int, len as int).drop_first() =~= chars@.subrange(start + 1, len as int));
            start = start + 1;
        }
        let mut end: usize = len;
        while end > start && is_whitespace(chars[end - 1])
            invariant
                start <= end <= len == chars@.len(),
                chars@ == text@,
                trim_start(text@) == chars@.subrange(start as int, len as int),
                trim_end(trim_start(text@)) == trim_end(chars@.subrange(start as int, end as int)),
            decreases end - start,
        {
            assert(chars@.subrange(start as int, end as int).drop_last() =~= chars@.subrange(start as int, end - 1));
            end = end - 1;
        }
        let mut first = start;
        while first < end && chars[first] == '#'
            invariant
                start <= first <= end <= len == chars@.len(),
                chars@ == text@,
                trim_end(trim_start(text@)) == chars@.subrange(start as int, end as int),
                strip_hashes(trim_end(trim_start(text@))) == strip_hashes(chars@.subrange(first as int, end as int)),
            decreases end - first,
        {
            assert(chars@.subrange(first as int, end as int).drop_first() =~= chars@.subrange(first + 1, end as int));
            first = first + 1;
        }
        let ghost hex = chars@.subrange(first as int, end as int);
        assert(strip_hashes(trim_end(trim_start(text@))) == hex);
        let mut digits: Vec<u8> = Vec::new();
        let mut i = first;
        assert(hex.subrange(0, 0) =~= Seq::<char>::empty());
        while i < end
            invariant
                first <= i <= end <= len == chars@.len(),
                hex == chars@.subrange(first as int, end as int),
                strip_hashes(trim_end(trim_start(text@))) == hex,
                hex_digits(hex.subrange(0, i - first)) == Some(digits@),
            decreases end - i,
        {
            assert(hex.subrange(0, i + 1 - first).drop_last() =~= hex.subrange(0, i - first));
            match hex_digit(chars[i]) {
                Some(d) => digits.push(d),
                None => {
                    proof {
                        lemma_hex_digits_none(hex, i - first);
                    }
                    return Err(ColorError(text.to_owned()));
                },
            }
            i = i + 1;
        }
        assert(hex.subrange(0, end - first) =~= hex);
        proof {
            lemma_hex_digits_small(hex);
        }
        if digits.len() == 3 {
            Ok(Color::new(digits[0] * 17, digits[1] * 17, digits[2] * 17))
        } else if digits.len() == 6 {
            Ok(Color::new(digits[0] * 16 + digits[1], digits[2] * 16 + digits[3], digits[4] * 16 + digits[5]))
        } else {
            Err(ColorError(text.to_owned()))
        }
    }
}

/// How the cursor is drawn.
#[derive(Clone, Copy, PartialEq, Eq, Debug, Structural)]
pub enum CursorShape {
    Block,
    Underline,
    Bar,
}

impl Default for CursorShape {
    fn default() -> (s: Self)
        ensures
            s == CursorShape::Block,
    {
        CursorShape::Block
    }
}

/// The cursor's configured appearance.
#[derive(Clone, Copy, PartialEq, Eq, Debug, Structural)]
pub struct Cursor {
    pub shape: CursorShape,
    pub blink: bool,
}

impl Default for Cursor {
    /// A blinking block.
    fn default() -> (c: Self)
        ensures
            c == (Cursor { shape: CursorShape::Block, blink: true }),
    {
        Cursor { shape: CursorShape::Block, blink: true }
    }
}

/// The sixteen ANSI colors shipped by default: eight normal, then eight bright.
pub open spec fn default_ansi() -> Seq<Color> {
    seq![
        Color { r: 0x1B, g: 0x1F, b: 0x27 },
        Color { r: 0xF7, g: 0x76, b: 0x8E },
        Color { r: 0x9E, g: 0xCE, b: 0x6A },
        Color { r: 0xE0, g: 0xAF, b: 0x68 },
        Color { r: 0x7A, g: 0xA2, b: 0xF7 },
        Color { r: 0xBB, g: 0x9A, b: 0xF7 },
        Color { r: 0x7D, g: 0xCF, b: 0xFF },
        Color { r: 0xA9, g: 0xB1, b: 0xD6 },
        Color { r: 0x41, g: 0x48, b: 0x68 },
        Color { r: 0xFF, g: 0x93, b: 0xA8 },
        Color { r: 0xB9, g: 0xF2, b: 0x7C },
        Color { r: 0xFF, g: 0xC7, b: 0x77 },
        Color { r: 0x9A, g: 0xBD, b: 0xF5 },
        Color { r: 0xD3, g: 0xB4, b: 0xFF },
        Color { r: 0xA4, g: 0xDA, b: 0xFF },
        Color { r: 0xE6, g: 0xEB, b: 0xF4 },
    ]
}

/// The default ANSI palette.
#[must_use]
pub fn default_palette() -> (v: Vec<Color>)
    ensures
        v@ == default_ansi(),
{
    let v = vec![
        Color::new(0x1B, 0x1F, 0x27),
        Color::new(0xF7, 0x76, 0x8E),
        Color::new(0x9E, 0xCE, 0x6A),
        Color::new(0xE0, 0xAF, 0x68),
        Color::new(0x7A, 0xA2, 0xF7),
        Color::new(0xBB, 0x9A, 0xF7),
        Color::new(0x7D, 0xCF, 0xFF),
        Color::new(0xA9, 0xB1, 0xD6),
        Color::new(0x41, 0x48, 0x68),
        Color::new(0xFF, 0x93, 0xA8),
        Color::new(0xB9, 0xF2, 0x7C),
        Color::new(0xFF, 0xC7, 0x77),
        Color::new(0x9A, 0xBD, 0xF5),
        Color::new(0xD3, 0xB4, 0xFF),
        Color::new(0xA4, 0xDA, 0xFF),
        Color::new(0xE6, 0xEB, 0xF4),
    ];
    assert(v@ =~= default_ansi());
    v
}

/// A configured palette, kept when it has exactly sixteen entries and replaced by
/// the default otherwise: indexing a short palette would fail downstream.
#[must_use]
pub fn sanitize_palette(ansi: Vec<Color>) -> (v: Vec<Color>)
    ensures
        ansi@.len() == 16 ==> v@ == ansi@,
        ansi@.len() != 16 ==> v@ == default_ansi(),
{
    if ansi.len() != 16 {
        default_palette()
    } else {
        ansi
    }
}

} // verus!
