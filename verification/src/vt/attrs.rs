//! Character attributes: colors and rendition flags.

use vstd::prelude::*;

verus! {

/// A cell color.
#[derive(Clone, Copy, PartialEq, Eq, Debug, Structural)]
pub enum Color {
    /// The theme's default foreground or background, depending on the slot.
    Default,
    /// An index into the 256-color palette.
    Indexed(u8),
    /// A direct 24-bit color.
    Rgb(u8, u8, u8),
}

impl Default for Color {
    fn default() -> (c: Self)
        ensures
            c == Color::Default,
    {
        Color::Default
    }
}

/// Rendition flags, packed into a byte.
#[derive(Clone, Copy, PartialEq, Eq, Debug, Structural)]
pub struct Flags(u8);

impl Flags {
    pub const NONE: u8 = 0u8;
    pub const BOLD: u8 = 1u8;
    pub const DIM: u8 = 2u8;
    pub const ITALIC: u8 = 4u8;
    pub const UNDERLINE: u8 = 8u8;
    pub const REVERSE: u8 = 16u8;
    pub const HIDDEN: u8 = 32u8;
    pub const STRIKETHROUGH: u8 = 64u8;

    /// The packed bits.
    pub closed spec fn bits(self) -> u8 {
        self.0
    }

    /// The flags with exactly `bits` set.
    pub closed spec fn with_bits(bits: u8) -> Flags {
        Flags(bits)
    }

    /// Building flags from bits and reading them back gives the same bits.
    pub proof fn lemma_with_bits(bits: u8)
        ensures
            Flags::with_bits(bits).bits() == bits,
    {
    }

    /// Whether every bit of `other` is set here.
    pub open spec fn has(self, other: u8) -> bool {
        self.bits() & other == other
    }

    #[must_use]
    pub fn contains(self, other: u8) -> (r: bool)
        ensures
            r == self.has(other),
    {
        self.0 & other == other
    }

    pub fn insert(&mut self, other: u8)
        ensures
            *final(self) == Flags::with_bits(old(self).bits() | other),
            final(self).bits() == old(self).bits() | other,
    {
        self.0 = self.0 | other;
    }

    pub fn remove(&mut self, other: u8)
        ensures
            *final(self) == Flags::with_bits(old(self).bits() & !other),
            final(self).bits() == old(self).bits() & !other,
    {
        self.0 = self.0 & !other;
    }
}

impl Default for Flags {
    fn default() -> (f: Self)
        ensures
            f.bits() == 0,
    {
        Flags(0)
    }
}

/// The full rendition state applied to a cell.
#[derive(Clone, Copy, PartialEq, Eq, Debug, Structural)]
pub struct Attrs {
    pub fg: Color,
    pub bg: Color,
    pub flags: Flags,
}

/// The rendition `SGR 0` returns to: default colors, no flags.
pub open spec fn default_attrs() -> Attrs {
    Attrs { fg: Color::Default, bg: Color::Default, flags: Flags::with_bits(0) }
}

impl Default for Attrs {
    fn default() -> (a: Self)
        ensures
            a == default_attrs(),
    {
        Attrs { fg: Color::Default, bg: Color::Default, flags: Flags::default() }
    }
}

impl Attrs {
    /// Reset to defaults, as `SGR 0` does.
    pub fn reset(&mut self)
        ensures
            *final(self) == default_attrs(),
    {
        *self = Attrs::default();
    }
}

} // verus!
