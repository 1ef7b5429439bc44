//! Keys, modifiers, and the bytes they send.

use vstd::prelude::*;

verus! {

/// Modifier keys held during an event.
#[derive(Clone, Copy, PartialEq, Eq, Debug, Structural)]
pub struct Modifiers(u8);

impl Modifiers {
    pub const NONE: u8 = 0u8;
    pub const SHIFT: u8 = 1u8;
    pub const ALT: u8 = 2u8;
    pub const CONTROL: u8 = 4u8;
    pub const SUPER: u8 = 8u8;

    /// The held modifiers as a bitmask.
    pub closed spec fn bits(self) -> u8 {
        self.0
    }

    /// Two sets of modifiers are equal exactly when their masks are.
    pub proof fn lemma_bits_eq(a: Modifiers, b: Modifiers)
        ensures
            a == b <==> a.bits() == b.bits(),
    {
    }

    /// Whether every modifier of the mask `other` is held.
    pub open spec fn has(self, other: u8) -> bool {
        self.bits() & other == other
    }

    /// Build from a raw bitmask, ignoring bits we do not define.
    #[must_use]
    pub fn from_bits(bits: u8) -> (m: Self)
        ensures
            m.bits() == bits & 15u8,
    {
        Modifiers(bits & 15u8)
    }

    /// Whether every modifier of the mask `other` is held.
    #[must_use]
    pub fn contains(self, other: u8) -> (b: bool)
        ensures
            b == self.has(other),
    {
        self.0 & other == other
    }

    #[must_use]
    pub fn is_empty(self) -> (b: bool)
        ensures
            b == (self.bits() == 0),
    {
        self.0 == 0
    }

    /// The modifiers held in either.
    #[must_use]
    pub fn union(self, other: Self) -> (m: Self)
        ensures
            m.bits() == self.bits() | other.bits(),
    {
        Modifiers(self.0 | other.0)
    }

    /// The xterm modifier parameter: a bitfield offset by one.
    ///
    /// `CSI 1 ; 5 A` is ctrl-up, because 5 = 1 + 4. Sequences omit it when no
    /// modifier is held, which is why callers must check [`Self::is_empty`] first.
    #[must_use]
    pub fn xterm_param(self) -> (p: u8)
        ensures
            p == 1 + (self.bits() & 15u8),
    {
        let mut param: u8 = 1;
        if self.contains(Modifiers::SHIFT) {
            param = param + 1;
        }
        if self.contains(Modifiers::ALT) {
            param = param + 2;
        }
        if self.contains(Modifiers::CONTROL) {
            param = param + 4;
        }
        if self.contains(Modifiers::SUPER) {
            param = param + 8;
        }
        let b = self.0;
        assert(1 + (if b & 1u8 == 1u8 { 1int } else { 0 }) + (if b & 2u8 == 2u8 { 2int } else { 0 }) + (if b & 4u8
            == 4u8 { 4int } else { 0 }) + (if b & 8u8 == 8u8 { 8int } else { 0 }) == 1 + (b & 15u8)) by (bit_vector);
        param
    }
}

impl vstd::std_specs::ops::BitOrSpecImpl for Modifiers {
    open spec fn obeys_bitor_spec() -> bool {
        true
    }

    open spec fn bitor_req(self, rhs: Modifiers) -> bool {
        true
    }

    closed spec fn bitor_spec(self, rhs: Modifiers) -> Modifiers {
        Modifiers(self.0 | rhs.0)
    }
}

impl std::ops::BitOr for Modifiers {
    type Output = Self;

    fn bitor(self, other: Self) -> (m: Self)
        ensures
            m.bits() == self.bits() | other.bits(),
    {
        self.union(other)
    }
}

/// A key press, already resolved from the platform's key event.
#[derive(Clone, Copy, PartialEq, Eq, Debug, Structural)]
pub enum Key {
    /// A character the user typed, after the platform applied shift and dead keys.
    Char(char),
    Enter,
    Tab,
    Backspace,
    Escape,
    Up,
    Down,
    Right,
    Left,
    Home,
    End,
    PageUp,
    PageDown,
    Insert,
    Delete,
    /// `F1` through `F12`.
    Function(u8),
}

} // verus!
