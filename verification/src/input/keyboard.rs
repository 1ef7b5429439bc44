//! Encoding key presses as the bytes a terminal application expects.
//!
//! This is the legacy xterm encoding, which every application understands. The Kitty
//! keyboard protocol is a separate, negotiated layer and is not implemented yet: until
//! it is, keys that the legacy encoding cannot express (`ctrl-1`, or distinguishing
//! `ctrl-i` from `tab`) simply do not round-trip.

use vstd::prelude::*;
use vstd::utf8::encode_utf8;

use crate::digits::{decimal, push_all, push_decimal};
use crate::input::key::{Key, Modifiers};
use crate::strs::push_char;
use crate::vt::modes::Modes;

verus! {

/// The C0 control a character maps to when combined with ctrl.
pub open spec fn spec_control_byte(c: char) -> Option<u8> {
    if c == ' ' || c == '@' {
        Some(0u8)
    } else if 'a' <= c <= 'z' {
        Some((c as u32 - 97 + 1) as u8)
    } else if 'A' <= c <= 'Z' {
        Some((c as u32 - 65 + 1) as u8)
    } else if c == '[' {
        Some(0x1bu8)
    } else if c == '\\' {
        Some(0x1cu8)
    } else if c == ']' {
        Some(0x1du8)
    } else if c == '^' {
        Some(0x1eu8)
    } else if c == '_' {
        Some(0x1fu8)
    } else if c == '?' {
        Some(0x7fu8)
    } else {
        None
    }
}

/// A typed character: its UTF-8 bytes, or with ctrl its C0 control (nothing where
/// it has none), escape-prefixed with alt.
pub open spec fn spec_encode_char(c: char, m: Modifiers) -> Option<Seq<u8>> {
    let base = if m.has(Modifiers::CONTROL) {
        match spec_control_byte(c) {
            Some(b) => Some(seq![b]),
            None => None,
        }
    } else {
        Some(encode_utf8(seq![c]))
    };
    match base {
        Some(b) => Some(if m.has(Modifiers::ALT) { seq![0x1bu8] + b } else { b }),
        None => None,
    }
}

/// The xterm modifier parameter of `m`, as the number it is written as.
pub open spec fn param_of(m: Modifiers) -> nat {
    (1 + (m.bits() & 15u8)) as nat
}

/// Arrows, Home and End: `CSI` or, in application mode, `SS3` and the final byte
/// when unmodified; `CSI 1 ; param` and the final byte when modified.
pub open spec fn spec_cursor_key(final_byte: u8, m: Modifiers, modes: Modes) -> Seq<u8> {
    if m.bits() == 0 {
        if modes.application_cursor_keys {
            seq![0x1bu8, 79u8, final_byte]
        } else {
            seq![0x1bu8, 91u8, final_byte]
        }
    } else {
        seq![0x1bu8, 91u8, 49u8, 59u8] + decimal(param_of(m)) + seq![final_byte]
    }
}

/// `CSI number ~`, or `CSI number ; param ~` when modified.
pub open spec fn spec_tilde_key(number: u8, m: Modifiers) -> Seq<u8> {
    if m.bits() == 0 {
        seq![0x1bu8, 91u8] + decimal(number as nat) + seq![126u8]
    } else {
        seq![0x1bu8, 91u8] + decimal(number as nat) + seq![59u8] + decimal(param_of(m)) + seq![126u8]
    }
}

/// `F1` to `F4` are `SS3 P` to `SS3 S` (or `CSI 1 ; param` and the letter when
/// modified); `F5` to `F12` are tilde keys numbered 15, 17 to 21, 23 and 24.
pub open spec fn spec_encode_function(n: u8, m: Modifiers) -> Option<Seq<u8>> {
    if 1 <= n <= 4 {
        let final_byte = (80 + (n - 1)) as u8;
        if m.bits() == 0 {
            Some(seq![0x1bu8, 79u8, final_byte])
        } else {
            Some(seq![0x1bu8, 91u8, 49u8, 59u8] + decimal(param_of(m)) + seq![final_byte])
        }
    } else if n == 5 {
        Some(spec_tilde_key(15, m))
    } else if 6 <= n <= 10 {
        Some(spec_tilde_key((n + 11) as u8, m))
    } else if n == 11 || n == 12 {
        Some(spec_tilde_key((n + 12) as u8, m))
    } else {
        None
    }
}

/// The bytes of a key that is neither a character nor a function key, before any
/// escape prefix.
pub open spec fn spec_named_key(key: Key, m: Modifiers, modes: Modes) -> Seq<u8> {
    match key {
        Key::Enter => seq![13u8],
        Key::Escape => seq![0x1bu8],
        Key::Backspace => seq![if m.has(Modifiers::CONTROL) { 0x08u8 } else { 0x7fu8 }],
        Key::Tab => if m.has(Modifiers::SHIFT) {
            seq![0x1bu8, 91u8, 90u8]
        } else {
            seq![9u8]
        },
        Key::Up => spec_cursor_key(65, m, modes),
        Key::Down => spec_cursor_key(66, m, modes),
        Key::Right => spec_cursor_key(67, m, modes),
        Key::Left => spec_cursor_key(68, m, modes),
        Key::Home => spec_cursor_key(72, m, modes),
        Key::End => spec_cursor_key(70, m, modes),
        Key::Insert => spec_tilde_key(2, m),
        Key::Delete => spec_tilde_key(3, m),
        Key::PageUp => spec_tilde_key(5, m),
        Key::PageDown => spec_tilde_key(6, m),
        _ => Seq::empty(),
    }
}

/// What a key press sends, or `None` for nothing. Super belongs to the window
/// manager and swallows the key. Alt alone on Enter, Escape or Backspace prefixes
/// an escape; on other named keys it is carried by the modifier parameter.
pub open spec fn spec_encode(key: Key, m: Modifiers, modes: Modes) -> Option<Seq<u8>> {
    if m.has(Modifiers::SUPER) {
        None
    } else {
        match key {
            Key::Char(c) => spec_encode_char(c, m),
            Key::Function(n) => spec_encode_function(n, m),
            _ => {
                let bytes = spec_named_key(key, m, modes);
                Some(
                    if m.bits() == Modifiers::ALT && (key is Enter || key is Escape || key is Backspace) {
                        seq![0x1bu8] + bytes
                    } else {
                        bytes
                    },
                )
            },
        }
    }
}

/// Encode a key press. `None` means the key sends nothing.
#[must_use]
pub fn encode(key: &Key, modifiers: Modifiers, modes: &Modes) -> (r: Option<Vec<u8>>)
    ensures
        match spec_encode(*key, modifiers, *modes) {
            Some(b) => r matches Some(v) && v@ == b,
            None => r is None,
        },
{
    // Super is a window-manager modifier and never reaches the application.
    if modifiers.contains(Modifiers::SUPER) {
        return None;
    }
    let bytes = match key {
        Key::Char(c) => return encode_char(*c, modifiers),
        Key::Function(n) => return encode_function(*n, modifiers),
        Key::Enter => vec![13u8],
        Key::Escape => vec![0x1bu8],
        Key::Backspace => vec![if modifiers.contains(Modifiers::CONTROL) { 0x08u8 } else { 0x7fu8 }],
        Key::Tab => if modifiers.contains(Modifiers::SHIFT) {
            vec![0x1bu8, 91u8, 90u8]
        } else {
            vec![9u8]
        },
        Key::Up => cursor_key(65, modifiers, modes),
        Key::Down => cursor_key(66, modifiers, modes),
        Key::Right => cursor_key(67, modifiers, modes),
        Key::Left => cursor_key(68, modifiers, modes),
        Key::Home => cursor_key(72, modifiers, modes),
        Key::End => cursor_key(70, modifiers, modes),
        Key::Insert => tilde_key(2, modifiers),
        Key::Delete => tilde_key(3, modifiers),
        Key::PageUp => tilde_key(5, modifiers),
        Key::PageDown => tilde_key(6, modifiers),
    };
    // Alt on a named key is carried by the modifier parameter, not an escape prefix,
    // so only the plain forms need prefixing here. `cursor_key` and `tilde_key`
    // already emit the parameter when a modifier is held.
    let plain = match key {
        Key::Enter | Key::Escape | Key::Backspace => true,
        _ => false,
    };
    let alt = Modifiers::from_bits(Modifiers::ALT);
    let alt_only = modifiers == alt;
    assert(2u8 & 15u8 == 2u8) by (bit_vector);
    proof {
        Modifiers::lemma_bits_eq(modifiers, alt);
    }
    if alt_only && plain {
        Some(prefix_escape(bytes))
    } else {
        Some(bytes)
    }
}

/// Control and alt turn a character into something else entirely.
fn encode_char(c: char, modifiers: Modifiers) -> (r: Option<Vec<u8>>)
    ensures
        match spec_encode_char(c, modifiers) {
            Some(b) => r matches Some(v) && v@ == b,
            None => r is None,
        },
{
    let bytes = if modifiers.contains(Modifiers::CONTROL) {
        match control_byte(c) {
            Some(b) => vec![b],
            None => return None,
        }
    } else {
        let mut s = String::new();
        push_char(&mut s, c);
        let mut v: Vec<u8> = Vec::new();
        push_all(&mut v, s.as_str().as_bytes());
        v
    };
    if modifiers.contains(Modifiers::ALT) {
        Some(prefix_escape(bytes))
    } else {
        Some(bytes)
    }
}

/// The C0 control a character maps to when combined with ctrl.
///
/// Only these produce a control code. `ctrl-1` has no legacy encoding, which is one of
/// the gaps the Kitty keyboard protocol exists to close.
fn control_byte(c: char) -> (r: Option<u8>)
    ensures
        r == spec_control_byte(c),
{
    if c == ' ' || c == '@' {
        Some(0u8)
    } else if 'a' <= c && c <= 'z' {
        Some((c as u32 - 97 + 1) as u8)
    } else if 'A' <= c && c <= 'Z' {
        Some((c as u32 - 65 + 1) as u8)
    } else if c == '[' {
        Some(0x1bu8)
    } else if c == '\\' {
        Some(0x1cu8)
    } else if c == ']' {
        Some(0x1du8)
    } else if c == '^' {
        Some(0x1eu8)
    } else if c == '_' {
        Some(0x1fu8)
    } else if c == '?' {
        Some(0x7fu8)
    } else {
        None
    }
}

/// Arrows, Home, and End. `DECCKM` swaps `CSI` for `SS3`, but only unmodified.
fn cursor_key(final_byte: u8, modifiers: Modifiers, modes: &Modes) -> (v: Vec<u8>)
    ensures
        v@ == spec_cursor_key(final_byte, modifiers, *modes),
{
    if modifiers.is_empty() {
        let introducer: u8 = if modes.application_cursor_keys { 79u8 } else { 91u8 };
        return vec![0x1bu8, introducer, final_byte];
    }
    let mut v = vec![0x1bu8, 91u8, 49u8, 59u8];
    let ghost head = v@;
    push_decimal(&mut v, modifiers.xterm_param() as u128);
    v.push(final_byte);
    assert(v@ =~= head + decimal(param_of(modifiers)) + seq![final_byte]);
    v
}

/// Keys encoded as `CSI n ~`, such as Delete and Page Up.
fn tilde_key(number: u8, modifiers: Modifiers) -> (v: Vec<u8>)
    ensures
        v@ == spec_tilde_key(number, modifiers),
{
    let mut v = vec![0x1bu8, 91u8];
    let ghost head = v@;
    push_decimal(&mut v, number as u128);
    if modifiers.is_empty() {
        v.push(126u8);
        assert(v@ =~= head + decimal(number as nat) + seq![126u8]);
        return v;
    }
    v.push(59u8);
    push_decimal(&mut v, modifiers.xterm_param() as u128);
    v.push(126u8);
    assert(v@ =~= head + decimal(number as nat) + seq![59u8] + decimal(param_of(modifiers)) + seq![126u8]);
    v
}

/// `F1` to `F4` are `SS3`; the rest are `CSI n ~` with a non-obvious numbering.
fn encode_function(n: u8, modifiers: Modifiers) -> (r: Option<Vec<u8>>)
    ensures
        match spec_encode_function(n, modifiers) {
            Some(b) => r matches Some(v) && v@ == b,
            None => r is None,
        },
{
    if 1 <= n && n <= 4 {
        let final_byte = 80u8 + (n - 1);
        if modifiers.is_empty() {
            return Some(vec![0x1bu8, 79u8, final_byte]);
        }
        let mut v = vec![0x1bu8, 91u8, 49u8, 59u8];
        let ghost head = v@;
        push_decimal(&mut v, modifiers.xterm_param() as u128);
        v.push(final_byte);
        assert(v@ =~= head + decimal(param_of(modifiers)) + seq![final_byte]);
        return Some(v);
    }
    // The gaps at 16 and 22 are historical, not a mistake.
    let number: u8 = if n == 5 {
        15
    } else if 6 <= n && n <= 10 {
        n + 11
    } else if n == 11 || n == 12 {
        n + 12
    } else {
        return None;
    };
    Some(tilde_key(number, modifiers))
}

/// `bytes` after an escape.
fn prefix_escape(bytes: Vec<u8>) -> (v: Vec<u8>)
    ensures
        v@ == seq![0x1bu8] + bytes@,
{
    let mut prefixed: Vec<u8> = Vec::new();
    prefixed.push(0x1bu8);
    push_all(&mut prefixed, bytes.as_slice());
    prefixed
}

} // verus!
