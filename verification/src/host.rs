//! The decisions behind the C interface a native shell drives: which key a code
//! names, what a key press sends, whether the cursor is lit, and what title to show.

use vstd::prelude::*;
use vstd::utf8::encode_utf8;

use crate::digits::push_all;
use crate::input::key::{Key, Modifiers};
use crate::input::keyboard::{encode, spec_encode};
use crate::strs::chars_of;
use crate::vt::modes::Modes;

verus! {

/// An opaque handle to a terminal, as the host sees it.
pub struct BabTerminal {
    _private: [u8; 0],
}

/// Named keys. `Char` means "use the text argument instead".
///
/// Function keys are `F1 + n - 1`, so `F5` is 105.
#[derive(Clone, Copy, PartialEq, Eq, Debug, Structural)]
pub enum BabKey {
    Char,
    Enter,
    Tab,
    Backspace,
    Escape,
    Up,
    Down,
    Right,
    Left,
    Home,
    End,
    PageUp,
    PageDown,
    Insert,
    Delete,
    F1,
}

/// The code a named key crosses the C interface as.
pub open spec fn spec_key_code(k: BabKey) -> u32 {
    match k {
        BabKey::Char => 0,
        BabKey::Enter => 1,
        BabKey::Tab => 2,
        BabKey::Backspace => 3,
        BabKey::Escape => 4,
        BabKey::Up => 5,
        BabKey::Down => 6,
        BabKey::Right => 7,
        BabKey::Left => 8,
        BabKey::Home => 9,
        BabKey::End => 10,
        BabKey::PageUp => 11,
        BabKey::PageDown => 12,
        BabKey::Insert => 13,
        BabKey::Delete => 14,
        BabKey::F1 => 101,
    }
}

impl BabKey {
    /// The code this key crosses the C interface as.
    #[must_use]
    pub fn code(self) -> (c: u32)
        ensures
            c == spec_key_code(self),
    {
        match self {
            BabKey::Char => 0,
            BabKey::Enter => 1,
            BabKey::Tab => 2,
            BabKey::Backspace => 3,
            BabKey::Escape => 4,
            BabKey::Up => 5,
            BabKey::Down => 6,
            BabKey::Right => 7,
            BabKey::Left => 8,
            BabKey::Home => 9,
            BabKey::End => 10,
            BabKey::PageUp => 11,
            BabKey::PageDown => 12,
            BabKey::Insert => 13,
            BabKey::Delete => 14,
            BabKey::F1 => 101,
        }
    }
}

/// Modifier bits, matching [`Modifiers`].
pub const BAB_MOD_SHIFT: u32 = 1;
pub const BAB_MOD_ALT: u32 = 2;
pub const BAB_MOD_CONTROL: u32 = 4;
pub const BAB_MOD_SUPER: u32 = 8;

/// The key a code names, or `None` for `Char` and for codes no key has.
pub open spec fn spec_named_key(code: u32) -> Option<Key> {
    if code == 1 {
        Some(Key::Enter)
    } else if code == 2 {
        Some(Key::Tab)
    } else if code == 3 {
        Some(Key::Backspace)
    } else if code == 4 {
        Some(Key::Escape)
    } else if code == 5 {
        Some(Key::Up)
    } else if code == 6 {
        Some(Key::Down)
    } else if code == 7 {
        Some(Key::Right)
    } else if code == 8 {
        Some(Key::Left)
    } else if code == 9 {
        Some(Key::Home)
    } else if code == 10 {
        Some(Key::End)
    } else if code == 11 {
        Some(Key::PageUp)
    } else if code == 12 {
        Some(Key::PageDown)
    } else if code == 13 {
        Some(Key::Insert)
    } else if code == 14 {
        Some(Key::Delete)
    } else if 101 <= code <= 112 {
        Some(Key::Function((code - 100) as u8))
    } else {
        None
    }
}

/// The key a code names.
#[must_use]
pub fn named_key(code: u32) -> (k: Option<Key>)
    ensures
        k == spec_named_key(code),
{
    match code {
        1 => Some(Key::Enter),
        2 => Some(Key::Tab),
        3 => Some(Key::Backspace),
        4 => Some(Key::Escape),
        5 => Some(Key::Up),
        6 => Some(Key::Down),
        7 => Some(Key::Right),
        8 => Some(Key::Left),
        9 => Some(Key::Home),
        10 => Some(Key::End),
        11 => Some(Key::PageUp),
        12 => Some(Key::PageDown),
        13 => Some(Key::Insert),
        14 => Some(Key::Delete),
        101..=112 => Some(Key::Function((code - 100) as u8)),
        _ => None,
    }
}

/// What a key press sends. A named key is encoded; without one, the text the
/// platform's input method produced is sent as it is unless ctrl or alt changes its
/// meaning, in which case its first character is encoded as a typed key.
pub open spec fn spec_key_input(key: Option<Key>, text: Seq<char>, m: Modifiers, modes: Modes) -> Option<Seq<u8>> {
    match key {
        Some(k) => spec_encode(k, m, modes),
        None => if !m.has(Modifiers::CONTROL) && !m.has(Modifiers::ALT) {
            if text.len() > 0 {
                Some(encode_utf8(text))
            } else {
                None
            }
        } else if text.len() > 0 {
            spec_encode(Key::Char(text[0]), m, modes)
        } else {
            None
        },
    }
}

/// The bytes a key press sends to the shell, or `None` for nothing.
///
/// `text` carries what the platform's input method produced, which is what an IME
/// or a dead key hands us. It is sent verbatim unless a modifier changes the
/// meaning, because re-encoding it character by character would drop the rest.
#[must_use]
pub fn key_input(key: Option<Key>, text: &str, modifiers: Modifiers, modes: &Modes) -> (r: Option<Vec<u8>>)
    ensures
        match spec_key_input(key, text@, modifiers, *modes) {
            Some(b) => r matches Some(v) && v@ == b,
            None => r is None,
        },
{
    match key {
        Some(k) => encode(&k, modifiers, modes),
        None => {
            let chars = chars_of(text);
            let plain = !modifiers.contains(Modifiers::CONTROL) && !modifiers.contains(Modifiers::ALT);
            if plain {
                if chars.len() > 0 {
                    let mut v: Vec<u8> = Vec::new();
                    push_all(&mut v, text.as_bytes());
                    Some(v)
                } else {
                    None
                }
            } else if chars.len() > 0 {
                encode(&Key::Char(chars[0]), modifiers, modes)
            } else {
                None
            }
        },
    }
}

/// Whether the cursor is in the lit half of its blink, `elapsed` after the last
/// keystroke or output, blinking every `interval`: lit in even intervals.
#[must_use]
pub fn blink_lit(elapsed: u128, interval: u128) -> (b: bool)
    requires
        interval > 0,
    ensures
        b == ((elapsed / interval) % 2 == 0),
{
    (elapsed / interval) % 2 == 0
}

/// The title to show: the one the running application asked for, or `bab`.
#[must_use]
pub fn window_title(requested: Option<&str>) -> (t: String)
    ensures
        match requested {
            Some(s) => t@ == s@,
            None => t@ == seq!['b', 'a', 'b'],
        },
{
    match requested {
        Some(s) => s.to_owned(),
        None => {
            let mut t = String::new();
            crate::strs::push_char(&mut t, 'b');
            crate::strs::push_char(&mut t, 'a');
            crate::strs::push_char(&mut t, 'b');
            t
        },
    }
}

} // verus!
