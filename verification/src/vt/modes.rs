//! DEC private modes (`CSI ? Pm h` / `CSI ? Pm l`) and cursor style.

use vstd::prelude::*;

verus! {

/// How the cursor is drawn, set by `DECSCUSR` (`CSI Ps SP q`).
#[derive(Clone, Copy, PartialEq, Eq, Debug, Structural)]
pub enum CursorShape {
    Block,
    Underline,
    Bar,
}

/// Cursor appearance.
#[derive(Clone, Copy, PartialEq, Eq, Debug, Structural)]
pub struct CursorStyle {
    pub shape: CursorShape,
    pub blink: bool,
}

/// A blinking block, the cursor a terminal starts with.
pub open spec fn default_cursor_style() -> CursorStyle {
    CursorStyle { shape: CursorShape::Block, blink: true }
}

impl Default for CursorStyle {
    fn default() -> (s: Self)
        ensures
            s == default_cursor_style(),
    {
        CursorStyle { shape: CursorShape::Block, blink: true }
    }
}

/// What a `DECSCUSR` parameter selects: `0` and `1` a blinking block, then steady
/// and blinking pairs of block, underline and bar up to `6`.
pub open spec fn decscusr_style(param: u16) -> Option<CursorStyle> {
    if param <= 1 {
        Some(CursorStyle { shape: CursorShape::Block, blink: true })
    } else if param == 2 {
        Some(CursorStyle { shape: CursorShape::Block, blink: false })
    } else if param == 3 {
        Some(CursorStyle { shape: CursorShape::Underline, blink: true })
    } else if param == 4 {
        Some(CursorStyle { shape: CursorShape::Underline, blink: false })
    } else if param == 5 {
        Some(CursorStyle { shape: CursorShape::Bar, blink: true })
    } else if param == 6 {
        Some(CursorStyle { shape: CursorShape::Bar, blink: false })
    } else {
        None
    }
}

impl CursorStyle {
    /// Map a `DECSCUSR` parameter. `0` means "reset to default", as does an omitted one.
    #[must_use]
    pub fn from_decscusr(param: u16) -> (r: Option<Self>)
        ensures
            r == decscusr_style(param),
    {
        match param {
            0 | 1 => Some(CursorStyle { shape: CursorShape::Block, blink: true }),
            2 => Some(CursorStyle { shape: CursorShape::Block, blink: false }),
            3 => Some(CursorStyle { shape: CursorShape::Underline, blink: true }),
            4 => Some(CursorStyle { shape: CursorShape::Underline, blink: false }),
            5 => Some(CursorStyle { shape: CursorShape::Bar, blink: true }),
            6 => Some(CursorStyle { shape: CursorShape::Bar, blink: false }),
            _ => None,
        }
    }
}

/// Mouse reporting granularity.
#[derive(Clone, Copy, PartialEq, Eq, Debug, Structural)]
pub enum MouseTracking {
    Off,
    /// `?1000`: press and release only.
    Click,
    /// `?1002`: plus motion while a button is held.
    Drag,
    /// `?1003`: all motion.
    Motion,
}

impl Default for MouseTracking {
    fn default() -> (m: Self)
        ensures
            m == MouseTracking::Off,
    {
        MouseTracking::Off
    }
}

/// Terminal modes that outlive a single escape sequence.
#[derive(Clone, Copy, PartialEq, Eq, Debug, Structural)]
pub struct Modes {
    /// `?1` `DECCKM`. Arrow keys send `SS3` instead of `CSI`.
    pub application_cursor_keys: bool,
    /// `?7` `DECAWM`. Wrap at the right margin.
    pub autowrap: bool,
    pub cursor_style: CursorStyle,
    /// `?25` `DECTCEM`. Cursor visibility.
    pub cursor_visible: bool,
    /// `?1049`. The alternate screen is active.
    pub alt_screen: bool,
    /// `?2004`. Wrap pasted text in `ESC [ 200 ~` / `ESC [ 201 ~`.
    pub bracketed_paste: bool,
    /// `?2026`. Hold rendering until the batch ends.
    pub synchronized_output: bool,
    /// `?2031`. The application wants color-scheme change notifications.
    pub color_scheme_updates: bool,
    /// `?1006` SGR mouse encoding.
    pub sgr_mouse: bool,
    pub mouse_tracking: MouseTracking,
}

/// The modes a terminal starts in: autowrap on, a visible blinking block cursor,
/// everything else off.
pub open spec fn default_modes() -> Modes {
    Modes {
        application_cursor_keys: false,
        autowrap: true,
        cursor_style: default_cursor_style(),
        cursor_visible: true,
        alt_screen: false,
        bracketed_paste: false,
        synchronized_output: false,
        color_scheme_updates: false,
        sgr_mouse: false,
        mouse_tracking: MouseTracking::Off,
    }
}

impl Default for Modes {
    fn default() -> (m: Self)
        ensures
            m == default_modes(),
    {
        Modes {
            application_cursor_keys: false,
            cursor_style: CursorStyle::default(),
            autowrap: true,
            cursor_visible: true,
            alt_screen: false,
            bracketed_paste: false,
            synchronized_output: false,
            color_scheme_updates: false,
            sgr_mouse: false,
            mouse_tracking: MouseTracking::Off,
        }
    }
}

/// A DEC private mode we understand.
#[derive(Clone, Copy, PartialEq, Eq, Debug, Structural)]
pub enum Mode {
    ApplicationCursorKeys,
    Autowrap,
    CursorVisible,
    AltScreen,
    BracketedPaste,
    SynchronizedOutput,
    ColorSchemeUpdates,
    SgrMouse,
    MouseTracking(MouseTracking),
}

/// The DEC private mode a number names, if it is one we understand.
pub open spec fn mode_of(number: u16) -> Option<Mode> {
    if number == 1 {
        Some(Mode::ApplicationCursorKeys)
    } else if number == 7 {
        Some(Mode::Autowrap)
    } else if number == 25 {
        Some(Mode::CursorVisible)
    } else if number == 1000 {
        Some(Mode::MouseTracking(MouseTracking::Click))
    } else if number == 1002 {
        Some(Mode::MouseTracking(MouseTracking::Drag))
    } else if number == 1003 {
        Some(Mode::MouseTracking(MouseTracking::Motion))
    } else if number == 1006 {
        Some(Mode::SgrMouse)
    } else if number == 47 || number == 1047 || number == 1049 {
        Some(Mode::AltScreen)
    } else if number == 2004 {
        Some(Mode::BracketedPaste)
    } else if number == 2026 {
        Some(Mode::SynchronizedOutput)
    } else if number == 2031 {
        Some(Mode::ColorSchemeUpdates)
    } else {
        None
    }
}

impl Mode {
    /// Map a DEC private mode number, or `None` if unsupported.
    #[must_use]
    pub fn from_number(number: u16) -> (r: Option<Self>)
        ensures
            r == mode_of(number),
    {
        match number {
            1 => Some(Mode::ApplicationCursorKeys),
            7 => Some(Mode::Autowrap),
            25 => Some(Mode::CursorVisible),
            1000 => Some(Mode::MouseTracking(MouseTracking::Click)),
            1002 => Some(Mode::MouseTracking(MouseTracking::Drag)),
            1003 => Some(Mode::MouseTracking(MouseTracking::Motion)),
            1006 => Some(Mode::SgrMouse),
            // `?47` and `?1047` switch screens without saving the cursor; `?1049`
            // does both. They are treated alike and always save, which xterm permits.
            47 | 1047 | 1049 => Some(Mode::AltScreen),
            2004 => Some(Mode::BracketedPaste),
            2026 => Some(Mode::SynchronizedOutput),
            2031 => Some(Mode::ColorSchemeUpdates),
            _ => None,
        }
    }
}

} // verus!
