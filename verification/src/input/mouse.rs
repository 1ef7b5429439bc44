//! Encoding mouse events.
//!
//! Two encodings, chosen by what the application asked for. `SGR` (`?1006`) is the one
//! to prefer: the legacy `X10` form packs coordinates into single bytes and silently
//! breaks past column 223, which any real terminal window exceeds.

use vstd::prelude::*;

use crate::digits::{decimal, push_decimal};
use crate::input::key::Modifiers;
use crate::vt::modes::{Modes, MouseTracking};

verus! {

#[derive(Clone, Copy, PartialEq, Eq, Debug, Structural)]
pub enum MouseButton {
    Left,
    Middle,
    Right,
    WheelUp,
    WheelDown,
}

#[derive(Clone, Copy, PartialEq, Eq, Debug, Structural)]
pub enum MouseEventKind {
    Press,
    Release,
    /// Movement, with a button held or not.
    Motion,
}

/// A mouse event in cell coordinates, zero-indexed.
#[derive(Clone, Copy, PartialEq, Eq, Debug, Structural)]
pub struct MouseEvent {
    pub kind: MouseEventKind,
    pub button: Option<MouseButton>,
    pub row: usize,
    pub col: usize,
    pub modifiers: Modifiers,
}

/// Largest coordinate the legacy `X10` encoding can express: `255 - 32`.
pub const X10_LIMIT: usize = 223;

/// The low bits of the button field.
pub open spec fn spec_code(b: MouseButton) -> u8 {
    match b {
        MouseButton::Left => 0,
        MouseButton::Middle => 1,
        MouseButton::Right => 2,
        MouseButton::WheelUp => 64,
        MouseButton::WheelDown => 65,
    }
}

pub open spec fn spec_is_wheel(b: MouseButton) -> bool {
    b is WheelUp || b is WheelDown
}

impl MouseButton {
    /// The low bits of the button field.
    pub fn code(self) -> (c: u8)
        ensures
            c == spec_code(self),
    {
        match self {
            MouseButton::Left => 0,
            MouseButton::Middle => 1,
            MouseButton::Right => 2,
            MouseButton::WheelUp => 64,
            MouseButton::WheelDown => 65,
        }
    }

    pub fn is_wheel(self) -> (b: bool)
        ensures
            b == spec_is_wheel(self),
    {
        match self {
            MouseButton::WheelUp | MouseButton::WheelDown => true,
            _ => false,
        }
    }
}

/// Whether the application's tracking mode covers this event: none while off,
/// presses and releases for click tracking, motion too while a button is held for
/// drag tracking, everything for motion tracking.
pub open spec fn spec_wants_event(e: MouseEvent, modes: Modes) -> bool {
    match modes.mouse_tracking {
        MouseTracking::Off => false,
        MouseTracking::Click => e.kind != MouseEventKind::Motion,
        MouseTracking::Drag => e.kind != MouseEventKind::Motion || e.button is Some,
        MouseTracking::Motion => true,
    }
}

/// The button field: the button's code (3 for motion with none held), plus 32 for
/// motion other than the wheel's, 4 for shift, 8 for alt and 16 for control.
pub open spec fn spec_button_field(e: MouseEvent) -> int {
    let base: int = match e.button {
        Some(b) => spec_code(b) as int,
        None => 3,
    };
    let motion: int = if e.kind == MouseEventKind::Motion && !(e.button matches Some(b) && spec_is_wheel(b)) {
        32
    } else {
        0
    };
    base + motion + (if e.modifiers.has(Modifiers::SHIFT) { 4int } else { 0 }) + (if e.modifiers.has(Modifiers::ALT) {
        8int
    } else {
        0
    }) + (if e.modifiers.has(Modifiers::CONTROL) { 16int } else { 0 })
}

/// What a mouse event sends, or `None` when the application does not want it.
///
/// `SGR`: `CSI < button ; col ; row` and `M`, or `m` for a release, coordinates
/// one-indexed. `X10`: `CSI M` and three bytes offset by 32 (button 3 for any
/// release), or nothing where a coordinate passes [`X10_LIMIT`].
pub open spec fn spec_encode(e: MouseEvent, modes: Modes) -> Option<Seq<u8>> {
    let button = spec_button_field(e);
    let col = e.col + 1;
    let row = e.row + 1;
    if !spec_wants_event(e, modes) {
        None
    } else if modes.sgr_mouse {
        Some(
            seq![0x1bu8, 91u8, 60u8] + decimal(button as nat) + seq![59u8] + decimal(col as nat) + seq![59u8]
                + decimal(row as nat) + seq![if e.kind == MouseEventKind::Release { 109u8 } else { 77u8 }],
        )
    } else if col > X10_LIMIT || row > X10_LIMIT {
        None
    } else {
        Some(
            seq![
                0x1bu8,
                91u8,
                77u8,
                (32 + (if e.kind == MouseEventKind::Release { 3 } else { button })) as u8,
                (32 + col) as u8,
                (32 + row) as u8,
            ],
        )
    }
}

/// Encode a mouse event, or `None` when the application does not want it.
#[must_use]
pub fn encode(event: MouseEvent, modes: &Modes) -> (r: Option<Vec<u8>>)
    ensures
        match spec_encode(event, *modes) {
            Some(b) => r matches Some(v) && v@ == b,
            None => r is None,
        },
{
    if !wants_event(event, modes) {
        return None;
    }
    let button = button_field(event);
    // Reported coordinates are one-indexed; widened first, so the last cell of a
    // `usize`-sized screen still has a number.
    let col: u128 = event.col as u128 + 1;
    let row: u128 = event.row as u128 + 1;
    if modes.sgr_mouse {
        let final_byte: u8 = if event.kind == MouseEventKind::Release { 109u8 } else { 77u8 };
        let mut v = vec![0x1bu8, 91u8, 60u8];
        let ghost head = v@;
        push_decimal(&mut v, button as u128);
        v.push(59u8);
        push_decimal(&mut v, col);
        v.push(59u8);
        push_decimal(&mut v, row);
        v.push(final_byte);
        assert(v@ =~= head + decimal(button as nat) + seq![59u8] + decimal(col as nat) + seq![59u8] + decimal(
            row as nat,
        ) + seq![final_byte]);
        return Some(v);
    }
    // X10 cannot express a release button, nor coordinates past its limit. Dropping the
    // event is better than reporting a click on the wrong cell.
    if col > X10_LIMIT as u128 || row > X10_LIMIT as u128 {
        return None;
    }
    let button: u8 = if event.kind == MouseEventKind::Release { 3 } else { button };
    Some(vec![0x1bu8, 91u8, 77u8, 32 + button, 32 + col as u8, 32 + row as u8])
}

/// Whether the application's tracking mode covers this event.
fn wants_event(event: MouseEvent, modes: &Modes) -> (b: bool)
    ensures
        b == spec_wants_event(event, *modes),
{
    match modes.mouse_tracking {
        MouseTracking::Off => false,
        MouseTracking::Click => event.kind != MouseEventKind::Motion,
        // Drag reports motion only while a button is held.
        MouseTracking::Drag => event.kind != MouseEventKind::Motion || event.button.is_some(),
        MouseTracking::Motion => true,
    }
}

fn button_field(event: MouseEvent) -> (f: u8)
    ensures
        f == spec_button_field(event),
{
    let mut field: u8 = match event.button {
        Some(button) => button.code(),
        // Motion with no button held reports as button 3, "released".
        None => 3,
    };
    // Wheel events never report motion, so the motion bit is safe to add otherwise.
    let wheel = match event.button {
        Some(button) => button.is_wheel(),
        None => false,
    };
    if event.kind == MouseEventKind::Motion && !wheel {
        field = field + 32;
    }
    if event.modifiers.contains(Modifiers::SHIFT) {
        field = field + 4;
    }
    if event.modifiers.contains(Modifiers::ALT) {
        field = field + 8;
    }
    if event.modifiers.contains(Modifiers::CONTROL) {
        field = field + 16;
    }
    field
}

} // verus!
