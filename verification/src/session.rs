//! The decisions of a terminal bound to a pseudoterminal: how big it is, what a
//! paste sends, and when query replies are written back.

use vstd::prelude::*;
use vstd::utf8::encode_utf8;

use crate::digits::push_all;
use crate::vt::term::{TermView, Terminal};

verus! {

/// The visible size of the terminal, in cells.
#[derive(Clone, Copy, PartialEq, Eq, Debug, Structural)]
pub struct Size {
    pub rows: u16,
    pub cols: u16,
}

impl Size {
    #[must_use]
    pub fn new(rows: u16, cols: u16) -> (s: Self)
        ensures
            s == (Size { rows, cols }),
    {
        Size { rows, cols }
    }
}

/// `ESC [ 200 ~`, which opens a bracketed paste.
pub open spec fn paste_start() -> Seq<u8> {
    seq![0x1bu8, 91u8, 50u8, 48u8, 48u8, 126u8]
}

/// `ESC [ 201 ~`, which closes it.
pub open spec fn paste_end() -> Seq<u8> {
    seq![0x1bu8, 91u8, 50u8, 48u8, 49u8, 126u8]
}

/// The bytes a paste of `text` sends: its UTF-8, between the paste brackets when
/// the application asked for them.
///
/// Without brackets an application cannot distinguish a paste from typing, so a
/// pasted newline runs a command. Bracketing is what makes paste safe in a shell.
#[must_use]
pub fn paste_bytes(text: &str, bracketed: bool) -> (v: Vec<u8>)
    ensures
        bracketed ==> v@ == paste_start() + encode_utf8(text@) + paste_end(),
        !bracketed ==> v@ == encode_utf8(text@),
{
    let mut v: Vec<u8> = Vec::new();
    if bracketed {
        v.push(0x1bu8);
        v.push(91u8);
        v.push(50u8);
        v.push(48u8);
        v.push(48u8);
        v.push(126u8);
    }
    let ghost head = v@;
    push_all(&mut v, text.as_bytes());
    if bracketed {
        v.push(0x1bu8);
        v.push(91u8);
        v.push(50u8);
        v.push(48u8);
        v.push(49u8);
        v.push(126u8);
        assert(v@ =~= paste_start() + encode_utf8(text@) + paste_end());
    }
    v
}

/// The replies owed to the child after a round of output, taken from `terminal`.
///
/// They are taken exactly when output was applied, whether or not this round found
/// new bytes itself; otherwise a reply to a query in already-applied output would be
/// generated and dropped, and the application waiting for it would block forever.
/// Nothing is returned when nothing is owed.
pub fn take_replies(terminal: &mut Terminal, applied: bool) -> (r: Option<Vec<u8>>)
    ensures
        applied ==> final(terminal)@ == (TermView { output: Seq::empty(), ..old(terminal)@ }),
        applied && old(terminal)@.output.len() > 0 ==> (r matches Some(v) && v@ == old(terminal)@.output),
        !(applied && old(terminal)@.output.len() > 0) ==> r is None,
        !applied ==> *final(terminal) == *old(terminal),
{
    if !applied {
        return None;
    }
    let replies = terminal.take_output();
    if replies.len() > 0 {
        Some(replies)
    } else {
        None
    }
}

} // verus!
