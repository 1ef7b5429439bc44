//! The terminal: two screens driven by a VT escape-sequence parser.
//!
//! `vte` splits the byte stream into events (printable characters, control bytes,
//! and `CSI`, `ESC` and `OSC` sequences). Each event is then applied to the
//! terminal state by [`Terminal::perform`], whose effect is stated exactly.

use vstd::prelude::*;

use crate::digits::{decimal, push_all, push_decimal};
use crate::strs::from_utf8;
use vstd::utf8::{decode_utf8, valid_utf8};
use crate::vt::grid::{Cursor, Grid, GridView, LineErase, ScreenErase};
use crate::vt::modes::{decscusr_style, default_modes, mode_of, CursorStyle, Mode, Modes, MouseTracking};
use crate::vt::sgr::{param_views, spec_apply};

verus! {

#[verifier::external_type_specification]
#[verifier::external_body]
pub struct ExVteParser<const N: usize>(vte::Parser<N>);

#[verifier::external_type_specification]
#[verifier::external_body]
pub struct ExVteParams(vte::Params);

/// Lines retained above the primary screen.
pub const SCROLLBACK_LIMIT: usize = 10000;

/// One unit of what the parser recognised in the byte stream.
pub enum VtEvent {
    /// A printable character.
    Print(char),
    /// A C0 or C1 control byte.
    Execute(u8),
    /// A control sequence: its parameter groups (each a value followed by its
    /// subparameters), intermediate bytes, whether the parser gave up on part of
    /// it, and its final character.
    Csi { params: Vec<Vec<u16>>, intermediates: Vec<u8>, ignore: bool, action: char },
    /// An escape sequence.
    Esc { intermediates: Vec<u8>, ignore: bool, byte: u8 },
    /// An operating system command: its `;`-separated fields.
    Osc { params: Vec<Vec<u8>>, bell_terminated: bool },
}

/// What an event carries, as values.
pub enum EventView {
    Print(char),
    Execute(u8),
    Csi { params: Seq<Seq<u16>>, intermediates: Seq<u8>, ignore: bool, action: char },
    Esc { intermediates: Seq<u8>, ignore: bool, byte: u8 },
    Osc { params: Seq<Seq<u8>>, bell_terminated: bool },
}

impl View for VtEvent {
    type V = EventView;

    open spec fn view(&self) -> EventView {
        match self {
            VtEvent::Print(c) => EventView::Print(*c),
            VtEvent::Execute(b) => EventView::Execute(*b),
            VtEvent::Csi { params, intermediates, ignore, action } => EventView::Csi {
                params: param_views(params@),
                intermediates: intermediates@,
                ignore: *ignore,
                action: *action,
            },
            VtEvent::Esc { intermediates, ignore, byte } => EventView::Esc {
                intermediates: intermediates@,
                ignore: *ignore,
                byte: *byte,
            },
            VtEvent::Osc { params, bell_terminated } => EventView::Osc {
                params: param_views(params@),
                bell_terminated: *bell_terminated,
            },
        }
    }
}

/// The events of a run, as values.
pub open spec fn event_views(events: Seq<VtEvent>) -> Seq<EventView> {
    events.map_values(|e: VtEvent| e@)
}

/// The events of one call to the parser, in order.
pub struct VtEvents {
    events: Vec<VtEvent>,
}

/// The parameter groups a `vte::Params` holds, each a value followed by its
/// subparameters.
pub uninterp spec fn spec_param_groups(p: vte::Params) -> Seq<Seq<u16>>;

/// `vte::Params::iter`, collected: each parameter group as a vector.
#[verifier::external_body]
fn param_groups(params: &vte::Params) -> (r: Vec<Vec<u16>>)
    ensures
        param_views(r@) == spec_param_groups(*params),
{
    params.iter().map(|p| p.to_vec()).collect()
}

/// A copy of `bytes`.
fn bytes_to_vec(bytes: &[u8]) -> (v: Vec<u8>)
    ensures
        v@ == bytes@,
{
    let mut v: Vec<u8> = Vec::new();
    push_all(&mut v, bytes);
    v
}

impl VtEvents {
    /// The events collected so far, in order.
    pub closed spec fn recorded(self) -> Seq<EventView> {
        event_views(self.events@)
    }
}

impl vte::Perform for VtEvents {
    fn print(&mut self, c: char)
        ensures
            final(self).recorded() == old(self).recorded().push(EventView::Print(c)),
    {
        self.events.push(VtEvent::Print(c));
        assert(self.recorded() =~= old(self).recorded().push(EventView::Print(c)));
    }

    fn execute(&mut self, byte: u8)
        ensures
            final(self).recorded() == old(self).recorded().push(EventView::Execute(byte)),
    {
        self.events.push(VtEvent::Execute(byte));
        assert(self.recorded() =~= old(self).recorded().push(EventView::Execute(byte)));
    }

    fn csi_dispatch(&mut self, params: &vte::Params, intermediates: &[u8], ignore: bool, action: char)
        ensures
            final(self).recorded() == old(self).recorded().push(
                EventView::Csi { params: spec_param_groups(*params), intermediates: intermediates@, ignore, action },
            ),
    {
        let params = param_groups(params);
        let intermediates = bytes_to_vec(intermediates);
        let e = VtEvent::Csi { params, intermediates, ignore, action };
        let ghost ev = e@;
        self.events.push(e);
        assert(self.recorded() =~= old(self).recorded().push(ev));
    }

    fn esc_dispatch(&mut self, intermediates: &[u8], ignore: bool, byte: u8)
        ensures
            final(self).recorded() == old(self).recorded().push(
                EventView::Esc { intermediates: intermediates@, ignore, byte },
            ),
    {
        let intermediates = bytes_to_vec(intermediates);
        let e = VtEvent::Esc { intermediates, ignore, byte };
        let ghost ev = e@;
        self.events.push(e);
        assert(self.recorded() =~= old(self).recorded().push(ev));
    }

    fn osc_dispatch(&mut self, params: &[&[u8]], bell_terminated: bool)
        ensures
            final(self).recorded() == old(self).recorded().push(
                EventView::Osc { params: params@.map_values(|f: &[u8]| f@), bell_terminated },
            ),
    {
        let mut fields: Vec<Vec<u8>> = Vec::new();
        let mut i: usize = 0;
        while i < params.len()
            invariant
                i <= params@.len(),
                fields@.len() == i,
                forall|k: int| 0 <= k < i ==> #[trigger] fields@[k]@ == params@[k]@,
            decreases params@.len() - i,
        {
            fields.push(bytes_to_vec(params[i]));
            i = i + 1;
        }
        assert(param_views(fields@) =~= params@.map_values(|f: &[u8]| f@));
        let e = VtEvent::Osc { params: fields, bell_terminated };
        let ghost ev = e@;
        self.events.push(e);
        assert(self.recorded() =~= old(self).recorded().push(ev));
    }
}

/// The events, as values, that a parser made by `vte::Parser::new` emits while
/// it is fed `chunks`, each chunk by one call of `vte::Parser::advance`, in order.
pub uninterp spec fn spec_vt_events(chunks: Seq<Seq<u8>>) -> Seq<EventView>;

/// The events a parser that has been fed `fed` emits for the next chunk `bytes`.
pub open spec fn next_events(fed: Seq<Seq<u8>>, bytes: Seq<u8>) -> Seq<EventView> {
    spec_vt_events(fed.push(bytes)).skip(spec_vt_events(fed).len() as int)
}

/// A `vte` parser, with the chunks it has been fed since it was made. It is made
/// only by [`VtParser::new`] and fed only through [`VtParser::advance`], which
/// keep `fed` so.
pub struct VtParser {
    inner: vte::Parser,
    fed: Ghost<Seq<Seq<u8>>>,
}

impl VtParser {
    /// The chunks fed so far, in order.
    pub closed spec fn fed(self) -> Seq<Seq<u8>> {
        self.fed@
    }

    /// A parser in its ground state that has been fed nothing.
    pub fn new() -> (p: Self)
        ensures
            p.fed() == Seq::<Seq<u8>>::empty(),
    {
        VtParser { inner: new_parser(), fed: Ghost(Seq::empty()) }
    }

    /// Feed `bytes` as the next chunk, returning the events it completes.
    pub fn advance(&mut self, bytes: &[u8]) -> (r: Vec<VtEvent>)
        ensures
            final(self).fed() == old(self).fed().push(bytes@),
            event_views(r@) == next_events(old(self).fed(), bytes@),
    {
        let r = parse(self, bytes);
        self.fed = Ghost(self.fed@.push(bytes@));
        r
    }
}

/// `vte::Parser::new`: a parser in its ground state.
#[verifier::external_body]
fn new_parser() -> vte::Parser {
    vte::Parser::new()
}

/// `vte::Parser::advance` on the parser in `p`, collecting what it emits. The parser
/// emits as it goes and its output depends only on the chunks it has been fed since
/// it was made, so what this call collects is what feeding `bytes` after
/// `p.fed()` adds. That `p.fed()` is those chunks is kept by [`VtParser`]; this call
/// leaves it as it was.
#[verifier::external_body]
fn parse(p: &mut VtParser, bytes: &[u8]) -> (r: Vec<VtEvent>)
    ensures
        final(p).fed() == old(p).fed(),
        event_views(r@) == spec_vt_events(old(p).fed().push(bytes@)).skip(spec_vt_events(old(p).fed()).len() as int),
{
    let mut sink = VtEvents { events: Vec::new() };
    p.inner.advance(&mut sink, bytes);
    sink.events
}

// ---- the model ---------------------------------------------------------------

/// The reply to `CSI c`: a VT220 with ANSI color, `ESC [ ? 62 ; 22 c`.
pub open spec fn device_attributes() -> Seq<u8> {
    seq![27u8, 91u8, 63u8, 54u8, 50u8, 59u8, 50u8, 50u8, 99u8]
}

/// The reply to `DSR 6` for a cursor at `row`, `col` (zero-indexed):
/// `ESC [ row+1 ; col+1 R`.
pub open spec fn cursor_report(row: nat, col: nat) -> Seq<u8> {
    seq![27u8, 91u8] + decimal(row + 1) + seq![59u8] + decimal(col + 1) + seq![82u8]
}

/// Parameter group `n`'s first value, or `default` when it is absent or zero.
pub open spec fn param_at(ps: Seq<Seq<u16>>, n: int, default: u16) -> usize {
    let value: u16 = if 0 <= n < ps.len() && ps[n].len() > 0 { ps[n][0] } else { 0 };
    (if value == 0 { default } else { value }) as usize
}

/// The first parameter, or `default` when it is absent or zero.
pub open spec fn param_or(ps: Seq<Seq<u16>>, default: u16) -> usize {
    param_at(ps, 0, default)
}

/// `CUU`, `CUD`, `CUF`, `CUB`, `CHA`, `VPA`, `CUP` (also as `HVP`).
pub open spec fn is_motion(action: char) -> bool {
    action == 'A' || action == 'B' || action == 'C' || action == 'D' || action == 'G' || action == 'd'
        || action == 'H' || action == 'f'
}

/// `IL`, `DL`, `ICH`, `DCH`, `ECH`.
pub open spec fn is_editing(action: char) -> bool {
    action == 'L' || action == 'M' || action == '@' || action == 'P' || action == 'X'
}

/// Cursor motion: relative moves by the first parameter (default one), or an
/// absolute position, one-indexed (default the first row or column).
#[verifier::opaque]
pub open spec fn cursor_motion(g: GridView, ps: Seq<Seq<u16>>, action: char) -> GridView {
    if action == 'A' {
        g.move_up(param_or(ps, 1) as int)
    } else if action == 'B' {
        g.move_down(param_or(ps, 1) as int)
    } else if action == 'C' {
        g.move_right(param_or(ps, 1) as int)
    } else if action == 'D' {
        g.move_left(param_or(ps, 1) as int)
    } else if action == 'G' {
        g.goto(g.cursor.row as int, param_or(ps, 1) - 1)
    } else if action == 'd' {
        g.goto(param_or(ps, 1) - 1, g.cursor.col as int)
    } else {
        g.goto(param_at(ps, 0, 1) - 1, param_at(ps, 1, 1) - 1)
    }
}

/// `ED` (`J`) and `EL` (`K`): `0` below or to the end, `1` above or to the start,
/// `2` all (and for `ED`, `3` too).
#[verifier::opaque]
pub open spec fn erasure(g: GridView, ps: Seq<Seq<u16>>, action: char) -> GridView {
    let n = param_or(ps, 0);
    if action == 'J' {
        g.erase_screen(
            if n == 1 {
                ScreenErase::Above
            } else if n == 2 || n == 3 {
                ScreenErase::All
            } else {
                ScreenErase::Below
            },
        )
    } else {
        g.erase_line(
            if n == 1 {
                LineErase::ToStart
            } else if n == 2 {
                LineErase::All
            } else {
                LineErase::ToEnd
            },
        )
    }
}

/// Line and character editing by the first parameter, default one.
#[verifier::opaque]
pub open spec fn editing(g: GridView, ps: Seq<Seq<u16>>, action: char) -> GridView {
    let n = param_or(ps, 1) as nat;
    if action == 'L' {
        g.insert_lines(n)
    } else if action == 'M' {
        g.delete_lines(n)
    } else if action == '@' {
        g.insert_chars(n)
    } else if action == 'P' {
        g.delete_chars(n)
    } else {
        g.erase_chars(n)
    }
}

/// `SU` and `SD` by the first parameter (default one), and `DECSTBM` from the
/// first and second parameters, one-indexed (default the whole screen).
#[verifier::opaque]
pub open spec fn scrolling(g: GridView, ps: Seq<Seq<u16>>, action: char) -> GridView {
    if action == 'S' {
        g.scroll_up(param_or(ps, 1) as nat)
    } else if action == 'T' {
        g.scroll_down(param_or(ps, 1) as nat)
    } else {
        let bottom = param_at(ps, 1, g.rows as u16);
        g.set_scroll_region(param_at(ps, 0, 1) - 1, if bottom == 0 { 0 } else { bottom - 1 })
    }
}

/// The terminal as values.
pub struct TermView {
    pub primary: GridView,
    /// The alternate screen, which keeps no history.
    pub alt: GridView,
    pub modes: Modes,
    /// The title most recently set via `OSC 0` or `OSC 2`.
    pub title: Option<Seq<char>>,
    /// Bytes owed to the PTY, such as query replies.
    pub output: Seq<u8>,
}

impl TermView {
    pub open spec fn wf(self) -> bool {
        self.primary.wf() && self.alt.wf()
    }

    /// A terminal of `rows` by `cols`: two fresh screens, of which only the
    /// primary keeps history, default modes, no title, nothing owed.
    pub open spec fn fresh(rows: usize, cols: usize) -> TermView {
        TermView {
            primary: GridView::fresh(rows, cols, SCROLLBACK_LIMIT),
            alt: GridView::fresh(rows, cols, 0),
            modes: default_modes(),
            title: None,
            output: Seq::empty(),
        }
    }

    /// The screen being shown: the alternate one while a full-screen application
    /// owns it.
    pub open spec fn active(self) -> GridView {
        if self.modes.alt_screen {
            self.alt
        } else {
            self.primary
        }
    }

    pub open spec fn with_active(self, g: GridView) -> TermView {
        if self.modes.alt_screen {
            TermView { alt: g, ..self }
        } else {
            TermView { primary: g, ..self }
        }
    }

    pub open spec fn with_modes(self, m: Modes) -> TermView {
        TermView { modes: m, ..self }
    }

    /// `?1049`: entering saves the primary cursor, then shows a cleared alternate
    /// screen with its cursor home; leaving shows the primary screen again and
    /// restores its cursor. Asking for the screen already shown does nothing.
    pub open spec fn set_alt_screen(self, enabled: bool) -> TermView {
        if enabled == self.modes.alt_screen {
            self
        } else if enabled {
            TermView {
                primary: self.primary.save_cursor(),
                alt: self.alt.goto(0, 0).erase_screen(ScreenErase::All),
                modes: Modes { alt_screen: true, ..self.modes },
                ..self
            }
        } else {
            TermView {
                primary: self.primary.restore_cursor(),
                modes: Modes { alt_screen: false, ..self.modes },
                ..self
            }
        }
    }

    pub open spec fn set_mode(self, mode: Mode, enabled: bool) -> TermView {
        let m = self.modes;
        match mode {
            Mode::ApplicationCursorKeys => self.with_modes(Modes { application_cursor_keys: enabled, ..m }),
            Mode::Autowrap => {
                let t = self.with_modes(Modes { autowrap: enabled, ..m });
                t.with_active(GridView { autowrap: enabled, ..t.active() })
            },
            Mode::CursorVisible => self.with_modes(Modes { cursor_visible: enabled, ..m }),
            Mode::AltScreen => self.set_alt_screen(enabled),
            Mode::BracketedPaste => self.with_modes(Modes { bracketed_paste: enabled, ..m }),
            Mode::SynchronizedOutput => self.with_modes(Modes { synchronized_output: enabled, ..m }),
            Mode::ColorSchemeUpdates => self.with_modes(Modes { color_scheme_updates: enabled, ..m }),
            Mode::SgrMouse => self.with_modes(Modes { sgr_mouse: enabled, ..m }),
            Mode::MouseTracking(kind) => self.with_modes(
                Modes { mouse_tracking: if enabled { kind } else { MouseTracking::Off }, ..m },
            ),
        }
    }

    /// `CSI ? Pm h` / `l`: each parameter group from `i` on whose first value names a
    /// mode we understand sets or resets it, in order.
    pub open spec fn set_private_modes(self, ps: Seq<Seq<u16>>, i: nat, enabled: bool) -> TermView
        decreases ps.len() - i,
    {
        if i >= ps.len() {
            self
        } else {
            let next = if ps[i as int].len() > 0 {
                match mode_of(ps[i as int][0]) {
                    Some(m) => self.set_mode(m, enabled),
                    None => self,
                }
            } else {
                self
            };
            next.set_private_modes(ps, i + 1, enabled)
        }
    }

    /// `DSR 6`: the active screen's cursor is reported.
    pub open spec fn report_cursor(self) -> TermView {
        let c = self.active().cursor;
        TermView { output: self.output + cursor_report(c.row as nat, c.col as nat), ..self }
    }

    /// A C0 control byte.
    pub open spec fn execute(self, byte: u8) -> TermView {
        let g = self.active();
        if byte == 8 {
            self.with_active(g.backspace())
        } else if byte == 9 {
            self.with_active(g.tab())
        } else if 10 <= byte <= 12 {
            self.with_active(g.linefeed())
        } else if byte == 13 {
            self.with_active(g.carriage_return())
        } else {
            self
        }
    }

    /// A control sequence. `?` as its only intermediate makes it a private-mode
    /// set or reset, a space makes it `DECSCUSR`; any other intermediates make it
    /// one we ignore.
    pub open spec fn csi(self, ps: Seq<Seq<u16>>, inter: Seq<u8>, ignore: bool, action: char) -> TermView {
        if ignore {
            self
        } else if inter == seq![63u8] {
            if action == 'h' || action == 'l' {
                self.set_private_modes(ps, 0, action == 'h')
            } else {
                self
            }
        } else if inter == seq![32u8] {
            if action == 'q' {
                match decscusr_style(param_or(ps, 0) as u16) {
                    Some(st) => self.with_modes(Modes { cursor_style: st, ..self.modes }),
                    None => self,
                }
            } else {
                self
            }
        } else if inter.len() > 0 {
            self
        } else {
            self.csi_plain(ps, action)
        }
    }

    /// A control sequence without intermediates, by its final character.
    pub open spec fn csi_plain(self, ps: Seq<Seq<u16>>, action: char) -> TermView {
        let g = self.active();
        if is_motion(action) {
            self.with_active(cursor_motion(g, ps, action))
        } else if action == 'J' || action == 'K' {
            self.with_active(erasure(g, ps, action))
        } else if is_editing(action) {
            self.with_active(editing(g, ps, action))
        } else if action == 'S' || action == 'T' || action == 'r' {
            self.with_active(scrolling(g, ps, action))
        } else if action == 's' {
            self.with_active(g.save_cursor())
        } else if action == 'u' {
            self.with_active(g.restore_cursor())
        } else if action == 'm' {
            self.with_active(GridView { attrs: spec_apply(g.attrs, ps), ..g })
        } else if action == 'c' {
            TermView { output: self.output + device_attributes(), ..self }
        } else if action == 'n' && param_or(ps, 0) == 6 {
            self.report_cursor()
        } else {
            self
        }
    }

    /// An escape sequence.
    pub open spec fn esc(self, inter: Seq<u8>, ignore: bool, byte: u8) -> TermView {
        let g = self.active();
        if ignore || inter.len() > 0 {
            self
        } else if byte == 55 {
            self.with_active(g.save_cursor())
        } else if byte == 56 {
            self.with_active(g.restore_cursor())
        } else if byte == 77 {
            self.with_active(g.reverse_linefeed())
        } else if byte == 68 {
            self.with_active(g.linefeed())
        } else if byte == 69 {
            self.with_active(g.carriage_return().linefeed())
        } else {
            self
        }
    }

    /// An operating system command: `OSC 0` and `OSC 2` set the title to their
    /// second field, where that is UTF-8.
    pub open spec fn osc(self, ps: Seq<Seq<u8>>) -> TermView {
        if ps.len() >= 2 && (ps[0] == seq![48u8] || ps[0] == seq![50u8]) && valid_utf8(ps[1]) {
            TermView { title: Some(decode_utf8(ps[1])), ..self }
        } else {
            self
        }
    }

    /// The terminal after one event.
    pub open spec fn step(self, e: EventView) -> TermView {
        match e {
            EventView::Print(c) => self.with_active(self.active().print(c)),
            EventView::Execute(b) => self.execute(b),
            EventView::Csi { params, intermediates, ignore, action } => self.csi(params, intermediates, ignore, action),
            EventView::Esc { intermediates, ignore, byte } => self.esc(intermediates, ignore, byte),
            EventView::Osc { params, .. } => self.osc(params),
        }
    }

    /// The terminal after a run of events, in order.
    pub open spec fn run(self, es: Seq<EventView>) -> TermView
        decreases es.len(),
    {
        if es.len() == 0 {
            self
        } else {
            self.run(es.drop_last()).step(es.last())
        }
    }
}

/// Parameter group `n`'s first value, or `default` when it is absent or zero.
fn arg_at(params: &Vec<Vec<u16>>, n: usize, default: u16) -> (r: usize)
    ensures
        r == param_at(param_views(params@), n as int, default),
{
    let value: u16 = if n < params.len() && params[n].len() > 0 { params[n][0] } else { 0 };
    (if value == 0 { default } else { value }) as usize
}

/// The first parameter, or `default` when it is absent or zero.
fn arg_or(params: &Vec<Vec<u16>>, default: u16) -> (r: usize)
    ensures
        r == param_or(param_views(params@), default),
{
    arg_at(params, 0, default)
}

/// Append the reply to `CSI c`.
fn push_device_attributes(out: &mut Vec<u8>)
    ensures
        final(out)@ == old(out)@ + device_attributes(),
{
    let ghost before = out@;
    out.push(27u8);
    out.push(91u8);
    out.push(63u8);
    out.push(54u8);
    out.push(50u8);
    out.push(59u8);
    out.push(50u8);
    out.push(50u8);
    out.push(99u8);
    assert(out@ =~= before + device_attributes());
}


// ---- the state ---------------------------------------------------------------

/// What the events act on.
struct State {
    primary: Grid,
    alt: Grid,
    modes: Modes,
    title: Option<String>,
    output: Vec<u8>,
}

impl View for State {
    type V = TermView;

    closed spec fn view(&self) -> TermView {
        TermView {
            primary: self.primary@,
            alt: self.alt@,
            modes: self.modes,
            title: match self.title {
                Some(t) => Some(t@),
                None => None,
            },
            output: self.output@,
        }
    }
}

impl State {
    spec fn active_grid(&self) -> Grid {
        if self.modes.alt_screen {
            self.alt
        } else {
            self.primary
        }
    }

    fn grid(&self) -> (g: &Grid)
        ensures
            *g == self.active_grid(),
            g@ == self@.active(),
    {
        if self.modes.alt_screen {
            &self.alt
        } else {
            &self.primary
        }
    }

    fn grid_mut(&mut self) -> (g: &mut Grid)
        ensures
            *g == old(self).active_grid(),
            (*g)@ == old(self)@.active(),
            final(self)@ == old(self)@.with_active(final(g)@),
    {
        if self.modes.alt_screen {
            &mut self.alt
        } else {
            &mut self.primary
        }
    }

    fn set_alt_screen(&mut self, enabled: bool)
        requires
            old(self)@.wf(),
        ensures
            final(self)@.wf(),
            final(self)@ == old(self)@.set_alt_screen(enabled),
    {
        if enabled == self.modes.alt_screen {
            return;
        }
        if enabled {
            self.primary.save_cursor();
            self.modes.alt_screen = true;
            self.alt.goto(0, 0);
            self.alt.erase_screen(ScreenErase::All);
        } else {
            self.modes.alt_screen = false;
            self.primary.restore_cursor();
        }
    }

    #[verifier::rlimit(40)]
    fn set_mode(&mut self, mode: Mode, enabled: bool)
        requires
            old(self)@.wf(),
        ensures
            final(self)@.wf(),
            final(self)@ == old(self)@.set_mode(mode, enabled),
    {
        match mode {
            Mode::ApplicationCursorKeys => self.modes.application_cursor_keys = enabled,
            Mode::Autowrap => {
                self.modes.autowrap = enabled;
                self.grid_mut().set_autowrap(enabled);
            },
            Mode::CursorVisible => self.modes.cursor_visible = enabled,
            Mode::AltScreen => self.set_alt_screen(enabled),
            Mode::BracketedPaste => self.modes.bracketed_paste = enabled,
            Mode::SynchronizedOutput => self.modes.synchronized_output = enabled,
            Mode::ColorSchemeUpdates => self.modes.color_scheme_updates = enabled,
            Mode::SgrMouse => self.modes.sgr_mouse = enabled,
            Mode::MouseTracking(kind) => {
                self.modes.mouse_tracking = if enabled { kind } else { MouseTracking::Off };
            },
        }
    }

    /// `CSI ? Pm h` / `l`.
    fn set_private_modes(&mut self, params: &Vec<Vec<u16>>, enabled: bool)
        requires
            old(self)@.wf(),
        ensures
            final(self)@.wf(),
            final(self)@ == old(self)@.set_private_modes(param_views(params@), 0, enabled),
    {
        let mut i: usize = 0;
        while i < params.len()
            invariant
                i <= params@.len(),
                self@.wf(),
                old(self)@.set_private_modes(param_views(params@), 0, enabled) == self@.set_private_modes(param_views(params@), i as nat, enabled),
            decreases params@.len() - i,
        {
            let param = &params[i];
            if param.len() > 0 {
                match Mode::from_number(param[0]) {
                    Some(mode) => self.set_mode(mode, enabled),
                    None => {},
                }
            }
            i = i + 1;
        }
    }

    /// `DSR 6`. Report the cursor position, one-indexed.
    fn report_cursor(&mut self)
        requires
            old(self)@.wf(),
        ensures
            final(self)@.wf(),
            final(self)@ == old(self)@.report_cursor(),
    {
        let cursor = self.grid().cursor();
        let ghost before = self.output@;
        self.output.push(27u8);
        self.output.push(91u8);
        push_decimal(&mut self.output, cursor.row as u128 + 1);
        self.output.push(59u8);
        push_decimal(&mut self.output, cursor.col as u128 + 1);
        self.output.push(82u8);
        assert(self.output@ =~= before + cursor_report(cursor.row as nat, cursor.col as nat));
    }

    fn print(&mut self, c: char)
        requires
            old(self)@.wf(),
        ensures
            final(self)@.wf(),
            final(self)@ == old(self)@.with_active(old(self)@.active().print(c)),
    {
        self.grid_mut().print(c);
    }

    fn execute(&mut self, byte: u8)
        requires
            old(self)@.wf(),
        ensures
            final(self)@.wf(),
            final(self)@ == old(self)@.execute(byte),
    {
        if byte == 8 {
            self.grid_mut().backspace();
        } else if byte == 9 {
            self.grid_mut().tab();
        } else if 10 <= byte && byte <= 12 {
            self.grid_mut().linefeed();
        } else if byte == 13 {
            self.grid_mut().carriage_return();
        }
    }

    /// `CSI`: a control sequence.
    fn csi_dispatch(&mut self, params: &Vec<Vec<u16>>, intermediates: &Vec<u8>, ignore: bool, action: char)
        requires
            old(self)@.wf(),
        ensures
            final(self)@.wf(),
            final(self)@ == old(self)@.csi(param_views(params@), intermediates@, ignore, action),
    {
        if ignore {
            return;
        }
        proof {
            if intermediates@.len() == 1 {
                assert(intermediates@ =~= seq![intermediates@[0]]);
            }
        }
        // `CSI ? … h/l` sets and resets DEC private modes.
        if intermediates.len() == 1 && intermediates[0] == 63u8 {
            if action == 'h' || action == 'l' {
                self.set_private_modes(params, action == 'h');
            }
            return;
        }
        // `CSI Ps SP q` is DECSCUSR. The space is an intermediate, not a parameter.
        if intermediates.len() == 1 && intermediates[0] == 32u8 {
            if action == 'q' {
                match CursorStyle::from_decscusr(arg_or(params, 0) as u16) {
                    Some(style) => self.modes.cursor_style = style,
                    None => {},
                }
            }
            return;
        }
        if intermediates.len() > 0 {
            return;
        }
        assert(intermediates@ =~= seq![]);
        self.csi_plain(params, action);
    }

    /// A control sequence without intermediates.
    fn csi_plain(&mut self, params: &Vec<Vec<u16>>, action: char)
        requires
            old(self)@.wf(),
        ensures
            final(self)@.wf(),
            final(self)@ == old(self)@.csi_plain(param_views(params@), action),
    {
        if action == 'A' || action == 'B' || action == 'C' || action == 'D' || action == 'G' || action == 'd'
            || action == 'H' || action == 'f' {
            self.move_cursor(params, action);
        } else if action == 'J' || action == 'K' {
            self.erase(params, action);
        } else if action == 'L' || action == 'M' || action == '@' || action == 'P' || action == 'X' {
            self.edit(params, action);
        } else if action == 'S' || action == 'T' || action == 'r' {
            self.scroll(params, action);
        } else if action == 's' {
            self.grid_mut().save_cursor();
        } else if action == 'u' {
            self.grid_mut().restore_cursor();
        } else if action == 'm' {
            crate::vt::sgr::apply(self.grid_mut().attrs_mut(), params);
        } else if action == 'c' {
            push_device_attributes(&mut self.output);
        } else if action == 'n' {
            if arg_or(params, 0) == 6 {
                self.report_cursor();
            }
        }
    }

    /// Cursor motion.
    fn move_cursor(&mut self, params: &Vec<Vec<u16>>, action: char)
        requires
            old(self)@.wf(),
            is_motion(action),
        ensures
            final(self)@.wf(),
            final(self)@ == old(self)@.with_active(cursor_motion(old(self)@.active(), param_views(params@), action)),
    {
        reveal(cursor_motion);
        if action == 'A' {
            self.grid_mut().move_up(arg_or(params, 1));
        } else if action == 'B' {
            self.grid_mut().move_down(arg_or(params, 1));
        } else if action == 'C' {
            self.grid_mut().move_right(arg_or(params, 1));
        } else if action == 'D' {
            self.grid_mut().move_left(arg_or(params, 1));
        } else if action == 'G' {
            let col = arg_or(params, 1) - 1;
            let row = self.grid().cursor().row;
            self.grid_mut().goto(row, col);
        } else if action == 'd' {
            let row = arg_or(params, 1) - 1;
            let col = self.grid().cursor().col;
            self.grid_mut().goto(row, col);
        } else {
            let row = arg_at(params, 0, 1) - 1;
            let col = arg_at(params, 1, 1) - 1;
            self.grid_mut().goto(row, col);
        }
    }

    /// `ED`, `EL`.
    fn erase(&mut self, params: &Vec<Vec<u16>>, action: char)
        requires
            old(self)@.wf(),
            action == 'J' || action == 'K',
        ensures
            final(self)@.wf(),
            final(self)@ == old(self)@.with_active(erasure(old(self)@.active(), param_views(params@), action)),
    {
        reveal(erasure);
        let n = arg_or(params, 0);
        if action == 'J' {
            let mode = if n == 1 {
                ScreenErase::Above
            } else if n == 2 || n == 3 {
                ScreenErase::All
            } else {
                ScreenErase::Below
            };
            self.grid_mut().erase_screen(mode);
        } else {
            let mode = if n == 1 {
                LineErase::ToStart
            } else if n == 2 {
                LineErase::All
            } else {
                LineErase::ToEnd
            };
            self.grid_mut().erase_line(mode);
        }
    }

    /// `IL`, `DL`, `ICH`, `DCH`, `ECH`.
    fn edit(&mut self, params: &Vec<Vec<u16>>, action: char)
        requires
            old(self)@.wf(),
            action == 'L' || action == 'M' || action == '@' || action == 'P' || action == 'X',
        ensures
            final(self)@.wf(),
            final(self)@ == old(self)@.with_active(editing(old(self)@.active(), param_views(params@), action)),
    {
        reveal(editing);
        let n = arg_or(params, 1);
        if action == 'L' {
            self.grid_mut().insert_lines(n);
        } else if action == 'M' {
            self.grid_mut().delete_lines(n);
        } else if action == '@' {
            self.grid_mut().insert_chars(n);
        } else if action == 'P' {
            self.grid_mut().delete_chars(n);
        } else {
            self.grid_mut().erase_chars(n);
        }
    }

    /// `SU`, `SD`, `DECSTBM`.
    fn scroll(&mut self, params: &Vec<Vec<u16>>, action: char)
        requires
            old(self)@.wf(),
            action == 'S' || action == 'T' || action == 'r',
        ensures
            final(self)@.wf(),
            final(self)@ == old(self)@.with_active(scrolling(old(self)@.active(), param_views(params@), action)),
    {
        reveal(scrolling);
        if action == 'S' {
            self.grid_mut().scroll_up(arg_or(params, 1));
        } else if action == 'T' {
            self.grid_mut().scroll_down(arg_or(params, 1));
        } else {
            let rows = self.grid().rows();
            let top = arg_at(params, 0, 1) - 1;
            let bottom = arg_at(params, 1, rows as u16);
            self.grid_mut().set_scroll_region(top, if bottom == 0 { 0 } else { bottom - 1 });
        }
    }

    fn esc_dispatch(&mut self, intermediates: &Vec<u8>, ignore: bool, byte: u8)
        requires
            old(self)@.wf(),
        ensures
            final(self)@.wf(),
            final(self)@ == old(self)@.esc(intermediates@, ignore, byte),
    {
        if ignore || intermediates.len() > 0 {
            return;
        }
        if byte == 55 {
            self.grid_mut().save_cursor();
        } else if byte == 56 {
            self.grid_mut().restore_cursor();
        } else if byte == 77 {
            self.grid_mut().reverse_linefeed();
        } else if byte == 68 {
            self.grid_mut().linefeed();
        } else if byte == 69 {
            let g = self.grid_mut();
            g.carriage_return();
            g.linefeed();
        }
    }

    fn osc_dispatch(&mut self, params: &Vec<Vec<u8>>)
        requires
            old(self)@.wf(),
        ensures
            final(self)@.wf(),
            final(self)@ == old(self)@.osc(param_views(params@)),
    {
        if params.len() < 2 {
            return;
        }
        // OSC 0 sets icon name and title; OSC 2 sets the title alone.
        let command = &params[0];
        let is_title = command.len() == 1 && (command[0] == 48u8 || command[0] == 50u8);
        proof {
            if command@.len() == 1 {
                assert(command@ =~= seq![command@[0]]);
            }
        }
        if !is_title {
            return;
        }
        match from_utf8(params[1].as_slice()) {
            Some(title) => self.title = Some(title),
            None => {},
        }
    }
    fn perform(&mut self, event: &VtEvent)
        requires
            old(self)@.wf(),
        ensures
            final(self)@.wf(),
            final(self)@ == old(self)@.step(event@),
    {
        match event {
            VtEvent::Print(c) => self.print(*c),
            VtEvent::Execute(b) => self.execute(*b),
            VtEvent::Csi { params, intermediates, ignore, action } => self.csi_dispatch(params, intermediates, *ignore, *action),
            VtEvent::Esc { intermediates, ignore, byte } => self.esc_dispatch(intermediates, *ignore, *byte),
            VtEvent::Osc { params, .. } => self.osc_dispatch(params),
        }
    }
}

/// A terminal that consumes bytes from a PTY and maintains screen state.
pub struct Terminal {
    parser: VtParser,
    state: State,
}

impl View for Terminal {
    type V = TermView;

    closed spec fn view(&self) -> TermView {
        self.state@
    }
}

impl Terminal {
    /// Both screens well formed: see [`TermView::wf`].
    pub open spec fn wf(&self) -> bool {
        self@.wf()
    }

    /// The chunks of bytes fed so far, in order.
    pub closed spec fn fed(&self) -> Seq<Seq<u8>> {
        self.parser.fed()
    }

    /// A terminal of `rows` by `cols` (at least one of each), the primary screen
    /// keeping [`SCROLLBACK_LIMIT`] lines of history.
    #[must_use]
    pub fn new(rows: usize, cols: usize) -> (t: Self)
        ensures
            t.wf(),
            t@ == TermView::fresh(rows, cols),
            t.fed() == Seq::<Seq<u8>>::empty(),
    {
        Terminal {
            parser: VtParser::new(),
            state: State {
                primary: Grid::new(rows, cols, SCROLLBACK_LIMIT),
                alt: Grid::new(rows, cols, 0),
                modes: Modes::default(),
                title: None,
                output: Vec::new(),
            },
        }
    }

    /// Feed bytes read from the PTY: the parser splits them into events, which are
    /// applied in order as [`Terminal::perform`] applies them. The events are those
    /// the parser emits for `bytes` after the chunks fed before; a sequence cut
    /// short at the end of `bytes` is completed by a later feed.
    pub fn feed(&mut self, bytes: &[u8])
        requires
            old(self).wf(),
        ensures
            final(self).wf(),
            final(self).fed() == old(self).fed().push(bytes@),
            final(self)@ == old(self)@.run(next_events(old(self).fed(), bytes@)),
    {
        let events = self.parser.advance(bytes);
        self.run_events(events.as_slice());
    }

    /// Apply `events` in order, as [`Terminal::perform`] applies each.
    pub fn run_events(&mut self, events: &[VtEvent])
        requires
            old(self).wf(),
        ensures
            final(self).wf(),
            final(self).fed() == old(self).fed(),
            final(self)@ == old(self)@.run(event_views(events@)),
    {
        let ghost start = self@;
        let mut i: usize = 0;
        while i < events.len()
            invariant
                i <= events@.len(),
                self.wf(),
                self.fed() == old(self).fed(),
                self@ == start.run(event_views(events@.subrange(0, i as int))),
            decreases events@.len() - i,
        {
            self.state.perform(&events[i]);
            i = i + 1;
            assert(event_views(events@.subrange(0, i as int)).drop_last() =~= event_views(events@.subrange(0, i - 1)));
        }
        assert(events@.subrange(0, events@.len() as int) =~= events@);
    }

    /// Apply one event.
    pub fn perform(&mut self, event: &VtEvent)
        requires
            old(self).wf(),
        ensures
            final(self).wf(),
            final(self)@ == old(self)@.step(event@),
    {
        self.state.perform(event);
    }

    /// The active screen: the alternate one when a full-screen application owns it.
    #[must_use]
    pub fn grid(&self) -> (g: &Grid)
        ensures
            g@ == self@.active(),
    {
        self.state.grid()
    }

    /// The active screen, to scroll its viewport or otherwise change it.
    pub fn grid_mut(&mut self) -> (g: &mut Grid)
        ensures
            (*g)@ == old(self)@.active(),
            final(self)@ == old(self)@.with_active(final(g)@),
    {
        self.state.grid_mut()
    }

    #[must_use]
    pub fn modes(&self) -> (m: &Modes)
        ensures
            *m == self@.modes,
    {
        &self.state.modes
    }

    /// The title most recently set via `OSC 0` or `OSC 2`.
    #[must_use]
    pub fn title(&self) -> (t: Option<&str>)
        ensures
            match t {
                Some(s) => self@.title == Some(s@),
                None => self@.title is None,
            },
    {
        match &self.state.title {
            Some(t) => Some(t.as_str()),
            None => None,
        }
    }

    /// Take the bytes the terminal owes the PTY, such as query replies.
    ///
    /// The caller must write these back, or applications that query the terminal
    /// will hang waiting for a reply.
    #[must_use]
    pub fn take_output(&mut self) -> (out: Vec<u8>)
        ensures
            out@ == old(self)@.output,
            final(self)@ == (TermView { output: Seq::empty(), ..old(self)@ }),
    {
        let mut out: Vec<u8> = Vec::new();
        std::mem::swap(&mut out, &mut self.state.output);
        out
    }

    /// Resize both screens.
    pub fn resize(&mut self, rows: usize, cols: usize)
        requires
            old(self).wf(),
        ensures
            final(self).wf(),
            final(self)@ == (TermView {
                primary: old(self)@.primary.resized(rows, cols),
                alt: old(self)@.alt.resized(rows, cols),
                ..old(self)@
            }),
    {
        self.state.primary.resize(rows, cols);
        self.state.alt.resize(rows, cols);
    }
}

} // verus!
