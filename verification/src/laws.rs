//! What holds of the library as a whole: promises that relate several operations,
//! or every input of one, stated over the models the operations' contracts use.

use vstd::prelude::*;

use crate::config::{hex_char, hex_digits, hex_value, spec_hex, spec_parse, strip_hashes, Color as RgbColor};
use crate::input::key::{Key, Modifiers};
use crate::input::keyboard::{spec_control_byte, spec_cursor_key, spec_encode};
use crate::digits::decimal;
use crate::input::mouse::{spec_encode as spec_encode_mouse, spec_wants_event, MouseButton, MouseEvent, MouseEventKind};
use crate::strs::{spec_is_whitespace, trim_end, trim_start};
use crate::vt::attrs::{Attrs, Color};
use crate::vt::cell::{ContentView, CellView};
use crate::vt::grid::{Cursor, GridView, SavedCursor};
use crate::vt::line::{blank_line, fit_line, is_cont, line_text, min, place_cluster, span_end, span_start};
use crate::vt::modes::{Modes, MouseTracking};
use crate::vt::selection::{cell_first_char, click_mode, spec_is_separator, spec_word_end, spec_word_start, SelectionMode, SelectionView};
use crate::vt::sgr::{spec_apply, spec_component};
use crate::vt::term::{cursor_motion, cursor_report, TermView};
use crate::vt::unicode::spec_char_width;

verus! {

// ---- the alternate screen ------------------------------------------------------

/// Entering the alternate screen shows it cleared, and leaves the primary screen's
/// lines as they were; whatever the alternate screen then goes through, leaving it
/// gives back the primary screen with the cursor and rendition it had.
pub proof fn law_alt_screen_round_trip(t: TermView, alt: GridView)
    requires
        t.wf(),
        !t.modes.alt_screen,
    ensures
        t.set_alt_screen(true).modes.alt_screen,
        t.set_alt_screen(true).primary.screen == t.primary.screen,
        forall|r: int, c: int|
            0 <= r < t.alt.rows && 0 <= c < t.alt.cols ==> (#[trigger] t.set_alt_screen(true).alt.screen[r][c]).content
                is Empty,
        (TermView { alt, ..t.set_alt_screen(true) }).set_alt_screen(false).primary == (GridView {
            saved: Some(SavedCursor { cursor: t.primary.cursor, attrs: t.primary.attrs }),
            open: None,
            ..t.primary
        }),
        !(TermView { alt, ..t.set_alt_screen(true) }).set_alt_screen(false).modes.alt_screen,
{
    let a = t.alt;
    assert forall|r: int, c: int| 0 <= r < a.rows && 0 <= c < a.cols implies (#[trigger] t.set_alt_screen(
        true,
    ).alt.screen[r][c]).content is Empty by {
        assert(a.screen[r].len() == a.cols);
    }
}

// ---- saving the cursor ------------------------------------------------------------

/// `DECSC` then `DECRC` gives back the position and rendition saved, wherever the
/// cursor went and whatever rendition was set in between, on a screen of the same
/// size.
pub proof fn law_save_restore_cursor(g: GridView, later: GridView)
    requires
        g.wf(),
        later.wf(),
        later.saved == g.save_cursor().saved,
        later.rows == g.rows,
        later.cols == g.cols,
    ensures
        later.restore_cursor().cursor == g.cursor,
        later.restore_cursor().attrs == g.attrs,
{
}

// ---- the viewport -----------------------------------------------------------------

/// Scrolling back `n` lines and then forward `n` returns the viewport to where it
/// was, when history is deep enough for the first.
pub proof fn law_scroll_back_then_forward(g: GridView, n: nat)
    requires
        g.wf(),
        g.offset + n <= g.history.len(),
    ensures
        g.scroll_back(n).scroll_forward(n) == g,
{
}

/// Scrolling saturates: never past the oldest line of history, never below the
/// live screen.
pub proof fn law_scrolling_saturates(g: GridView, n: nat)
    requires
        g.wf(),
    ensures
        g.scroll_back(n).offset <= g.history.len(),
        g.offset + n >= g.history.len() ==> g.scroll_back(n).offset == g.history.len(),
        n >= g.offset ==> g.scroll_forward(n).offset == 0,
{
}

/// A reader scrolled into history is not dragged along by new output: when a
/// line scrolls off the top of the whole screen, every row of the viewport shows
/// the line it showed before, unless the viewport sat on the very oldest line of a
/// full history.
pub proof fn law_new_output_keeps_a_scrolled_viewport(g: GridView, r: int)
    requires
        g.wf(),
        g.top == 0,
        g.bottom == g.rows - 1,
        0 < g.offset < g.limit,
        0 <= r < g.rows,
    ensures
        g.scroll_up_once().display_line(r) == g.display_line(r),
        g.scroll_up_once().offset > 0,
{
    let h = g.history.len() as int;
    let o = g.offset as int;
    let idx = h - o + r;
    let line = g.screen[0];
    let moved = GridView { screen: g.screen.remove(0).insert(g.bottom as int, blank_line(g.cols as int)), ..g };
    let pushed = g.history.push(line);
    assert(g.scroll_up_once() == moved.push_history(line));
    let s2 = moved.screen;
    assert forall|k: int| 0 <= k < g.rows - 1 implies #[trigger] s2[k] == g.screen[k + 1] by {}
    if h < g.limit {
        assert(g.scroll_up_once().history == pushed);
        assert(g.scroll_up_once().offset == o + 1);
        if idx < h {
            assert(pushed[idx] == g.history[idx]);
        } else if idx == h {
            assert(pushed[idx] == line);
        } else {
            assert(s2[idx - h - 1] == g.screen[idx - h]);
        }
    } else {
        let kept = pushed.subrange(1, pushed.len() as int);
        assert(g.scroll_up_once().history == kept);
        assert(kept.len() == h);
        assert(g.scroll_up_once().offset == o + 1);
        if idx < h {
            assert(kept[idx - 1] == pushed[idx]);
            assert(pushed[idx] == g.history[idx]);
        } else if idx == h {
            assert(kept[idx - 1] == pushed[idx]);
        } else {
            assert(s2[idx - h - 1] == g.screen[idx - h]);
        }
    }
}

/// Lines scrolled out of a region that does not start at the top of the screen,
/// or out of a screen that keeps no history, never reach history.
pub proof fn law_region_scrolling_keeps_history(g: GridView, k: nat)
    requires
        g.top > 0 || g.limit == 0,
    ensures
        g.scroll_up_by(k).history == g.history,
    decreases k,
{
    if k > 0 {
        law_region_scrolling_keeps_history(g, (k - 1) as nat);
        g.lemma_scroll_up_by_frame((k - 1) as nat);
    }
}

// ---- printing ---------------------------------------------------------------------

/// With no cluster open, a character of width `w` that fits before the right edge
/// is placed at the cursor, and the cursor moves exactly `w` cells: the grid
/// allocates what the application computed.
pub proof fn law_print_advances_by_width(g: GridView, c: char, w: usize)
    requires
        g.wf(),
        g.open is None,
        spec_char_width(c) == Some(w),
        0 < w <= u16::MAX,
        g.cursor.col + w <= g.cols,
    ensures
        g.print(c).cursor == (Cursor { row: g.cursor.row, col: (g.cursor.col + w) as usize }),
        g.print(c).open == Some(g.cursor),
        g.print(c).screen[g.cursor.row as int][g.cursor.col as int].content == (ContentView::Head {
            text: seq![c],
            width: w as u16,
        }),
{
    assert(g.screen[g.cursor.row as int].len() == g.cols);
}

// ---- wide clusters ------------------------------------------------------------------

/// Every continuation cell follows the head or another continuation cell of its
/// cluster: none is left standing alone.
pub open spec fn no_orphans(line: Seq<CellView>) -> bool {
    forall|i: int|
        0 <= i < line.len() && #[trigger] is_cont(line[i]) ==> i > 0 && (line[i - 1].content is Head || is_cont(
            line[i - 1],
        ))
}

/// Stepping left over continuation cells ends at or before where it started, on a
/// cell that is not a continuation (or the first), having passed only
/// continuation cells.
proof fn lemma_span_start(line: Seq<CellView>, col: int)
    requires
        0 <= col < line.len(),
    ensures
        0 <= span_start(line, col) <= col,
        span_start(line, col) == 0 || !is_cont(line[span_start(line, col)]),
        forall|i: int| span_start(line, col) < i <= col ==> #[trigger] is_cont(line[i]),
    decreases col,
{
    if col > 0 && is_cont(line[col]) {
        lemma_span_start(line, col - 1);
    }
}

/// Stepping right over continuation cells ends at or after where it started, at the
/// end of the line or on a cell that is not a continuation, having passed only
/// continuation cells.
proof fn lemma_span_end(line: Seq<CellView>, end: int)
    requires
        0 <= end <= line.len(),
    ensures
        end <= span_end(line, end) <= line.len(),
        span_end(line, end) == line.len() || !is_cont(line[span_end(line, end)]),
        forall|i: int| end <= i < span_end(line, end) ==> #[trigger] is_cont(line[i]),
    decreases line.len() - end,
{
    if end < line.len() && is_cont(line[end]) {
        lemma_span_end(line, end + 1);
    }
}

/// Overwriting part of a wide cluster erases all of it: placing a cluster on a line
/// with no orphaned continuation cells leaves none.
pub proof fn law_placing_leaves_no_orphans(line: Seq<CellView>, col: int, text: Seq<char>, width: u16, attrs: Attrs)
    requires
        no_orphans(line),
        0 <= col < line.len(),
        width >= 1,
    ensures
        no_orphans(place_cluster(line, col, text, width, attrs)),
{
    let len = line.len() as int;
    let e0 = min(col + width, len);
    lemma_span_start(line, col);
    lemma_span_end(line, e0);
    let s = span_start(line, col);
    let e = span_end(line, e0);
    let placed = place_cluster(line, col, text, width, attrs);
    assert forall|i: int| 0 <= i < placed.len() && #[trigger] is_cont(placed[i]) implies i > 0 && (
    placed[i - 1].content is Head || is_cont(placed[i - 1])) by {
        if col < i < col + width {
        } else {
            // Outside the new cluster, a continuation survives only outside the cleared span.
            assert(!(s <= i < e));
            assert(is_cont(line[i]));
            if i > e {
                assert(!(s <= i - 1 < e));
            } else if i < s {
                assert(!(s <= i - 1 < e));
            } else {
                assert(i == e);
                assert(false);
            }
        }
    }
}

/// No line of the screen has an orphaned continuation cell.
pub open spec fn screen_no_orphans(g: GridView) -> bool {
    forall|r: int| 0 <= r < g.screen.len() ==> no_orphans(#[trigger] g.screen[r])
}

/// An empty line has no continuation cells at all.
proof fn lemma_blank_line_no_orphans(cols: int)
    ensures
        no_orphans(blank_line(cols)),
{
}

/// Scrolling moves whole lines and brings in empty ones.
proof fn lemma_scroll_up_once_no_orphans(g: GridView)
    requires
        g.wf(),
        screen_no_orphans(g),
    ensures
        screen_no_orphans(g.scroll_up_once()),
{
    let s2 = g.screen.remove(g.top as int).insert(g.bottom as int, blank_line(g.cols as int));
    assert(g.scroll_up_once().screen == s2);
    lemma_blank_line_no_orphans(g.cols as int);
    assert forall|r: int| 0 <= r < s2.len() implies no_orphans(#[trigger] s2[r]) by {
        if r < g.top {
            assert(s2[r] == g.screen[r]);
        } else if r < g.bottom {
            assert(s2[r] == g.screen[r + 1]);
        } else if r == g.bottom {
            assert(s2[r] == blank_line(g.cols as int));
        } else {
            assert(s2[r] == g.screen[r]);
        }
    }
}

/// Replacing a head cell by another head keeps its continuation cells attached.
proof fn lemma_new_head_no_orphans(line: Seq<CellView>, col: int, cell: CellView)
    requires
        no_orphans(line),
        0 <= col < line.len(),
        line[col].content is Head,
        cell.content is Head,
    ensures
        no_orphans(line.update(col, cell)),
{
}

/// Printing never orphans a continuation cell: a cluster that grows, a cluster
/// placed over part of a wide one, and a wrap to the next line all keep every
/// continuation cell attached to its head.
pub proof fn law_print_leaves_no_orphans(g: GridView, c: char)
    requires
        g.wf(),
        screen_no_orphans(g),
    ensures
        screen_no_orphans(g.print(c)),
{
    match g.extended(c) {
        Some(h) => {
            let p = g.open->0;
            let line = g.screen[p.row as int];
            assert(line.len() == g.cols);
            let cell = line[p.col as int];
            if let ContentView::Head { text, width } = cell.content {
                let t = text.push(c);
                let w = crate::vt::cell::clamped_width(crate::vt::unicode::spec_str_width(t));
                if w == width || p.col + w > g.cols {
                    let new_cell = CellView { content: ContentView::Head { text: t, width: w }, attrs: cell.attrs };
                    lemma_new_head_no_orphans(line, p.col as int, new_cell);
                    assert forall|r: int| 0 <= r < h.screen.len() implies no_orphans(#[trigger] h.screen[r]) by {
                        if r != p.row {
                            assert(h.screen[r] == g.screen[r]);
                        }
                    }
                } else {
                    law_placing_leaves_no_orphans(line, p.col as int, t, w, g.attrs);
                    assert forall|r: int| 0 <= r < h.screen.len() implies no_orphans(#[trigger] h.screen[r]) by {
                        if r != p.row {
                            assert(h.screen[r] == g.screen[r]);
                        }
                    }
                }
            }
        },
        None => {
            match spec_char_width(c) {
                Some(w) => {
                    if 0 < w && w <= u16::MAX as usize {
                        let g1 = if g.cursor.col + w > g.cols {
                            if g.autowrap {
                                g.carriage_return().linefeed()
                            } else {
                                g.with_cursor(g.cursor.row as int, if w <= g.cols { g.cols - w } else { 0 })
                            }
                        } else {
                            g
                        };
                        if g.cursor.col + w > g.cols && g.autowrap {
                            let cr = g.carriage_return();
                            if cr.cursor.row == cr.bottom {
                                lemma_scroll_up_once_no_orphans(cr.closed());
                                reveal_with_fuel(GridView::scroll_up_by, 2);
                                assert(cr.closed().scroll_up_by(1) == cr.closed().scroll_up_once());
                                cr.closed().lemma_scroll_up_by_frame(1);
                            }
                        }
                        assert(screen_no_orphans(g1));
                        assert(g1.wf());
                        let at = g1.cursor;
                        let line = g1.screen[at.row as int];
                        assert(line.len() == g1.cols);
                        law_placing_leaves_no_orphans(line, at.col as int, seq![c], w as u16, g1.attrs);
                        let out = g.print(c);
                        assert forall|r: int| 0 <= r < out.screen.len() implies no_orphans(#[trigger] out.screen[r]) by {
                            if r != at.row {
                                assert(out.screen[r] == g1.screen[r]);
                            }
                        }
                    }
                },
                None => {},
            }
        },
    }
}

// ---- resizing ---------------------------------------------------------------------

/// The text of a line is the text of its parts, joined.
pub proof fn lemma_line_text_concat(a: Seq<CellView>, b: Seq<CellView>)
    ensures
        line_text(a + b) == line_text(a) + line_text(b),
    decreases b.len(),
{
    if b.len() == 0 {
        assert(a + b =~= a);
    } else {
        assert((a + b).drop_last() =~= a + b.drop_last());
        lemma_line_text_concat(a, b.drop_last());
        assert((a + b).last() == b.last());
    }
}

/// Empty cells have no text.
pub proof fn lemma_line_text_blanks(n: nat, attrs: Attrs)
    ensures
        line_text(Seq::new(n, |i: int| CellView { content: ContentView::Empty, attrs })) == Seq::<char>::empty(),
    decreases n,
{
    if n > 0 {
        let s = Seq::new(n, |i: int| CellView { content: ContentView::Empty, attrs });
        assert(s.drop_last() =~= Seq::new((n - 1) as nat, |i: int| CellView { content: ContentView::Empty, attrs }));
        lemma_line_text_blanks((n - 1) as nat, attrs);
    }
}

/// Growing the screen keeps what every line says.
pub proof fn law_growing_keeps_text(g: GridView, rows: usize, cols: usize, r: int)
    requires
        g.wf(),
        rows >= g.rows,
        cols >= g.cols,
        0 <= r < g.rows,
    ensures
        line_text(g.resized(rows, cols).screen[r]) == line_text(g.screen[r]),
{
    let line = g.screen[r];
    assert(line.len() == g.cols);
    let pad = Seq::new((cols - line.len()) as nat, |i: int| CellView { content: ContentView::Empty, attrs: crate::vt::attrs::default_attrs() });
    assert(fit_line(line, cols as int) == line + pad);
    lemma_line_text_concat(line, pad);
    lemma_line_text_blanks((cols - line.len()) as nat, crate::vt::attrs::default_attrs());
    assert(line_text(line) + Seq::<char>::empty() =~= line_text(line));
}

// ---- selection --------------------------------------------------------------------

/// Two selections over the same range select the same text.
proof fn lemma_text_upto_by_range(s: SelectionView, t: SelectionView, g: GridView, upto: int)
    requires
        s.range(g) == t.range(g),
    ensures
        s.text_upto(g, upto) == t.text_upto(g, upto),
    decreases upto,
{
    let (start, end) = s.range(g);
    if upto > start.row {
        lemma_text_upto_by_range(s, t, g, upto - 1);
        assert(s.row_text(g, upto - 1) == t.row_text(g, upto - 1));
    }
}

/// Dragging back past the anchor inverts the range rather than emptying it: a
/// selection from `a` to `b` covers and copies exactly what one from `b` to `a`
/// does.
pub proof fn law_selection_direction(a: Cursor, b: Cursor, mode: SelectionMode, g: GridView)
    ensures
        (SelectionView { anchor: a, head: b, mode }).text(g) == (SelectionView { anchor: b, head: a, mode }).text(g),
        forall|row: int, col: int|
            (SelectionView { anchor: a, head: b, mode }).contains(g, row, col) == #[trigger] (SelectionView {
                anchor: b,
                head: a,
                mode,
            }).contains(g, row, col),
{
    let s = SelectionView { anchor: a, head: b, mode };
    let t = SelectionView { anchor: b, head: a, mode };
    assert(s.ordered() == t.ordered());
    assert(s.range(g) == t.range(g));
    let (start, end) = s.range(g);
    lemma_text_upto_by_range(s, t, g, if end.row < g.rows - 1 { end.row + 1 } else { g.rows as int });
}

/// A fourth click starts over: the mode cycles with every three clicks.
pub proof fn law_click_count_cycles(clicks: u32)
    requires
        clicks <= u32::MAX - 3,
    ensures
        click_mode((clicks + 3) as u32) == click_mode(clicks),
{
    assert(((clicks + 3) as u32) % 3 == clicks % 3);
}

// ---- SGR --------------------------------------------------------------------------

/// A truecolor foreground can be written in three ways, and they mean the same:
/// `38;2;r;g;b`, `38:2:r:g:b` and `38:2::r:g:b`.
pub proof fn law_truecolor_spellings(
    a: Attrs,
    legacy: Seq<Seq<u16>>,
    colon: Seq<Seq<u16>>,
    spaced: Seq<Seq<u16>>,
    r: u16,
    g: u16,
    b: u16,
)
    requires
        legacy.len() == 5,
        legacy[0] == seq![38u16],
        legacy[1] == seq![2u16],
        legacy[2] == seq![r],
        legacy[3] == seq![g],
        legacy[4] == seq![b],
        colon.len() == 1,
        colon[0] == seq![38u16, 2u16, r, g, b],
        spaced.len() == 1,
        spaced[0] == seq![38u16, 2u16, 0u16, r, g, b],
    ensures
        spec_apply(a, legacy) == (Attrs {
            fg: Color::Rgb(spec_component(r), spec_component(g), spec_component(b)),
            ..a
        }),
        spec_apply(a, colon) == spec_apply(a, legacy),
        spec_apply(a, spaced) == spec_apply(a, legacy),
{
    reveal_with_fuel(crate::vt::sgr::spec_run, 3);
    assert(colon[0].subrange(1, 5) =~= seq![2u16, r, g, b]);
    assert(spaced[0].subrange(1, 6) =~= seq![2u16, 0u16, r, g, b]);
}

/// A 256-color index can be written in two ways, and they mean the same:
/// `38;5;n` and `38:5:n`.
pub proof fn law_indexed_spellings(a: Attrs, legacy: Seq<Seq<u16>>, colon: Seq<Seq<u16>>, n: u16)
    requires
        legacy.len() == 3,
        legacy[0] == seq![38u16],
        legacy[1] == seq![5u16],
        legacy[2] == seq![n],
        colon.len() == 1,
        colon[0] == seq![38u16, 5u16, n],
    ensures
        spec_apply(a, legacy) == (Attrs { fg: Color::Indexed(spec_component(n)), ..a }),
        spec_apply(a, colon) == spec_apply(a, legacy),
{
    reveal_with_fuel(crate::vt::sgr::spec_run, 3);
    assert(colon[0].subrange(1, 3) =~= seq![5u16, n]);
}

// ---- queries ------------------------------------------------------------------------

/// A cursor position report answers with where `CUP` put the cursor: one-indexed,
/// held to the screen, appended to whatever was already owed.
pub proof fn law_report_follows_position(t: TermView, cup: Seq<Seq<u16>>, dsr: Seq<Seq<u16>>, row: u16, col: u16)
    requires
        t.wf(),
        cup.len() == 2,
        cup[0] == seq![row],
        cup[1] == seq![col],
        1 <= row,
        1 <= col,
        dsr.len() == 1,
        dsr[0] == seq![6u16],
    ensures
        t.csi(cup, seq![], false, 'H').csi(dsr, seq![], false, 'n').output == t.output + cursor_report(
            min(row - 1, t.active().rows - 1) as nat,
            min(col - 1, t.active().cols - 1) as nat,
        ),
{
    reveal(crate::vt::term::cursor_motion);
    let g = t.active();
    let moved = t.csi(cup, seq![], false, 'H');
    assert(moved.active() == g.goto(row - 1, col - 1));
    assert(moved.output == t.output);
}

// ---- keys and the mouse -------------------------------------------------------------

/// Super belongs to the window manager: a key pressed with it sends nothing.
pub proof fn law_super_swallows_keys(k: Key, m: Modifiers, modes: Modes)
    requires
        m.has(Modifiers::SUPER),
    ensures
        spec_encode(k, m, modes) is None,
{
}

/// Case is irrelevant to control: ctrl with an upper-case letter sends what it
/// sends with the lower-case one.
pub proof fn law_control_ignores_case(c: char)
    requires
        'a' <= c <= 'z',
    ensures
        spec_control_byte(((c as u32) - 32) as char) == spec_control_byte(c),
        spec_control_byte(c) is Some,
{
}

/// A modified cursor key always uses `CSI`: application cursor mode changes only
/// the unmodified keys.
pub proof fn law_modified_cursor_keys_ignore_decckm(final_byte: u8, m: Modifiers, a: Modes, b: Modes)
    requires
        m.bits() != 0,
    ensures
        spec_cursor_key(final_byte, m, a) == spec_cursor_key(final_byte, m, b),
{
}

/// An application that never asked for mouse reports receives none.
pub proof fn law_mouse_silent_until_requested(e: MouseEvent, modes: Modes)
    requires
        modes.mouse_tracking == MouseTracking::Off,
    ensures
        spec_encode_mouse(e, modes) is None,
{
}

/// `SGR` mouse reporting has no coordinate limit: every event the tracking mode
/// covers is reported.
pub proof fn law_sgr_mouse_reports_everything_wanted(e: MouseEvent, modes: Modes)
    requires
        modes.sgr_mouse,
        spec_wants_event(e, modes),
    ensures
        spec_encode_mouse(e, modes) is Some,
{
}

// ---- colors -----------------------------------------------------------------------

/// Trailing whitespace goes whatever comes before it that is not whitespace.
proof fn lemma_trim_end_prefix(c: char, s: Seq<char>)
    requires
        !spec_is_whitespace(c),
    ensures
        trim_end(seq![c] + s) == seq![c] + trim_end(s),
    decreases s.len(),
{
    if s.len() == 0 {
        assert(seq![c] + s =~= seq![c]);
        assert(seq![c] + Seq::<char>::empty() =~= seq![c]);
    } else {
        assert((seq![c] + s).last() == s.last());
        assert((seq![c] + s).drop_last() =~= seq![c] + s.drop_last());
        lemma_trim_end_prefix(c, s.drop_last());
    }
}

/// The leading `#` is optional: a color written with it parses as it does without.
pub proof fn law_hash_is_optional(s: Seq<char>)
    requires
        s.len() == 0 || !spec_is_whitespace(s[0]),
    ensures
        spec_parse(seq!['#'] + s) == spec_parse(s),
{
    let h = seq!['#'] + s;
    assert(h[0] == '#');
    assert(trim_start(h) == h);
    if s.len() > 0 {
        assert(trim_start(s) == s);
    } else {
        assert(trim_start(s) == s);
    }
    lemma_trim_end_prefix('#', s);
    let te = trim_end(s);
    assert((seq!['#'] + te).drop_first() =~= te);
    assert(strip_hashes(seq!['#'] + te) == strip_hashes(te));
}

/// A hexadecimal digit reads back as the value it was written for.
proof fn lemma_hex_char(v: int)
    requires
        0 <= v < 16,
    ensures
        hex_value(hex_char(v)) == Some(v as u8),
        !spec_is_whitespace(hex_char(v)),
        hex_char(v) != '#',
{
}

/// A color written out as `#rrggbb` parses back to itself.
pub proof fn law_hex_round_trip(c: RgbColor)
    ensures
        spec_parse(spec_hex(c)) == Some(c),
{
    let h = spec_hex(c);
    let ds = seq![c.r / 16, c.r % 16, c.g / 16, c.g % 16, c.b / 16, c.b % 16];
    assert forall|j: int| 0 <= j < 6 implies hex_value(#[trigger] h[j + 1]) == Some(ds[j] as u8) && !spec_is_whitespace(
        h[j + 1],
    ) && h[j + 1] != '#' by {
        lemma_hex_char(ds[j] as int);
    }
    assert(!spec_is_whitespace(h[0]));
    assert(trim_start(h) == h);
    assert(!spec_is_whitespace(h[6]));
    assert(trim_end(h) == h);
    let t = h.drop_first();
    assert(t[0] == h[1]);
    assert(strip_hashes(t) == t);
    assert(strip_hashes(h) == t);
    reveal_with_fuel(hex_digits, 7);
    assert(t =~= seq![h[1], h[2], h[3], h[4], h[5], h[6]]);
    assert(t.drop_last() =~= seq![h[1], h[2], h[3], h[4], h[5]]);
    assert(hex_digits(t) == Some(seq![ds[0] as u8, ds[1] as u8, ds[2] as u8, ds[3] as u8, ds[4] as u8, ds[5] as u8])) by {
        assert(seq![h[1], h[2], h[3], h[4], h[5]].drop_last() =~= seq![h[1], h[2], h[3], h[4]]);
        assert(seq![h[1], h[2], h[3], h[4]].drop_last() =~= seq![h[1], h[2], h[3]]);
        assert(seq![h[1], h[2], h[3]].drop_last() =~= seq![h[1], h[2]]);
        assert(seq![h[1], h[2]].drop_last() =~= seq![h[1]]);
        assert(seq![h[1]].drop_last() =~= Seq::<char>::empty());
        assert(Seq::<u8>::empty().push(ds[0] as u8).push(ds[1] as u8).push(ds[2] as u8).push(ds[3] as u8).push(
            ds[4] as u8,
        ).push(ds[5] as u8) =~= seq![ds[0] as u8, ds[1] as u8, ds[2] as u8, ds[3] as u8, ds[4] as u8, ds[5] as u8]);
    }
}

// ---- what keys, buttons, renditions, motions and words mean ----------------------

/// The arrow keys send their own letters. Unmodified, each is `CSI` (or `SS3` in
/// application cursor mode) and its letter: Up `A`, Down `B`, Right `C`, Left `D`, so
/// no two arrows send the same bytes. With any modifiers but Super the letter still
/// ends what the arrow sends.
pub proof fn law_arrow_keys_send_their_own_letters(m: Modifiers, modes: Modes)
    ensures
        m.bits() == 0 ==> {
            let intro: u8 = if modes.application_cursor_keys { 79u8 } else { 91u8 };
            &&& spec_encode(Key::Up, m, modes) == Some(seq![0x1bu8, intro, 65u8])
            &&& spec_encode(Key::Down, m, modes) == Some(seq![0x1bu8, intro, 66u8])
            &&& spec_encode(Key::Right, m, modes) == Some(seq![0x1bu8, intro, 67u8])
            &&& spec_encode(Key::Left, m, modes) == Some(seq![0x1bu8, intro, 68u8])
        },
        !m.has(Modifiers::SUPER) ==> {
            &&& spec_encode(Key::Up, m, modes) matches Some(b) && b.len() >= 3 && b[0] == 0x1bu8 && b.last() == 65u8
            &&& spec_encode(Key::Down, m, modes) matches Some(b) && b.len() >= 3 && b[0] == 0x1bu8 && b.last() == 66u8
            &&& spec_encode(Key::Right, m, modes) matches Some(b) && b.len() >= 3 && b[0] == 0x1bu8 && b.last() == 67u8
            &&& spec_encode(Key::Left, m, modes) matches Some(b) && b.len() >= 3 && b[0] == 0x1bu8 && b.last() == 68u8
        },
{
    let bits = m.bits();
    if bits == 0 {
        assert(bits & 8u8 != 8u8) by (bit_vector)
            requires
                bits == 0u8,
        ;
    }
}

/// An unmodified press reported in `SGR` names the button pressed: `CSI <`, then 0
/// for the left button, 1 the middle, 2 the right, 64 wheel up and 65 wheel down,
/// then the one-indexed column and row, and `M`.
pub proof fn law_sgr_press_names_its_button(e: MouseEvent, modes: Modes)
    requires
        modes.sgr_mouse,
        modes.mouse_tracking != MouseTracking::Off,
        e.kind == MouseEventKind::Press,
        e.modifiers.bits() == 0,
    ensures
        ({
            let tail = seq![59u8] + decimal((e.col + 1) as nat) + seq![59u8] + decimal((e.row + 1) as nat) + seq![77u8];
            &&& e.button == Some(MouseButton::Left) ==> spec_encode_mouse(e, modes) == Some(seq![0x1bu8, 91u8, 60u8, 48u8] + tail)
            &&& e.button == Some(MouseButton::Middle) ==> spec_encode_mouse(e, modes) == Some(seq![0x1bu8, 91u8, 60u8, 49u8] + tail)
            &&& e.button == Some(MouseButton::Right) ==> spec_encode_mouse(e, modes) == Some(seq![0x1bu8, 91u8, 60u8, 50u8] + tail)
            &&& e.button == Some(MouseButton::WheelUp) ==> spec_encode_mouse(e, modes) == Some(
                seq![0x1bu8, 91u8, 60u8, 54u8, 52u8] + tail,
            )
            &&& e.button == Some(MouseButton::WheelDown) ==> spec_encode_mouse(e, modes) == Some(
                seq![0x1bu8, 91u8, 60u8, 54u8, 53u8] + tail,
            )
        }),
{
    let bits = e.modifiers.bits();
    assert(bits & 1u8 != 1u8 && bits & 2u8 != 2u8 && bits & 4u8 != 4u8) by (bit_vector)
        requires
            bits == 0u8,
    ;
    reveal_with_fuel(decimal, 2);
    let tail = seq![59u8] + decimal((e.col + 1) as nat) + seq![59u8] + decimal((e.row + 1) as nat) + seq![77u8];
    assert(seq![0x1bu8, 91u8, 60u8] + seq![48u8] + tail =~= seq![0x1bu8, 91u8, 60u8, 48u8] + tail);
    assert(seq![0x1bu8, 91u8, 60u8] + seq![49u8] + tail =~= seq![0x1bu8, 91u8, 60u8, 49u8] + tail);
    assert(seq![0x1bu8, 91u8, 60u8] + seq![50u8] + tail =~= seq![0x1bu8, 91u8, 60u8, 50u8] + tail);
    assert(decimal(64) =~= seq![54u8, 52u8]);
    assert(decimal(65) =~= seq![54u8, 53u8]);
    assert(seq![0x1bu8, 91u8, 60u8] + seq![54u8, 52u8] + tail =~= seq![0x1bu8, 91u8, 60u8, 54u8, 52u8] + tail);
    assert(seq![0x1bu8, 91u8, 60u8] + seq![54u8, 53u8] + tail =~= seq![0x1bu8, 91u8, 60u8, 54u8, 53u8] + tail);
}

/// The eight basic colors and their bright forms: for each `k` up to 7, `SGR 30+k`
/// and `SGR 40+k` set the foreground and background to palette slot `k`, and
/// `SGR 90+k` and `SGR 100+k` set them to slot `k + 8`. Nothing else changes.
pub proof fn law_sgr_palette_slots(a: Attrs, k: u16)
    requires
        k <= 7,
    ensures
        spec_apply(a, seq![seq![(30 + k) as u16]]) == (Attrs { fg: Color::Indexed(k as u8), ..a }),
        spec_apply(a, seq![seq![(40 + k) as u16]]) == (Attrs { bg: Color::Indexed(k as u8), ..a }),
        spec_apply(a, seq![seq![(90 + k) as u16]]) == (Attrs { fg: Color::Indexed((k + 8) as u8), ..a }),
        spec_apply(a, seq![seq![(100 + k) as u16]]) == (Attrs { bg: Color::Indexed((k + 8) as u8), ..a }),
{
    reveal_with_fuel(crate::vt::sgr::spec_run, 2);
    assert(seq![(30 + k) as u16].subrange(1, 1) =~= Seq::<u16>::empty());
}

/// `VPA` (`CSI n d`) moves to row `n`, one-indexed (0 or no parameter meaning the
/// first, past the last meaning the last), and keeps the column, pulled back onto
/// the screen where the cursor sat past the last one. `CHA` (`CSI n G`) likewise
/// moves to column `n` and keeps the row. Nothing else on the screen changes.
pub proof fn law_absolute_moves_keep_the_other_coordinate(t: TermView, n: u16)
    requires
        t.wf(),
    ensures
        ({
            let g = t.active();
            let keep_col: usize = if g.cursor.col < g.cols { g.cursor.col } else { (g.cols - 1) as usize };
            let to_row: usize = if n == 0 { 0 } else if n <= g.rows { (n - 1) as usize } else { (g.rows - 1) as usize };
            let to_col: usize = if n == 0 { 0 } else if n <= g.cols { (n - 1) as usize } else { (g.cols - 1) as usize };
            &&& t.csi(seq![seq![n]], Seq::empty(), false, 'd').active() == (GridView {
                cursor: Cursor { row: to_row, col: keep_col },
                open: None,
                ..g
            })
            &&& t.csi(Seq::empty(), Seq::empty(), false, 'd').active() == (GridView {
                cursor: Cursor { row: 0, col: keep_col },
                open: None,
                ..g
            })
            &&& t.csi(seq![seq![n]], Seq::empty(), false, 'G').active() == (GridView {
                cursor: Cursor { row: g.cursor.row, col: to_col },
                open: None,
                ..g
            })
        }),
{
    reveal(cursor_motion);
}

/// Walking left from `col` to the start of its word crosses no separator.
proof fn lemma_word_start(g: GridView, row: int, col: int)
    requires
        0 <= col,
    ensures
        0 <= spec_word_start(g, row, col) <= col,
        forall|j: int| spec_word_start(g, row, col) <= j < col ==> !spec_is_separator(g, row, j),
    decreases col,
{
    if col > 0 && !spec_is_separator(g, row, col - 1) {
        lemma_word_start(g, row, col - 1);
    }
}

/// Walking right from `col` to the end of its word crosses no separator.
proof fn lemma_word_end(g: GridView, row: int, col: int)
    ensures
        col <= spec_word_end(g, row, col),
        spec_word_end(g, row, col) <= if col < g.cols { g.cols as int } else { col },
        forall|j: int| col < j <= spec_word_end(g, row, col) ==> !spec_is_separator(g, row, j),
    decreases g.cols - col,
{
    if col < g.cols - 1 && !spec_is_separator(g, row, col + 1) {
        lemma_word_end(g, row, col + 1);
    }
}

/// A double click selects a word: every other cell it covers holds a character that
/// is none of space, tab, `"`, `'`, `` ` ``, `(`, `)`, `[`, `]`, `{`, `}`, `<`, `>`,
/// `|`, `;`, `:`, `,` and `=`. Only the clicked cell may be one of them.
pub proof fn law_word_selection_stops_at_separators(g: GridView, click: Cursor, col: int)
    requires
        (SelectionView { anchor: click, head: click, mode: SelectionMode::Word }).contains(g, click.row as int, col),
        col != click.col,
    ensures
        cell_first_char(g, click.row as int, col) matches Some(c) && !(c == ' ' || c == '\t' || c == '"' || c == '\''
            || c == '`' || c == '(' || c == ')' || c == '[' || c == ']' || c == '{' || c == '}' || c == '<' || c
            == '>' || c == '|' || c == ';' || c == ':' || c == ',' || c == '='),
{
    let row = click.row as int;
    lemma_word_start(g, row, click.col as int);
    lemma_word_end(g, row, click.col as int);
    assert(!spec_is_separator(g, row, col));
}

} // verus!
