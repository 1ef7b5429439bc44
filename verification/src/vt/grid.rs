//! The character grid: cursor, lines, scrollback, and cluster placement.

use vstd::prelude::*;

use crate::strs::trim_end;
use crate::vt::attrs::{default_attrs, Attrs};
use crate::vt::cell::{
    line_view, lines_view, spec_is_single_cluster, clamped_width, Cell, CellContent,
    CellView, Cluster, ContentView,
};
use crate::vt::line::{
    blank_line, clear_range, clear_span, delete_cells, fit_line, insert_blanks, line_clusters,
    line_text, min, place_cluster,
};
use crate::vt::unicode::{spec_char_width, spec_str_width};

verus! {

broadcast use crate::vt::cell::group_line_view;

/// Cursor position, in cells.
#[derive(Clone, Copy, PartialEq, Eq, Debug, Structural)]
pub struct Cursor {
    pub row: usize,
    pub col: usize,
}

impl Default for Cursor {
    fn default() -> (c: Self)
        ensures
            c == (Cursor { row: 0, col: 0 }),
    {
        Cursor { row: 0, col: 0 }
    }
}

/// A cursor position saved with the rendition in force, as `DECSC` saves it.
#[derive(Clone, Copy, PartialEq, Eq, Debug, Structural)]
pub struct SavedCursor {
    pub cursor: Cursor,
    pub attrs: Attrs,
}

/// Which part of a line an erase applies to.
#[derive(Clone, Copy, PartialEq, Eq, Debug, Structural)]
pub enum LineErase {
    ToEnd,
    ToStart,
    All,
}

/// Which part of the screen an erase applies to.
#[derive(Clone, Copy, PartialEq, Eq, Debug, Structural)]
pub enum ScreenErase {
    Below,
    Above,
    All,
}

/// The grid as values.
pub struct GridView {
    /// The visible lines, top to bottom.
    pub screen: Seq<Seq<CellView>>,
    /// Lines scrolled off the top, oldest first.
    pub history: Seq<Seq<CellView>>,
    /// The most lines `history` keeps.
    pub limit: usize,
    /// How many lines the viewport is scrolled back into history.
    pub offset: usize,
    pub rows: usize,
    pub cols: usize,
    pub cursor: Cursor,
    /// The rendition printed and erased cells receive.
    pub attrs: Attrs,
    /// The head of the cluster most recently printed, while the next character may
    /// still extend it.
    pub open: Option<Cursor>,
    /// The scroll region, inclusive.
    pub top: usize,
    pub bottom: usize,
    pub saved: Option<SavedCursor>,
    pub autowrap: bool,
}

/// The smaller of two naturals.
pub open spec fn nmin(a: nat, b: nat) -> nat {
    if a <= b { a } else { b }
}

impl GridView {
    /// The shape every grid keeps: at least one row and column, full-width lines, a
    /// cursor on the screen (or just past its last column), a scroll region inside
    /// it, and history and viewport within their bounds.
    pub open spec fn wf(self) -> bool {
        &&& self.rows >= 1
        &&& self.cols >= 1
        &&& self.screen.len() == self.rows
        &&& forall|r: int| 0 <= r < self.rows ==> #[trigger] self.screen[r].len() == self.cols
        &&& self.history.len() <= self.limit
        &&& self.offset <= self.history.len()
        &&& self.cursor.row < self.rows
        &&& self.cursor.col <= self.cols
        &&& self.top <= self.bottom < self.rows
        &&& (self.open matches Some(p) ==> p.row < self.rows && p.col < self.cols)
    }

    /// A new grid: at least one row and column, all empty, the cursor home, the
    /// whole screen the scroll region, no history, autowrap on.
    pub open spec fn fresh(rows: usize, cols: usize, limit: usize) -> GridView {
        let r: usize = if rows == 0 { 1 } else { rows };
        let c: usize = if cols == 0 { 1 } else { cols };
        GridView {
            screen: Seq::new(r as nat, |i: int| blank_line(c as int)),
            history: Seq::empty(),
            limit,
            offset: 0,
            rows: r,
            cols: c,
            cursor: Cursor { row: 0, col: 0 },
            attrs: default_attrs(),
            open: None,
            top: 0,
            bottom: (r - 1) as usize,
            saved: None,
            autowrap: true,
        }
    }

    /// The cell values of one screen line, replaced.
    pub open spec fn with_line(self, row: int, line: Seq<CellView>) -> GridView {
        GridView { screen: self.screen.update(row, line), ..self }
    }

    pub open spec fn with_cursor(self, row: int, col: int) -> GridView {
        GridView { cursor: Cursor { row: row as usize, col: col as usize }, ..self }
    }

    /// Any cursor movement or erase ends the open cluster.
    pub open spec fn closed(self) -> GridView {
        GridView { open: None, ..self }
    }

    // ---- cursor movement ---------------------------------------------------

    pub open spec fn carriage_return(self) -> GridView {
        self.closed().with_cursor(self.cursor.row as int, 0)
    }

    pub open spec fn backspace(self) -> GridView {
        self.closed().with_cursor(self.cursor.row as int, if self.cursor.col > 0 { self.cursor.col - 1 } else { 0 })
    }

    /// The next multiple of eight, held to the last column.
    pub open spec fn tab(self) -> GridView {
        self.closed().with_cursor(
            self.cursor.row as int,
            min((self.cursor.col / 8 + 1) * 8, self.cols - 1),
        )
    }

    /// Zero-indexed, clamped to the screen.
    pub open spec fn goto(self, row: int, col: int) -> GridView {
        self.closed().with_cursor(min(row, self.rows - 1), min(col, self.cols - 1))
    }

    pub open spec fn move_up(self, n: int) -> GridView {
        self.closed().with_cursor(if self.cursor.row >= n { self.cursor.row - n } else { 0 }, self.cursor.col as int)
    }

    pub open spec fn move_down(self, n: int) -> GridView {
        self.closed().with_cursor(min(self.cursor.row + n, self.rows - 1), self.cursor.col as int)
    }

    pub open spec fn move_left(self, n: int) -> GridView {
        self.closed().with_cursor(self.cursor.row as int, if self.cursor.col >= n { self.cursor.col - n } else { 0 })
    }

    pub open spec fn move_right(self, n: int) -> GridView {
        self.closed().with_cursor(self.cursor.row as int, min(self.cursor.col + n, self.cols - 1))
    }

    // ---- scrolling ---------------------------------------------------------

    /// Keep `line` as the newest line of history, dropping the oldest past the
    /// limit. A viewport scrolled back stays on the lines it shows.
    pub open spec fn push_history(self, line: Seq<CellView>) -> GridView {
        if self.limit == 0 {
            self
        } else {
            let h = self.history.push(line);
            let h2 = if h.len() > self.limit { h.subrange(1, h.len() as int) } else { h };
            GridView {
                history: h2,
                offset: if self.offset > 0 { nmin((self.offset + 1) as nat, h2.len()) as usize } else { 0 },
                ..self
            }
        }
    }

    /// The scroll region moves up one line: its top line leaves (into history when
    /// the region starts at the top of the screen) and an empty line enters at its
    /// bottom.
    pub open spec fn scroll_up_once(self) -> GridView {
        let line = self.screen[self.top as int];
        let moved = GridView {
            screen: self.screen.remove(self.top as int).insert(self.bottom as int, blank_line(self.cols as int)),
            ..self
        };
        if self.top == 0 { moved.push_history(line) } else { moved }
    }

    pub open spec fn scroll_up_by(self, k: nat) -> GridView
        decreases k,
    {
        if k == 0 { self } else { self.scroll_up_by((k - 1) as nat).scroll_up_once() }
    }

    /// The scroll region moves down one line: its bottom line is discarded and an
    /// empty line enters at its top.
    pub open spec fn scroll_down_once(self) -> GridView {
        GridView {
            screen: self.screen.remove(self.bottom as int).insert(self.top as int, blank_line(self.cols as int)),
            ..self
        }
    }

    pub open spec fn scroll_down_by(self, k: nat) -> GridView
        decreases k,
    {
        if k == 0 { self } else { self.scroll_down_by((k - 1) as nat).scroll_down_once() }
    }

    /// Everything but the lines and the viewport is the same in both.
    pub open spec fn same_frame(self, other: GridView) -> bool {
        &&& self.limit == other.limit
        &&& self.rows == other.rows
        &&& self.cols == other.cols
        &&& self.cursor == other.cursor
        &&& self.attrs == other.attrs
        &&& self.open == other.open
        &&& self.top == other.top
        &&& self.bottom == other.bottom
        &&& self.saved == other.saved
        &&& self.autowrap == other.autowrap
    }

    /// Scrolling moves lines, nothing else.
    pub proof fn lemma_scroll_up_by_frame(self, k: nat)
        ensures
            self.scroll_up_by(k).same_frame(self),
        decreases k,
    {
        if k > 0 {
            self.lemma_scroll_up_by_frame((k - 1) as nat);
        }
    }

    /// Scrolling moves lines, nothing else.
    pub proof fn lemma_scroll_down_by_frame(self, k: nat)
        ensures
            self.scroll_down_by(k).same_frame(self),
        decreases k,
    {
        if k > 0 {
            self.lemma_scroll_down_by_frame((k - 1) as nat);
        }
    }

    pub open spec fn region_height(self) -> nat {
        (self.bottom - self.top + 1) as nat
    }

    /// `SU`: scroll the region up `n` lines, at most its height.
    pub open spec fn scroll_up(self, n: nat) -> GridView {
        self.closed().scroll_up_by(nmin(n, self.region_height()))
    }

    /// `SD`: scroll the region down `n` lines, at most its height.
    pub open spec fn scroll_down(self, n: nat) -> GridView {
        self.closed().scroll_down_by(nmin(n, self.region_height()))
    }

    /// Down a line, scrolling the region when the cursor is on its bottom line.
    pub open spec fn linefeed(self) -> GridView {
        if self.cursor.row == self.bottom {
            self.closed().scroll_up_by(1)
        } else if self.cursor.row + 1 < self.rows {
            self.closed().with_cursor(self.cursor.row + 1, self.cursor.col as int)
        } else {
            self.closed()
        }
    }

    /// `RI`: up a line, scrolling the region down when the cursor is on its top line.
    pub open spec fn reverse_linefeed(self) -> GridView {
        if self.cursor.row == self.top {
            self.closed().scroll_down_by(1)
        } else if self.cursor.row > 0 {
            self.closed().with_cursor(self.cursor.row - 1, self.cursor.col as int)
        } else {
            self.closed()
        }
    }

    /// Whether the cursor row lies inside the scroll region.
    pub open spec fn in_region(self) -> bool {
        self.top <= self.cursor.row <= self.bottom
    }

    pub open spec fn insert_line_once(self) -> GridView {
        GridView {
            screen: self.screen.remove(self.bottom as int).insert(self.cursor.row as int, blank_line(self.cols as int)),
            ..self
        }
    }

    pub open spec fn insert_lines_by(self, k: nat) -> GridView
        decreases k,
    {
        if k == 0 { self } else { self.insert_lines_by((k - 1) as nat).insert_line_once() }
    }

    pub open spec fn delete_line_once(self) -> GridView {
        GridView {
            screen: self.screen.remove(self.cursor.row as int).insert(self.bottom as int, blank_line(self.cols as int)),
            ..self
        }
    }

    pub open spec fn delete_lines_by(self, k: nat) -> GridView
        decreases k,
    {
        if k == 0 { self } else { self.delete_lines_by((k - 1) as nat).delete_line_once() }
    }

    /// `IL`: inside the region, `n` empty lines enter at the cursor row and the lines
    /// pushed past the region's bottom are discarded; the cursor goes to column 0.
    pub open spec fn insert_lines(self, n: nat) -> GridView {
        if self.in_region() {
            self.closed().insert_lines_by(nmin(n, (self.bottom - self.cursor.row + 1) as nat)).with_cursor(
                self.cursor.row as int,
                0,
            )
        } else {
            self.closed()
        }
    }

    /// `DL`: inside the region, the `n` lines from the cursor row are removed and
    /// empty lines enter at the region's bottom; the cursor goes to column 0.
    pub open spec fn delete_lines(self, n: nat) -> GridView {
        if self.in_region() {
            self.closed().delete_lines_by(nmin(n, (self.bottom - self.cursor.row + 1) as nat)).with_cursor(
                self.cursor.row as int,
                0,
            )
        } else {
            self.closed()
        }
    }

    /// `DECSTBM`: a region of at least two lines, its bottom held to the screen,
    /// homes the cursor; anything else is ignored.
    pub open spec fn set_scroll_region(self, top: int, bottom: int) -> GridView {
        let b = min(bottom, self.rows - 1);
        if top < b {
            GridView { top: top as usize, bottom: b as usize, ..self.closed().with_cursor(0, 0) }
        } else {
            self.closed()
        }
    }


    // ---- printing ----------------------------------------------------------

    /// The grid after `c` joins the open cluster, or `None` where it cannot: no
    /// cluster is open, or the codepoints would no longer form one cluster.
    ///
    /// A cluster that keeps its width, or that grew past the line's edge, is
    /// replaced in its head cell alone (keeping its old span); one that grew and
    /// still fits is placed again, and the cursor follows it.
    pub open spec fn extended(self, c: char) -> Option<GridView> {
        match self.open {
            None => None,
            Some(p) => {
                let line = self.screen[p.row as int];
                let cell = line[p.col as int];
                match cell.content {
                    ContentView::Head { text, width } => {
                        let t = text.push(c);
                        if !spec_is_single_cluster(t) {
                            None
                        } else {
                            let w = clamped_width(spec_str_width(t));
                            if w == width || p.col + w > self.cols {
                                Some(self.with_line(
                                    p.row as int,
                                    line.update(p.col as int, CellView { content: ContentView::Head { text: t, width: w }, attrs: cell.attrs }),
                                ))
                            } else {
                                Some(self.with_line(p.row as int, place_cluster(line, p.col as int, t, w, self.attrs)).with_cursor(
                                    p.row as int,
                                    p.col + w,
                                ))
                            }
                        }
                    },
                    _ => None,
                }
            },
        }
    }

    /// The grid after `c` starts a new cluster at the cursor. A character with no
    /// width of its own is dropped. One that does not fit before the right edge
    /// wraps to the next line first, or with autowrap off is pinned to the last
    /// columns. The cursor moves past the cluster and the cluster stays open.
    pub open spec fn placed(self, c: char) -> GridView {
        match spec_char_width(c) {
            Some(w) => if 0 < w && w <= u16::MAX as usize {
                let g = if self.cursor.col + w > self.cols {
                    if self.autowrap {
                        self.carriage_return().linefeed()
                    } else {
                        self.with_cursor(self.cursor.row as int, if w <= self.cols { self.cols - w } else { 0 })
                    }
                } else {
                    self
                };
                let at = g.cursor;
                GridView {
                    open: Some(at),
                    ..g.with_line(at.row as int, place_cluster(g.screen[at.row as int], at.col as int, seq![c], w as u16, g.attrs))
                        .with_cursor(at.row as int, min(at.col + w, g.cols as int))
                }
            } else {
                self
            },
            None => self,
        }
    }

    /// Printing `c`: it joins the open cluster where it can, else starts a new one.
    pub open spec fn print(self, c: char) -> GridView {
        match self.extended(c) {
            Some(g) => g,
            None => self.placed(c),
        }
    }

    // ---- erasing -----------------------------------------------------------

    /// The screen with the rows in `[from, to)` emptied and given the current
    /// rendition.
    pub open spec fn clear_rows(self, from: int, to: int) -> GridView {
        GridView {
            screen: Seq::new(
                self.rows as nat,
                |r: int| if from <= r < to { clear_range(self.screen[r], 0, self.cols as int, self.attrs) } else { self.screen[r] },
            ),
            ..self
        }
    }

    /// `EL`: empty part of the cursor line, without widening over clusters.
    pub open spec fn erase_line(self, mode: LineErase) -> GridView {
        let row = self.cursor.row as int;
        let (s, e) = match mode {
            LineErase::ToEnd => (self.cursor.col as int, self.cols as int),
            LineErase::ToStart => (0int, min(self.cursor.col + 1, self.cols as int)),
            LineErase::All => (0int, self.cols as int),
        };
        self.closed().with_line(row, clear_range(self.screen[row], s, e, self.attrs))
    }

    /// `ED`: empty part of the screen.
    pub open spec fn erase_screen(self, mode: ScreenErase) -> GridView {
        match mode {
            ScreenErase::Below => self.erase_line(LineErase::ToEnd).clear_rows(self.cursor.row + 1, self.rows as int),
            ScreenErase::Above => self.erase_line(LineErase::ToStart).clear_rows(0, self.cursor.row as int),
            ScreenErase::All => self.closed().clear_rows(0, self.rows as int),
        }
    }

    /// The column that character editing acts on: the cursor's, or the last one
    /// while a wrap is pending.
    pub open spec fn edit_col(self) -> int {
        min(self.cursor.col as int, self.cols - 1)
    }

    /// How many cells an edit of `n` at the cursor reaches, held to the line.
    pub open spec fn edit_count(self, n: nat) -> int {
        nmin(n, (self.cols - self.edit_col()) as nat) as int
    }

    /// `ICH`: `n` empty cells enter at the cursor and the line's last cells fall off.
    /// A cluster split by the insertion or cut by the right edge is erased whole.
    pub open spec fn insert_chars(self, n: nat) -> GridView {
        let row = self.cursor.row as int;
        let col = self.edit_col();
        let k = self.edit_count(n);
        if k == 0 {
            self.closed()
        } else {
            let l1 = clear_span(self.screen[row], col, 0, self.attrs);
            let l2 = clear_span(l1, self.cols - k, 0, self.attrs);
            self.closed().with_line(row, insert_blanks(l2, col, k, self.attrs))
        }
    }

    /// `DCH`: the `n` cells at the cursor are removed and empty cells enter at the
    /// line's end. A cluster the deletion only partly covers is erased whole.
    pub open spec fn delete_chars(self, n: nat) -> GridView {
        let row = self.cursor.row as int;
        let col = self.edit_col();
        let k = self.edit_count(n);
        if k == 0 {
            self.closed()
        } else {
            let l1 = clear_span(self.screen[row], col, k, self.attrs);
            self.closed().with_line(row, delete_cells(l1, col, k, self.attrs))
        }
    }

    /// `ECH`: the `n` cells at the cursor are emptied in place, widened over any
    /// cluster they partly cover.
    pub open spec fn erase_chars(self, n: nat) -> GridView {
        let row = self.cursor.row as int;
        let k = self.edit_count(n);
        if k == 0 {
            self.closed()
        } else {
            self.closed().with_line(row, clear_span(self.screen[row], self.edit_col(), k, self.attrs))
        }
    }

    // ---- the viewport ------------------------------------------------------

    /// Line `r` of the viewport: history while scrolled back, then the screen.
    pub open spec fn display_line(self, r: int) -> Seq<CellView> {
        let idx = self.history.len() - self.offset + r;
        if idx < self.history.len() {
            self.history[idx]
        } else {
            self.screen[idx - self.history.len()]
        }
    }

    /// Back `n` lines into history, stopping at its oldest line.
    pub open spec fn scroll_back(self, n: nat) -> GridView {
        GridView { offset: nmin((self.offset + n) as nat, self.history.len()) as usize, ..self }
    }

    /// Forward `n` lines, stopping at the live screen.
    pub open spec fn scroll_forward(self, n: nat) -> GridView {
        GridView { offset: if self.offset >= n { (self.offset - n) as usize } else { 0 }, ..self }
    }

    pub open spec fn scroll_to_bottom(self) -> GridView {
        GridView { offset: 0, ..self }
    }

    // ---- resizing ----------------------------------------------------------

    /// At least one row and column; every line cut or padded to the new width,
    /// rows cut from or added at the bottom; the cursor held to the screen; the
    /// scroll region reset to the whole screen. History is kept as it is.
    pub open spec fn resized(self, rows: usize, cols: usize) -> GridView {
        let r: usize = if rows == 0 { 1 } else { rows };
        let c: usize = if cols == 0 { 1 } else { cols };
        GridView {
            screen: Seq::new(
                r as nat,
                |i: int| if i < self.rows { fit_line(self.screen[i], c as int) } else { blank_line(c as int) },
            ),
            rows: r,
            cols: c,
            cursor: Cursor { row: min(self.cursor.row as int, r - 1) as usize, col: min(self.cursor.col as int, c as int) as usize },
            open: None,
            top: 0,
            bottom: (r - 1) as usize,
            ..self
        }
    }

    // ---- saving the cursor -------------------------------------------------

    pub open spec fn save_cursor(self) -> GridView {
        GridView { saved: Some(SavedCursor { cursor: self.cursor, attrs: self.attrs }), ..self }
    }

    /// Back to the saved position, held to the screen, and the saved rendition; with
    /// nothing saved, home with default rendition.
    pub open spec fn restore_cursor(self) -> GridView {
        match self.saved {
            Some(s) => GridView {
                attrs: s.attrs,
                ..self.closed().with_cursor(min(s.cursor.row as int, self.rows - 1), min(s.cursor.col as int, self.cols as int))
            },
            None => GridView { attrs: default_attrs(), ..self.closed().with_cursor(0, 0) },
        }
    }
}

/// A fixed-size grid of cells with a cursor and a scrollback history.
#[derive(Clone, PartialEq, Eq, Debug)]
pub struct Grid {
    lines: Vec<Vec<Cell>>,
    scrollback: Vec<Vec<Cell>>,
    scrollback_limit: usize,
    viewport_offset: usize,
    cols: usize,
    rows: usize,
    cursor: Cursor,
    attrs: Attrs,
    /// Head of the cluster most recently printed, if the next character could still
    /// extend it. Any cursor movement or erase invalidates this.
    open_cluster: Option<Cursor>,
    scroll_top: usize,
    scroll_bottom: usize,
    saved: Option<SavedCursor>,
    autowrap: bool,
}

impl View for Grid {
    type V = GridView;

    closed spec fn view(&self) -> GridView {
        GridView {
            screen: lines_view(self.lines@),
            history: lines_view(self.scrollback@),
            limit: self.scrollback_limit,
            offset: self.viewport_offset,
            rows: self.rows,
            cols: self.cols,
            cursor: self.cursor,
            attrs: self.attrs,
            open: self.open_cluster,
            top: self.scroll_top,
            bottom: self.scroll_bottom,
            saved: self.saved,
            autowrap: self.autowrap,
        }
    }
}

impl Grid {
    /// Well formed: see [`GridView::wf`].
    pub open spec fn wf(&self) -> bool {
        self@.wf()
    }

    /// An empty grid of at least one row and column, keeping up to
    /// `scrollback_limit` lines of history.
    #[must_use]
    pub fn new(rows: usize, cols: usize, scrollback_limit: usize) -> (g: Self)
        ensures
            g.wf(),
            g@ == GridView::fresh(rows, cols, scrollback_limit),
    {
        let rows = if rows == 0 { 1 } else { rows };
        let cols = if cols == 0 { 1 } else { cols };
        let mut lines: Vec<Vec<Cell>> = Vec::new();
        let mut r: usize = 0;
        while r < rows
            invariant
                r <= rows,
                lines@.len() == r,
                lines_view(lines@) == Seq::new(r as nat, |i: int| blank_line(cols as int)),
            decreases rows - r,
        {
            lines.push(crate::vt::line::new_line(cols));
            r = r + 1;
            assert(lines_view(lines@) =~= Seq::new(r as nat, |i: int| blank_line(cols as int)));
        }
        let g = Grid {
            lines,
            scrollback: Vec::new(),
            scrollback_limit,
            viewport_offset: 0,
            cols,
            rows,
            cursor: Cursor { row: 0, col: 0 },
            attrs: Attrs::default(),
            open_cluster: None,
            scroll_top: 0,
            scroll_bottom: rows - 1,
            saved: None,
            autowrap: true,
        };
        assert(lines_view(g.scrollback@) =~= Seq::<Seq<CellView>>::empty());
        g
    }

    #[must_use]
    pub fn rows(&self) -> (r: usize)
        ensures
            r == self@.rows,
    {
        self.rows
    }

    #[must_use]
    pub fn cols(&self) -> (c: usize)
        ensures
            c == self@.cols,
    {
        self.cols
    }

    #[must_use]
    pub fn cursor(&self) -> (c: Cursor)
        ensures
            c == self@.cursor,
    {
        self.cursor
    }

    /// The rendition printed and erased cells receive, for `SGR` to change.
    pub fn attrs_mut(&mut self) -> (a: &mut Attrs)
        ensures
            *a == old(self)@.attrs,
            final(self)@ == (GridView { attrs: *final(a), ..old(self)@ }),
    {
        &mut self.attrs
    }

    /// The rendition printed and erased cells receive.
    pub fn attrs(&self) -> (a: Attrs)
        ensures
            a == self@.attrs,
    {
        self.attrs
    }

    /// Whether printing past the last column wraps to the next line.
    pub fn autowrap(&self) -> (b: bool)
        ensures
            b == self@.autowrap,
    {
        self.autowrap
    }

    /// `DECAWM`.
    pub fn set_autowrap(&mut self, enabled: bool)
        ensures
            final(self)@ == (GridView { autowrap: enabled, ..old(self)@ }),
    {
        self.autowrap = enabled;
    }

    /// The cell at `row`, `col` of the screen, if both are in range.
    #[must_use]
    pub fn cell(&self, row: usize, col: usize) -> (c: Option<&Cell>)
        requires
            self.wf(),
        ensures
            row < self@.rows && col < self@.cols ==> (c matches Some(cell) && cell@ == self@.screen[row as int][col as int]),
            !(row < self@.rows && col < self@.cols) ==> c is None,
    {
        proof {
            if row < self.rows {
                assert(self@.screen[row as int].len() == self@.cols);
            }
        }
        if row < self.lines.len() && col < self.lines[row].len() {
            Some(&self.lines[row][col])
        } else {
            None
        }
    }

    /// The clusters on `row`, left to right.
    pub fn clusters(&self, row: usize) -> (r: Vec<&Cluster>)
        requires
            self.wf(),
        ensures
            row < self@.rows ==> r@.map_values(|c: &Cluster| (c.spec_text(), c.spec_width()))
                == line_clusters(self@.screen[row as int]),
            row >= self@.rows ==> r@.len() == 0,
    {
        if row < self.lines.len() {
            crate::vt::line::line_clusters_exec(&self.lines[row])
        } else {
            Vec::new()
        }
    }

    /// The text of `row` in logical order, with trailing blanks trimmed: the
    /// clusters' codepoints, left to right, without the whitespace at the end.
    /// Empty cells contribute nothing.
    #[must_use]
    pub fn row_text(&self, row: usize) -> (s: String)
        requires
            self.wf(),
        ensures
            row < self@.rows ==> s@ == trim_end(line_text(self@.screen[row as int])),
            row >= self@.rows ==> s@.len() == 0,
    {
        if row < self.lines.len() {
            let text = crate::vt::line::line_text_exec(&self.lines[row]);
            crate::strs::trim_end_string(&text)
        } else {
            String::new()
        }
    }

    // ---- cursor and control functions --------------------------------------

    pub fn carriage_return(&mut self)
        requires
            old(self).wf(),
        ensures
            final(self).wf(),
            final(self)@ == old(self)@.carriage_return(),
    {
        self.open_cluster = None;
        self.cursor.col = 0;
    }

    pub fn backspace(&mut self)
        requires
            old(self).wf(),
        ensures
            final(self).wf(),
            final(self)@ == old(self)@.backspace(),
    {
        self.open_cluster = None;
        self.cursor.col = if self.cursor.col > 0 { self.cursor.col - 1 } else { 0 };
    }

    /// Advance to the next 8-column tab stop.
    pub fn tab(&mut self)
        requires
            old(self).wf(),
        ensures
            final(self).wf(),
            final(self)@ == old(self)@.tab(),
    {
        self.open_cluster = None;
        let stop = self.cursor.col / 8 + 1;
        let last = self.cols - 1;
        self.cursor.col = if stop > last / 8 { last } else {
            let next = stop * 8;
            if next > last { last } else { next }
        };
    }

    /// Move the cursor to a zero-indexed position, clamped to the grid.
    pub fn goto(&mut self, row: usize, col: usize)
        requires
            old(self).wf(),
        ensures
            final(self).wf(),
            final(self)@ == old(self)@.goto(row as int, col as int),
    {
        self.open_cluster = None;
        self.cursor = Cursor {
            row: if row < self.rows - 1 { row } else { self.rows - 1 },
            col: if col < self.cols - 1 { col } else { self.cols - 1 },
        };
    }

    pub fn move_up(&mut self, n: usize)
        requires
            old(self).wf(),
        ensures
            final(self).wf(),
            final(self)@ == old(self)@.move_up(n as int),
    {
        self.open_cluster = None;
        self.cursor.row = if self.cursor.row >= n { self.cursor.row - n } else { 0 };
    }

    pub fn move_down(&mut self, n: usize)
        requires
            old(self).wf(),
        ensures
            final(self).wf(),
            final(self)@ == old(self)@.move_down(n as int),
    {
        self.open_cluster = None;
        let last = self.rows - 1;
        self.cursor.row = if n >= last - self.cursor.row { last } else { self.cursor.row + n };
    }

    pub fn move_left(&mut self, n: usize)
        requires
            old(self).wf(),
        ensures
            final(self).wf(),
            final(self)@ == old(self)@.move_left(n as int),
    {
        self.open_cluster = None;
        self.cursor.col = if self.cursor.col >= n { self.cursor.col - n } else { 0 };
    }

    pub fn move_right(&mut self, n: usize)
        requires
            old(self).wf(),
        ensures
            final(self).wf(),
            final(self)@ == old(self)@.move_right(n as int),
    {
        self.open_cluster = None;
        let last = self.cols - 1;
        self.cursor.col = if self.cursor.col >= last || n >= last - self.cursor.col { last } else { self.cursor.col + n };
    }

    // ---- scrolling ----------------------------------------------------------

    /// Keep `line` as the newest line of history.
    fn push_history(&mut self, line: Vec<Cell>)
        requires
            old(self)@.history.len() <= old(self)@.limit,
            old(self)@.offset <= old(self)@.history.len(),
        ensures
            final(self)@ == old(self)@.push_history(line_view(line@)),
            final(self)@.history.len() <= final(self)@.limit,
            final(self)@.offset <= final(self)@.history.len(),
    {
        if self.scrollback_limit == 0 {
            return;
        }
        let ghost h = self.scrollback@.push(line);
        self.scrollback.push(line);
        if self.scrollback.len() > self.scrollback_limit {
            self.scrollback.remove(0);
            assert(h.remove(0) =~= h.subrange(1, h.len() as int));
            assert(lines_view(h).subrange(1, h.len() as int) =~= lines_view(h.subrange(1, h.len() as int)));
        }
        if self.viewport_offset > 0 {
            let len = self.scrollback.len();
            self.viewport_offset = if self.viewport_offset >= len { len } else { self.viewport_offset + 1 };
        }
    }

    /// Move the scroll region up one line.
    fn scroll_up_once(&mut self)
        requires
            old(self).wf(),
        ensures
            final(self).wf(),
            final(self)@ == old(self)@.scroll_up_once(),
    {
        let ghost v = self@;
        let top = self.scroll_top;
        let bottom = self.scroll_bottom;
        let line = self.lines.remove(top);
        self.lines.insert(bottom, crate::vt::line::new_line(self.cols));
        assert(self@.screen == v.screen.remove(top as int).insert(bottom as int, blank_line(self.cols as int)));
        assert forall|r: int| 0 <= r < self.rows implies #[trigger] self@.screen[r].len() == self.cols by {
            if r < bottom {
                if r < top {
                    assert(self@.screen[r] == v.screen[r]);
                } else {
                    assert(self@.screen[r] == v.screen[r + 1]);
                }
            } else if r > bottom {
                assert(self@.screen[r] == v.screen[r]);
            }
        }
        if top == 0 {
            self.push_history(line);
        }
    }

    /// Move the scroll region down one line.
    fn scroll_down_once(&mut self)
        requires
            old(self).wf(),
        ensures
            final(self).wf(),
            final(self)@ == old(self)@.scroll_down_once(),
    {
        let ghost v = self@;
        let top = self.scroll_top;
        let bottom = self.scroll_bottom;
        self.lines.remove(bottom);
        self.lines.insert(top, crate::vt::line::new_line(self.cols));
        assert(self@.screen == v.screen.remove(bottom as int).insert(top as int, blank_line(self.cols as int)));
        assert forall|r: int| 0 <= r < self.rows implies #[trigger] self@.screen[r].len() == self.cols by {
            if r > top {
                if r > bottom {
                    assert(self@.screen[r] == v.screen[r]);
                } else {
                    assert(self@.screen[r] == v.screen[r - 1]);
                }
            } else if r < top {
                assert(self@.screen[r] == v.screen[r]);
            }
        }
    }

    fn scroll_up_by(&mut self, k: usize)
        requires
            old(self).wf(),
        ensures
            final(self).wf(),
            final(self)@ == old(self)@.scroll_up_by(k as nat),
    {
        let ghost v = self@;
        let mut i: usize = 0;
        while i < k
            invariant
                i <= k,
                self.wf(),
                self@ == v.scroll_up_by(i as nat),
            decreases k - i,
        {
            self.scroll_up_once();
            i = i + 1;
        }
    }

    fn scroll_down_by(&mut self, k: usize)
        requires
            old(self).wf(),
        ensures
            final(self).wf(),
            final(self)@ == old(self)@.scroll_down_by(k as nat),
    {
        let ghost v = self@;
        let mut i: usize = 0;
        while i < k
            invariant
                i <= k,
                self.wf(),
                self@ == v.scroll_down_by(i as nat),
            decreases k - i,
        {
            self.scroll_down_once();
            i = i + 1;
        }
    }

    /// `SU`: scroll the region up `n` lines.
    pub fn scroll_up(&mut self, n: usize)
        requires
            old(self).wf(),
        ensures
            final(self).wf(),
            final(self)@ == old(self)@.scroll_up(n as nat),
    {
        self.open_cluster = None;
        let height = self.scroll_bottom - self.scroll_top + 1;
        self.scroll_up_by(if n < height { n } else { height });
    }

    /// `SD`: scroll the region down `n` lines.
    pub fn scroll_down(&mut self, n: usize)
        requires
            old(self).wf(),
        ensures
            final(self).wf(),
            final(self)@ == old(self)@.scroll_down(n as nat),
    {
        self.open_cluster = None;
        let height = self.scroll_bottom - self.scroll_top + 1;
        self.scroll_down_by(if n < height { n } else { height });
    }

    pub fn linefeed(&mut self)
        requires
            old(self).wf(),
        ensures
            final(self).wf(),
            final(self)@ == old(self)@.linefeed(),
    {
        self.open_cluster = None;
        if self.cursor.row == self.scroll_bottom {
            self.scroll_up_by(1);
        } else if self.cursor.row + 1 < self.rows {
            self.cursor.row = self.cursor.row + 1;
        }
    }

    /// `RI`: up a line, scrolling the region down at its top.
    pub fn reverse_linefeed(&mut self)
        requires
            old(self).wf(),
        ensures
            final(self).wf(),
            final(self)@ == old(self)@.reverse_linefeed(),
    {
        self.open_cluster = None;
        if self.cursor.row == self.scroll_top {
            self.scroll_down_by(1);
        } else if self.cursor.row > 0 {
            self.cursor.row = self.cursor.row - 1;
        }
    }

    fn insert_line_once(&mut self)
        requires
            old(self).wf(),
            old(self)@.in_region(),
        ensures
            final(self).wf(),
            final(self)@ == old(self)@.insert_line_once(),
    {
        let ghost v = self@;
        let row = self.cursor.row;
        let bottom = self.scroll_bottom;
        self.lines.remove(bottom);
        self.lines.insert(row, crate::vt::line::new_line(self.cols));
        assert(self@.screen == v.screen.remove(bottom as int).insert(row as int, blank_line(self.cols as int)));
        assert forall|r: int| 0 <= r < self.rows implies #[trigger] self@.screen[r].len() == self.cols by {
            if r > row {
                if r > bottom {
                    assert(self@.screen[r] == v.screen[r]);
                } else {
                    assert(self@.screen[r] == v.screen[r - 1]);
                }
            } else if r < row {
                assert(self@.screen[r] == v.screen[r]);
            }
        }
    }

    fn delete_line_once(&mut self)
        requires
            old(self).wf(),
            old(self)@.in_region(),
        ensures
            final(self).wf(),
            final(self)@ == old(self)@.delete_line_once(),
    {
        let ghost v = self@;
        let row = self.cursor.row;
        let bottom = self.scroll_bottom;
        self.lines.remove(row);
        self.lines.insert(bottom, crate::vt::line::new_line(self.cols));
        assert(self@.screen == v.screen.remove(row as int).insert(bottom as int, blank_line(self.cols as int)));
        assert forall|r: int| 0 <= r < self.rows implies #[trigger] self@.screen[r].len() == self.cols by {
            if r < bottom {
                if r < row {
                    assert(self@.screen[r] == v.screen[r]);
                } else {
                    assert(self@.screen[r] == v.screen[r + 1]);
                }
            } else if r > bottom {
                assert(self@.screen[r] == v.screen[r]);
            }
        }
    }

    /// `IL`: insert `n` empty lines at the cursor row, inside the scroll region.
    pub fn insert_lines(&mut self, n: usize)
        requires
            old(self).wf(),
        ensures
            final(self).wf(),
            final(self)@ == old(self)@.insert_lines(n as nat),
    {
        self.open_cluster = None;
        if self.scroll_top <= self.cursor.row && self.cursor.row <= self.scroll_bottom {
            let ghost v = self@;
            let room = self.scroll_bottom - self.cursor.row + 1;
            let k = if n < room { n } else { room };
            let mut i: usize = 0;
            while i < k
                invariant
                    i <= k,
                    self.wf(),
                    self@.in_region(),
                    self@.cursor == v.cursor,
                    self@ == v.insert_lines_by(i as nat),
                decreases k - i,
            {
                self.insert_line_once();
                i = i + 1;
            }
            self.cursor.col = 0;
        }
    }

    /// `DL`: delete `n` lines at the cursor row, inside the scroll region.
    pub fn delete_lines(&mut self, n: usize)
        requires
            old(self).wf(),
        ensures
            final(self).wf(),
            final(self)@ == old(self)@.delete_lines(n as nat),
    {
        self.open_cluster = None;
        if self.scroll_top <= self.cursor.row && self.cursor.row <= self.scroll_bottom {
            let ghost v = self@;
            let room = self.scroll_bottom - self.cursor.row + 1;
            let k = if n < room { n } else { room };
            let mut i: usize = 0;
            while i < k
                invariant
                    i <= k,
                    self.wf(),
                    self@.in_region(),
                    self@.cursor == v.cursor,
                    self@ == v.delete_lines_by(i as nat),
                decreases k - i,
            {
                self.delete_line_once();
                i = i + 1;
            }
            self.cursor.col = 0;
        }
    }

    /// `DECSTBM`: confine scrolling to the lines `top` to `bottom`, zero-indexed and
    /// inclusive.
    pub fn set_scroll_region(&mut self, top: usize, bottom: usize)
        requires
            old(self).wf(),
        ensures
            final(self).wf(),
            final(self)@ == old(self)@.set_scroll_region(top as int, bottom as int),
    {
        self.open_cluster = None;
        let b = if bottom < self.rows - 1 { bottom } else { self.rows - 1 };
        if top < b {
            self.scroll_top = top;
            self.scroll_bottom = b;
            self.cursor = Cursor { row: 0, col: 0 };
        }
    }

    // ---- printing -------------------------------------------------------------

    /// Print `c`, either extending the open cluster or starting a new one.
    pub fn print(&mut self, c: char)
        requires
            old(self).wf(),
        ensures
            final(self).wf(),
            final(self)@ == old(self)@.print(c),
    {
        match self.open_cluster {
            Some(open) => {
                if self.extend_open_cluster(open, c) {
                    return;
                }
            },
            None => {},
        }
        self.place_new_cluster(c);
    }

    /// Try to absorb `c` into the cluster at `open`. Returns whether it was absorbed.
    fn extend_open_cluster(&mut self, open: Cursor, c: char) -> (r: bool)
        requires
            old(self).wf(),
            old(self)@.open == Some(open),
        ensures
            final(self).wf(),
            r == old(self)@.extended(c) is Some,
            r ==> final(self)@ == old(self)@.extended(c)->0,
            !r ==> final(self)@ == old(self)@,
    {
        proof {
            assert(self@.screen[open.row as int].len() == self.cols);
        }
        let mut candidate = match self.lines[open.row][open.col].cluster() {
            Some(cl) => cl.clone(),
            None => return false,
        };
        let old_width = candidate.width();
        let new_width = match candidate.try_extend(c) {
            Some(w) => w,
            None => return false,
        };
        let ghost v = self@;
        let fits = new_width as usize <= self.cols - open.col;
        if new_width == old_width || !fits {
            let attrs = self.lines[open.row][open.col].attrs;
            self.lines[open.row].set(open.col, Cell { content: CellContent::Head(candidate), attrs });
            assert(self@.screen =~= v.extended(c)->0.screen);
            return true;
        }
        let attrs = self.attrs;
        crate::vt::line::place_cluster_line(&mut self.lines[open.row], open.col, candidate, attrs);
        self.cursor = Cursor { row: open.row, col: open.col + new_width as usize };
        true
    }

    /// Start a new cluster at the cursor, wrapping first if it will not fit.
    fn place_new_cluster(&mut self, c: char)
        requires
            old(self).wf(),
        ensures
            final(self).wf(),
            final(self)@ == old(self)@.placed(c),
    {
        // A combining mark with no base to attach to carries no width. xterm discards it.
        let cluster = match Cluster::from_char(c) {
            Some(cl) => cl,
            None => return,
        };
        let width = cluster.width() as usize;
        if width > self.cols - self.cursor.col {
            if self.autowrap {
                self.carriage_return();
                proof {
                    old(self)@.carriage_return().closed().lemma_scroll_up_by_frame(1);
                }
                self.linefeed();
            } else {
                self.cursor.col = if width <= self.cols { self.cols - width } else { 0 };
            }
        }
        let at = self.cursor;
        let attrs = self.attrs;
        proof {
            assert(self@.screen[at.row as int].len() == self.cols);
        }
        crate::vt::line::place_cluster_line(&mut self.lines[at.row], at.col, cluster, attrs);
        self.cursor.col = if width >= self.cols - at.col { self.cols } else { at.col + width };
        self.open_cluster = Some(at);
    }

    // ---- erasing -------------------------------------------------------------

    /// Empty the rows in `[from, to)`, giving them the current rendition.
    fn clear_rows(&mut self, from: usize, to: usize)
        requires
            old(self).wf(),
            from <= to <= old(self)@.rows,
        ensures
            final(self).wf(),
            final(self)@ == old(self)@.clear_rows(from as int, to as int),
    {
        let ghost v = self@;
        let attrs = self.attrs;
        let cols = self.cols;
        let mut r = from;
        assert(self@.screen =~= Seq::new(
            v.rows as nat,
            |i: int| if from <= i < r { clear_range(v.screen[i], 0, v.cols as int, v.attrs) } else { v.screen[i] },
        ));
        while r < to
            invariant
                from <= r <= to <= v.rows,
                self.wf(),
                v.wf(),
                attrs == v.attrs,
                cols == v.cols,
                self@ == (GridView {
                    screen: Seq::new(
                        v.rows as nat,
                        |i: int| if from <= i < r { clear_range(v.screen[i], 0, v.cols as int, v.attrs) } else { v.screen[i] },
                    ),
                    ..v
                }),
            decreases to - r,
        {
            proof {
                assert(self@.screen[r as int].len() == cols);
            }
            crate::vt::line::clear_range_line(&mut self.lines[r], 0, cols, attrs);
            r = r + 1;
            assert(self@.screen =~= Seq::new(
                v.rows as nat,
                |i: int| if from <= i < r { clear_range(v.screen[i], 0, v.cols as int, v.attrs) } else { v.screen[i] },
            ));
        }
    }

    /// `EL`: empty part of the cursor line.
    pub fn erase_line(&mut self, mode: LineErase)
        requires
            old(self).wf(),
        ensures
            final(self).wf(),
            final(self)@ == old(self)@.erase_line(mode),
    {
        self.open_cluster = None;
        let attrs = self.attrs;
        let row = self.cursor.row;
        let (start, end) = match mode {
            LineErase::ToEnd => (self.cursor.col, self.cols),
            LineErase::ToStart => (0, if self.cursor.col < self.cols { self.cursor.col + 1 } else { self.cols }),
            LineErase::All => (0, self.cols),
        };
        proof {
            assert(self@.screen[row as int].len() == self.cols);
        }
        crate::vt::line::clear_range_line(&mut self.lines[row], start, end, attrs);
    }

    /// `ED`: empty part of the screen.
    pub fn erase_screen(&mut self, mode: ScreenErase)
        requires
            old(self).wf(),
        ensures
            final(self).wf(),
            final(self)@ == old(self)@.erase_screen(mode),
    {
        self.open_cluster = None;
        match mode {
            ScreenErase::Below => {
                self.erase_line(LineErase::ToEnd);
                let from = self.cursor.row + 1;
                let rows = self.rows;
                self.clear_rows(from, rows);
            },
            ScreenErase::Above => {
                self.erase_line(LineErase::ToStart);
                let to = self.cursor.row;
                self.clear_rows(0, to);
            },
            ScreenErase::All => {
                let rows = self.rows;
                self.clear_rows(0, rows);
            },
        }
    }

    /// The column and count of a character edit of `n` at the cursor.
    fn edit_span(&self, n: usize) -> (r: (usize, usize))
        requires
            self.wf(),
        ensures
            r.0 == self@.edit_col(),
            r.1 == self@.edit_count(n as nat),
            r.0 < self@.cols,
            r.1 <= self@.cols - r.0,
    {
        let col = if self.cursor.col < self.cols - 1 { self.cursor.col } else { self.cols - 1 };
        let room = self.cols - col;
        (col, if n < room { n } else { room })
    }

    /// `ICH`: insert `n` empty cells at the cursor.
    pub fn insert_chars(&mut self, n: usize)
        requires
            old(self).wf(),
        ensures
            final(self).wf(),
            final(self)@ == old(self)@.insert_chars(n as nat),
    {
        self.open_cluster = None;
        let (col, k) = self.edit_span(n);
        if k == 0 {
            return;
        }
        let row = self.cursor.row;
        let attrs = self.attrs;
        let cols = self.cols;
        proof {
            assert(self@.screen[row as int].len() == cols);
        }
        let ghost v = self@;
        let ghost l1 = clear_span(v.screen[row as int], col as int, 0, attrs);
        let ghost l2 = clear_span(l1, cols - k, 0, attrs);
        crate::vt::line::clear_span_line(&mut self.lines[row], col, 0, attrs);
        assert(self@.screen == v.screen.update(row as int, l1));
        crate::vt::line::clear_span_line(&mut self.lines[row], cols - k, 0, attrs);
        assert(self@.screen == v.screen.update(row as int, l2));
        crate::vt::line::insert_blanks_line(&mut self.lines[row], col, k, attrs);
        assert(self@.screen == v.screen.update(row as int, insert_blanks(l2, col as int, k as int, attrs)));
    }

    /// `DCH`: delete the `n` cells at the cursor.
    pub fn delete_chars(&mut self, n: usize)
        requires
            old(self).wf(),
        ensures
            final(self).wf(),
            final(self)@ == old(self)@.delete_chars(n as nat),
    {
        self.open_cluster = None;
        let (col, k) = self.edit_span(n);
        if k == 0 {
            return;
        }
        let row = self.cursor.row;
        let attrs = self.attrs;
        proof {
            assert(self@.screen[row as int].len() == self.cols);
        }
        let ghost v = self@;
        let ghost l1 = clear_span(v.screen[row as int], col as int, k as int, attrs);
        crate::vt::line::clear_span_line(&mut self.lines[row], col, k, attrs);
        assert(self@.screen == v.screen.update(row as int, l1));
        crate::vt::line::delete_cells_line(&mut self.lines[row], col, k, attrs);
        assert(self@.screen == v.screen.update(row as int, delete_cells(l1, col as int, k as int, attrs)));
    }

    /// `ECH`: empty the `n` cells at the cursor without shifting.
    pub fn erase_chars(&mut self, n: usize)
        requires
            old(self).wf(),
        ensures
            final(self).wf(),
            final(self)@ == old(self)@.erase_chars(n as nat),
    {
        self.open_cluster = None;
        let (col, k) = self.edit_span(n);
        if k == 0 {
            return;
        }
        let row = self.cursor.row;
        let attrs = self.attrs;
        proof {
            assert(self@.screen[row as int].len() == self.cols);
        }
        crate::vt::line::clear_span_line(&mut self.lines[row], col, k, attrs);
    }

    // ---- the viewport -----------------------------------------------------------

    /// The lines scrolled off the top, oldest first.
    #[must_use]
    pub fn scrollback(&self) -> (r: &[Vec<Cell>])
        ensures
            lines_view(r@) == self@.history,
    {
        self.scrollback.as_slice()
    }

    /// The text of history line `index`, oldest first.
    #[must_use]
    pub fn scrollback_text(&self, index: usize) -> (s: Option<String>)
        ensures
            index < self@.history.len() ==> (s matches Some(t) && t@ == line_text(self@.history[index as int])),
            index >= self@.history.len() ==> s is None,
    {
        if index < self.scrollback.len() {
            Some(crate::vt::line::line_text_exec(&self.scrollback[index]))
        } else {
            None
        }
    }

    /// How many lines the viewport is scrolled back.
    #[must_use]
    pub fn viewport_offset(&self) -> (n: usize)
        ensures
            n == self@.offset,
    {
        self.viewport_offset
    }

    /// The furthest the viewport can scroll back: the number of history lines.
    #[must_use]
    pub fn max_scroll(&self) -> (n: usize)
        ensures
            n == self@.history.len(),
    {
        self.scrollback.len()
    }

    /// Whether the viewport shows the live screen.
    #[must_use]
    pub fn is_at_bottom(&self) -> (b: bool)
        ensures
            b == (self@.offset == 0),
    {
        self.viewport_offset == 0
    }

    /// Scroll the viewport back `n` lines, stopping at the oldest.
    pub fn scroll_back(&mut self, n: usize)
        requires
            old(self).wf(),
        ensures
            final(self).wf(),
            final(self)@ == old(self)@.scroll_back(n as nat),
    {
        let max = self.scrollback.len();
        self.viewport_offset = if n >= max - self.viewport_offset { max } else { self.viewport_offset + n };
    }

    /// Scroll the viewport forward `n` lines, stopping at the live screen.
    pub fn scroll_forward(&mut self, n: usize)
        requires
            old(self).wf(),
        ensures
            final(self).wf(),
            final(self)@ == old(self)@.scroll_forward(n as nat),
    {
        self.viewport_offset = if self.viewport_offset >= n { self.viewport_offset - n } else { 0 };
    }

    /// Return the viewport to the live screen.
    pub fn scroll_to_bottom(&mut self)
        requires
            old(self).wf(),
        ensures
            final(self).wf(),
            final(self)@ == old(self)@.scroll_to_bottom(),
    {
        self.viewport_offset = 0;
    }

    /// The line shown at viewport row `row`, which must be on the screen.
    fn display_line_ref(&self, row: usize) -> (l: &Vec<Cell>)
        requires
            self.wf(),
            row < self@.rows,
        ensures
            line_view(l@) == self@.display_line(row as int),
    {
        let h = self.scrollback.len();
        if row < self.viewport_offset {
            &self.scrollback[h - self.viewport_offset + row]
        } else {
            &self.lines[row - self.viewport_offset]
        }
    }

    /// The cell shown at viewport row `row`, column `col`.
    #[must_use]
    pub fn display_cell(&self, row: usize, col: usize) -> (c: Option<&Cell>)
        requires
            self.wf(),
        ensures
            row < self@.rows && col < self@.display_line(row as int).len() ==> (c matches Some(cell)
                && cell@ == self@.display_line(row as int)[col as int]),
            !(row < self@.rows && col < self@.display_line(row as int).len()) ==> c is None,
    {
        if row >= self.rows {
            return None;
        }
        let line = self.display_line_ref(row);
        if col < line.len() {
            Some(&line[col])
        } else {
            None
        }
    }

    /// The text shown at viewport row `row`.
    #[must_use]
    pub fn display_row_text(&self, row: usize) -> (s: String)
        requires
            self.wf(),
        ensures
            row < self@.rows ==> s@ == line_text(self@.display_line(row as int)),
            row >= self@.rows ==> s@.len() == 0,
    {
        if row >= self.rows {
            return String::new();
        }
        crate::vt::line::line_text_exec(self.display_line_ref(row))
    }

    // ---- resizing ---------------------------------------------------------------

    /// Resize to `rows` by `cols`, at least one of each, keeping what fits.
    pub fn resize(&mut self, rows: usize, cols: usize)
        requires
            old(self).wf(),
        ensures
            final(self).wf(),
            final(self)@ == old(self)@.resized(rows, cols),
    {
        let ghost v = self@;
        let rows = if rows == 0 { 1 } else { rows };
        let cols = if cols == 0 { 1 } else { cols };
        let old_rows = self.rows;
        let mut lines: Vec<Vec<Cell>> = Vec::new();
        std::mem::swap(&mut lines, &mut self.lines);
        let mut i: usize = 0;
        while i < old_rows
            invariant
                i <= old_rows == v.rows,
                v.wf(),
                lines@.len() == old_rows,
                lines_view(lines@) == Seq::new(
                    old_rows as nat,
                    |x: int| if x < i { fit_line(v.screen[x], cols as int) } else { v.screen[x] },
                ),
            decreases old_rows - i,
        {
            let ghost before = lines@;
            assert(lines_view(before)[i as int] == v.screen[i as int]);
            crate::vt::line::fit_line_exec(&mut lines[i], cols);
            i = i + 1;
            assert(lines_view(lines@) =~= Seq::new(
                old_rows as nat,
                |x: int| if x < i { fit_line(v.screen[x], cols as int) } else { v.screen[x] },
            ));
        }
        let ghost target = Seq::new(
            rows as nat,
            |x: int| if x < v.rows { fit_line(v.screen[x], cols as int) } else { blank_line(cols as int) },
        );
        if rows < old_rows {
            lines.truncate(rows);
            assert(lines_view(lines@) =~= target);
        } else {
            while lines.len() < rows
                invariant
                    old_rows <= lines@.len() <= rows,
                    old_rows == v.rows,
                    target == Seq::new(
                        rows as nat,
                        |x: int| if x < v.rows { fit_line(v.screen[x], cols as int) } else { blank_line(cols as int) },
                    ),
                    lines_view(lines@) == target.subrange(0, lines@.len() as int),
                decreases rows - lines@.len(),
            {
                lines.push(crate::vt::line::new_line(cols));
                assert(lines_view(lines@) =~= target.subrange(0, lines@.len() as int));
            }
            assert(lines_view(lines@) =~= target);
        }
        self.lines = lines;
        self.rows = rows;
        self.cols = cols;
        self.cursor = Cursor {
            row: if self.cursor.row < rows - 1 { self.cursor.row } else { rows - 1 },
            col: if self.cursor.col < cols { self.cursor.col } else { cols },
        };
        self.open_cluster = None;
        self.scroll_top = 0;
        self.scroll_bottom = rows - 1;
        assert forall|r: int| 0 <= r < rows implies #[trigger] self@.screen[r].len() == cols by {
            if r < v.rows {
                assert(v.screen[r].len() == v.cols);
            }
        }
    }

    /// `DECSC`: save the cursor position and rendition.
    pub fn save_cursor(&mut self)
        requires
            old(self).wf(),
        ensures
            final(self).wf(),
            final(self)@ == old(self)@.save_cursor(),
    {
        self.saved = Some(SavedCursor { cursor: self.cursor, attrs: self.attrs });
    }

    /// `DECRC`: restore what [`Grid::save_cursor`] saved.
    pub fn restore_cursor(&mut self)
        requires
            old(self).wf(),
        ensures
            final(self).wf(),
            final(self)@ == old(self)@.restore_cursor(),
    {
        self.open_cluster = None;
        match self.saved {
            Some(s) => {
                self.cursor = Cursor {
                    row: if s.cursor.row < self.rows - 1 { s.cursor.row } else { self.rows - 1 },
                    col: if s.cursor.col < self.cols { s.cursor.col } else { self.cols },
                };
                self.attrs = s.attrs;
            },
            None => {
                self.cursor = Cursor { row: 0, col: 0 };
                self.attrs = Attrs::default();
            },
        }
    }
}

} // verus!
