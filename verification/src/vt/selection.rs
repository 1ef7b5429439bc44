//! Selecting text by cell coordinates.
//!
//! Selection is a UI concept laid over the grid. It never touches terminal state, and
//! it addresses cells, not codepoints: a cluster is selected or it is not, so a
//! conjunct can never be cut in half.

use vstd::prelude::*;

use crate::strs::{chars_of, is_whitespace, push_char, push_str, trim_end, trim_end_string};
use crate::vt::cell::ContentView;
use crate::vt::grid::{Cursor, Grid, GridView};
use crate::vt::line::line_text;

verus! {

broadcast use crate::vt::cell::group_line_view;

/// Characters that end a word for double-click selection.
///
/// Path separators are deliberately absent: double-clicking a path should select the
/// whole path, which is what you almost always want in a terminal.
pub open spec fn spec_is_word_separator(c: char) -> bool {
    c == ' ' || c == '\t' || c == '"' || c == '\'' || c == '`' || c == '(' || c == ')' || c == '['
        || c == ']' || c == '{' || c == '}' || c == '<' || c == '>' || c == '|' || c == ';' || c == ':'
        || c == ',' || c == '='
}

/// What a click selects.
#[derive(Clone, Copy, PartialEq, Eq, Debug, Structural)]
pub enum SelectionMode {
    /// One click and drag: cell by cell.
    Cell,
    /// Two clicks: whole words.
    Word,
    /// Three clicks: whole lines.
    Line,
}

impl Default for SelectionMode {
    fn default() -> (m: Self)
        ensures
            m == SelectionMode::Cell,
    {
        SelectionMode::Cell
    }
}

/// The mode a click with this count selects: two words, three lines, and then
/// around again.
pub open spec fn click_mode(clicks: u32) -> SelectionMode {
    if clicks % 3 == 2 {
        SelectionMode::Word
    } else if clicks % 3 == 0 {
        SelectionMode::Line
    } else {
        SelectionMode::Cell
    }
}

impl SelectionMode {
    /// The mode a click with this count selects. Four clicks wrap back to one.
    #[must_use]
    pub fn from_click_count(clicks: u32) -> (m: Self)
        ensures
            m == click_mode(clicks),
    {
        match clicks % 3 {
            2 => SelectionMode::Word,
            0 => SelectionMode::Line,
            _ => SelectionMode::Cell,
        }
    }
}

/// Whether `a` comes before `b` in reading order.
pub open spec fn before(a: Cursor, b: Cursor) -> bool {
    a.row < b.row || (a.row == b.row && a.col < b.col)
}

/// The first character of the cluster whose head is at `row`, `col`, if there is one.
pub open spec fn cell_first_char(g: GridView, row: int, col: int) -> Option<char> {
    if 0 <= row < g.rows && 0 <= col < g.cols {
        match g.screen[row][col].content {
            ContentView::Head { text, .. } => if text.len() > 0 {
                Some(text[0])
            } else {
                None
            },
            _ => None,
        }
    } else {
        None
    }
}

/// Whether the cell ends a word: a separator character, or a gap (an empty or
/// continuation cell, or one off the screen).
pub open spec fn spec_is_separator(g: GridView, row: int, col: int) -> bool {
    match cell_first_char(g, row, col) {
        Some(c) => spec_is_word_separator(c),
        None => true,
    }
}

/// The first column of the word at `col`: left while the cell before is no separator.
pub open spec fn spec_word_start(g: GridView, row: int, col: int) -> int
    decreases col,
{
    if col > 0 && !spec_is_separator(g, row, col - 1) {
        spec_word_start(g, row, col - 1)
    } else {
        col
    }
}

/// The last column of the word at `col`: right while the cell after is no
/// separator, up to the last column.
pub open spec fn spec_word_end(g: GridView, row: int, col: int) -> int
    decreases g.cols - col,
{
    if col < g.cols - 1 && !spec_is_separator(g, row, col + 1) {
        spec_word_end(g, row, col + 1)
    } else {
        col
    }
}

/// A selection as values.
pub struct SelectionView {
    pub anchor: Cursor,
    pub head: Cursor,
    pub mode: SelectionMode,
}

impl SelectionView {
    /// The two ends in reading order.
    pub open spec fn ordered(self) -> (Cursor, Cursor) {
        if before(self.head, self.anchor) {
            (self.head, self.anchor)
        } else {
            (self.anchor, self.head)
        }
    }

    pub open spec fn is_empty(self) -> bool {
        self.mode == SelectionMode::Cell && self.anchor == self.head
    }

    /// The range covered on `g`, widened to whole words or whole lines.
    pub open spec fn range(self, g: GridView) -> (Cursor, Cursor) {
        let (start, end) = self.ordered();
        match self.mode {
            SelectionMode::Cell => (start, end),
            SelectionMode::Word => (
                Cursor { row: start.row, col: spec_word_start(g, start.row as int, start.col as int) as usize },
                Cursor { row: end.row, col: spec_word_end(g, end.row as int, end.col as int) as usize },
            ),
            SelectionMode::Line => (
                Cursor { col: 0, ..start },
                Cursor { col: if g.cols >= 1 { (g.cols - 1) as usize } else { 0 }, ..end },
            ),
        }
    }

    pub open spec fn contains(self, g: GridView, row: int, col: int) -> bool {
        let (start, end) = self.range(g);
        &&& !self.is_empty()
        &&& start.row <= row <= end.row
        &&& (row > start.row || col >= start.col)
        &&& (row < end.row || col <= end.col)
    }

    /// The selected part of screen row `row`, trimmed of trailing whitespace.
    pub open spec fn row_text(self, g: GridView, row: int) -> Seq<char> {
        let (start, end) = self.range(g);
        let first: int = if row == start.row { start.col as int } else { 0 };
        let last: int = if row == end.row { end.col as int } else { g.cols - 1 };
        let stop: int = if last < g.cols - 1 { last } else { g.cols - 1 };
        if first <= stop {
            trim_end(line_text(g.screen[row].subrange(first, stop + 1)))
        } else {
            Seq::empty()
        }
    }

    /// The selected text of the rows from the range's first up to `upto`, with a
    /// newline before each row after the first.
    pub open spec fn text_upto(self, g: GridView, upto: int) -> Seq<char>
        decreases upto,
    {
        let (start, end) = self.range(g);
        if upto <= start.row {
            Seq::empty()
        } else {
            let row = upto - 1;
            self.text_upto(g, row) + (if row > start.row { seq!['\n'] } else { Seq::empty() }) + self.row_text(
                g,
                row,
            )
        }
    }

    /// The selected text: each selected row of the screen, trimmed, joined by
    /// newlines; nothing for an empty selection.
    pub open spec fn text(self, g: GridView) -> Seq<char> {
        let (start, end) = self.range(g);
        if self.is_empty() {
            Seq::empty()
        } else {
            self.text_upto(g, if end.row < g.rows - 1 { end.row + 1 } else { g.rows as int })
        }
    }
}

/// A range of cells, anchored where the drag began.
#[derive(Clone, Copy, PartialEq, Eq, Debug)]
pub struct Selection {
    anchor: Cursor,
    head: Cursor,
    mode: SelectionMode,
}

impl View for Selection {
    type V = SelectionView;

    closed spec fn view(&self) -> SelectionView {
        SelectionView { anchor: self.anchor, head: self.head, mode: self.mode }
    }
}

impl Selection {
    #[must_use]
    pub fn new(anchor: Cursor, mode: SelectionMode) -> (s: Self)
        ensures
            s@ == (SelectionView { anchor, head: anchor, mode }),
    {
        Selection { anchor, head: anchor, mode }
    }

    /// Move the dragging end. The anchor stays where the drag began, so dragging back
    /// past the start inverts the selection rather than emptying it.
    pub fn drag_to(&mut self, head: Cursor)
        ensures
            final(self)@ == (SelectionView { head, ..old(self)@ }),
    {
        self.head = head;
    }

    #[must_use]
    pub fn mode(&self) -> (m: SelectionMode)
        ensures
            m == self@.mode,
    {
        self.mode
    }

    /// The start and end, in reading order.
    #[must_use]
    pub fn ordered(&self) -> (r: (Cursor, Cursor))
        ensures
            r == self@.ordered(),
    {
        let backwards = self.head.row < self.anchor.row || (self.head.row == self.anchor.row
            && self.head.col < self.anchor.col);
        if backwards {
            (self.head, self.anchor)
        } else {
            (self.anchor, self.head)
        }
    }

    /// A selection that covers no cell. A click without a drag selects nothing.
    #[must_use]
    pub fn is_empty(&self) -> (b: bool)
        ensures
            b == self@.is_empty(),
    {
        self.mode == SelectionMode::Cell && self.anchor == self.head
    }

    /// The range this selection covers on `grid`, expanded for word and line modes.
    #[must_use]
    pub fn range(&self, grid: &Grid) -> (r: (Cursor, Cursor))
        requires
            grid.wf(),
        ensures
            r == self@.range(grid@),
    {
        let (start, end) = self.ordered();
        match self.mode {
            SelectionMode::Cell => (start, end),
            SelectionMode::Word => (word_start(grid, start), word_end(grid, end)),
            SelectionMode::Line => {
                let cols = grid.cols();
                (Cursor { row: start.row, col: 0 }, Cursor { row: end.row, col: if cols >= 1 { cols - 1 } else { 0 } })
            },
        }
    }

    /// Whether `row`, `col` falls inside the selection.
    #[must_use]
    pub fn contains(&self, grid: &Grid, row: usize, col: usize) -> (b: bool)
        requires
            grid.wf(),
        ensures
            b == self@.contains(grid@, row as int, col as int),
    {
        if self.is_empty() {
            return false;
        }
        let (start, end) = self.range(grid);
        if row < start.row || row > end.row {
            return false;
        }
        let after_start = row > start.row || col >= start.col;
        let before_end = row < end.row || col <= end.col;
        after_start && before_end
    }

    /// The selected text, with a newline between rows.
    ///
    /// Trailing blanks are trimmed from each row: a terminal pads lines with spaces it
    /// never meant as content, and pasting them back is never what anyone wanted.
    #[must_use]
    pub fn text(&self, grid: &Grid) -> (s: String)
        requires
            grid.wf(),
        ensures
            s@ == self@.text(grid@),
    {
        if self.is_empty() {
            return String::new();
        }
        let (start, end) = self.range(grid);
        let rows = grid.rows();
        let cols = grid.cols();
        let stop = if end.row < rows - 1 { end.row + 1 } else { rows };
        let mut out = String::new();
        let mut row = start.row;
        if row < stop {
            while row < stop
                invariant
                    start.row <= row <= stop <= rows,
                    grid.wf(),
                    (start, end) == self@.range(grid@),
                    rows == grid@.rows,
                    cols == grid@.cols,
                    out@ == self@.text_upto(grid@, row as int),
                decreases stop - row,
            {
                let first = if row == start.row { start.col } else { 0 };
                let last = if row == end.row { end.col } else { cols - 1 };
                let line = selected_row(grid, row, first, if last < cols - 1 { last } else { cols - 1 });
                if row > start.row {
                    push_char(&mut out, '\n');
                }
                push_str(&mut out, line.as_str());
                row = row + 1;
            }
        }
        out
    }
}

/// The text of row `row` from column `first` to `last` inclusive, trimmed of
/// trailing whitespace.
fn selected_row(grid: &Grid, row: usize, first: usize, last: usize) -> (s: String)
    requires
        grid.wf(),
        row < grid@.rows,
        last < grid@.cols,
    ensures
        first <= last ==> s@ == trim_end(line_text(grid@.screen[row as int].subrange(first as int, last + 1))),
        first > last ==> s@ == Seq::<char>::empty(),
{
    let ghost line = grid@.screen[row as int];
    let mut text = String::new();
    if first > last {
        return text;
    }
    let mut col = first;
    while col <= last
        invariant
            first <= col <= last + 1,
            last < grid@.cols,
            row < grid@.rows,
            grid.wf(),
            line == grid@.screen[row as int],
            text@ == line_text(line.subrange(first as int, col as int)),
        decreases last + 1 - col,
    {
        assert(line.subrange(first as int, col + 1).drop_last() =~= line.subrange(first as int, col as int));
        match grid.cell(row, col) {
            Some(cell) => match cell.cluster() {
                Some(cluster) => push_str(&mut text, cluster.text()),
                None => {},
            },
            None => {},
        }
        col = col + 1;
    }
    trim_end_string(&text)
}

/// The first character of the cluster whose head is at `row`, `col`.
fn cell_char(grid: &Grid, row: usize, col: usize) -> (c: Option<char>)
    requires
        grid.wf(),
    ensures
        c == cell_first_char(grid@, row as int, col as int),
{
    match grid.cell(row, col) {
        Some(cell) => match cell.cluster() {
            Some(cluster) => {
                let chars = chars_of(cluster.text());
                if chars.len() > 0 {
                    Some(chars[0])
                } else {
                    None
                }
            },
            None => None,
        },
        None => None,
    }
}

/// Whether `c` ends a word.
fn is_word_separator(c: char) -> (b: bool)
    ensures
        b == spec_is_word_separator(c),
{
    c == ' ' || c == '\t' || c == '"' || c == '\'' || c == '`' || c == '(' || c == ')' || c == '['
        || c == ']' || c == '{' || c == '}' || c == '<' || c == '>' || c == '|' || c == ';' || c == ':'
        || c == ',' || c == '='
}

fn is_separator(grid: &Grid, row: usize, col: usize) -> (b: bool)
    requires
        grid.wf(),
    ensures
        b == spec_is_separator(grid@, row as int, col as int),
{
    match cell_char(grid, row, col) {
        Some(c) => is_word_separator(c),
        // An empty cell is a gap, which is a boundary.
        None => true,
    }
}

fn word_start(grid: &Grid, at: Cursor) -> (r: Cursor)
    requires
        grid.wf(),
    ensures
        r == (Cursor { row: at.row, col: spec_word_start(grid@, at.row as int, at.col as int) as usize }),
{
    let mut col = at.col;
    while col > 0 && !is_separator(grid, at.row, col - 1)
        invariant
            col <= at.col,
            grid.wf(),
            spec_word_start(grid@, at.row as int, col as int) == spec_word_start(grid@, at.row as int, at.col as int),
        decreases col,
    {
        col = col - 1;
    }
    Cursor { row: at.row, col }
}

fn word_end(grid: &Grid, at: Cursor) -> (r: Cursor)
    requires
        grid.wf(),
    ensures
        r == (Cursor { row: at.row, col: spec_word_end(grid@, at.row as int, at.col as int) as usize }),
{
    let mut col = at.col;
    let last = grid.cols() - 1;
    while col < last && !is_separator(grid, at.row, col + 1)
        invariant
            at.col <= col,
            last == grid@.cols - 1,
            grid.wf(),
            spec_word_end(grid@, at.row as int, col as int) == spec_word_end(grid@, at.row as int, at.col as int),
        decreases last - col,
    {
        col = col + 1;
    }
    Cursor { row: at.row, col }
}

} // verus!
