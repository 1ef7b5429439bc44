//! The cell model.
//!
//! A cell holds a whole grapheme cluster, not a codepoint. `ব` + `্` + `ল` is three
//! codepoints, one cluster, and one conjunct glyph, so it must live in one cell.

use vstd::prelude::*;

use crate::strs::push_char;
use crate::vt::attrs::Attrs;
use crate::vt::unicode::{char_width, graphemes, spec_char_width, spec_graphemes, spec_str_width, str_width};

verus! {

/// Whether `s` forms exactly one extended grapheme cluster.
pub open spec fn spec_is_single_cluster(s: Seq<char>) -> bool {
    spec_graphemes(s).len() == 1
}

/// The width a grown cluster takes: its string width, at least one, at most
/// `u16::MAX`.
pub open spec fn clamped_width(w: usize) -> u16 {
    if w > u16::MAX as usize {
        u16::MAX
    } else if w == 0 {
        1u16
    } else {
        w as u16
    }
}

/// A grapheme cluster occupying one or more cells.
#[derive(PartialEq, Eq, Debug)]
pub struct Cluster {
    text: String,
    width: u16,
}

impl Cluster {
    /// The cluster's codepoints, in logical order.
    pub closed spec fn spec_text(&self) -> Seq<char> {
        self.text@
    }

    /// Cells occupied.
    pub closed spec fn spec_width(&self) -> u16 {
        self.width
    }

    /// A cluster never occupies fewer than one cell.
    #[verifier::type_invariant]
    closed spec fn inv(&self) -> bool {
        self.width >= 1
    }

    /// Build a cluster from a single character, or `None` if it carries no width
    /// of its own (an orphan combining mark with no base to attach to).
    #[must_use]
    pub fn from_char(c: char) -> (r: Option<Self>)
        ensures
            match spec_char_width(c) {
                Some(w) => if 0 < w && w <= u16::MAX as usize {
                    r matches Some(cl) && cl.spec_text() == seq![c] && cl.spec_width() == w as u16
                } else {
                    r is None
                },
                None => r is None,
            },
    {
        match char_width(c) {
            None => None,
            Some(w) => {
                if w == 0 || w > u16::MAX as usize {
                    None
                } else {
                    let mut text = String::new();
                    push_char(&mut text, c);
                    assert(text@ == seq![c]);
                    Some(Cluster { text, width: w as u16 })
                }
            },
        }
    }

    /// The cluster's codepoints, in logical order. Copy and paste use this.
    #[must_use]
    pub fn text(&self) -> (t: &str)
        ensures
            t@ == self.spec_text(),
    {
        self.text.as_str()
    }

    /// Cells occupied. Always at least 1.
    #[must_use]
    pub fn width(&self) -> (w: u16)
        ensures
            w == self.spec_width(),
            w >= 1,
    {
        proof {
            use_type_invariant(self);
        }
        self.width
    }

    /// A copy of this cluster.
    fn duplicate(&self) -> (r: Self)
        ensures
            r == *self,
    {
        proof {
            use_type_invariant(self);
        }
        Cluster { text: self.text.clone(), width: self.width }
    }

    /// Append `c` if the result is still a single grapheme cluster.
    ///
    /// Returns the resulting width on success, leaving `self` unchanged on failure.
    pub fn try_extend(&mut self, c: char) -> (r: Option<u16>)
        ensures
            spec_is_single_cluster(old(self).spec_text().push(c)) ==> {
                let w = clamped_width(spec_str_width(old(self).spec_text().push(c)));
                &&& r == Some(w)
                &&& final(self).spec_text() == old(self).spec_text().push(c)
                &&& final(self).spec_width() == w
            },
            !spec_is_single_cluster(old(self).spec_text().push(c)) ==> {
                &&& r is None
                &&& *final(self) == *old(self)
            },
    {
        proof {
            use_type_invariant(&*self);
        }
        let mut candidate = self.text.clone();
        push_char(&mut candidate, c);
        if !is_single_cluster(candidate.as_str()) {
            return None;
        }
        let w = str_width(candidate.as_str());
        let width: u16 = if w > u16::MAX as usize {
            u16::MAX
        } else if w == 0 {
            1
        } else {
            w as u16
        };
        self.text = candidate;
        self.width = width;
        Some(width)
    }
}

impl Clone for Cluster {
    fn clone(&self) -> (r: Self)
        ensures
            r == *self,
    {
        self.duplicate()
    }
}

/// Whether `s` forms exactly one extended grapheme cluster.
#[must_use]
pub fn is_single_cluster(s: &str) -> (r: bool)
    ensures
        r == spec_is_single_cluster(s@),
{
    let clusters = graphemes(s);
    assert(clusters@.map_values(|t: String| t@).len() == clusters@.len());
    clusters.len() == 1
}

/// What a cell holds.
#[derive(Clone, PartialEq, Eq, Debug)]
pub enum CellContent {
    /// Nothing has been printed here.
    Empty,
    /// The start of a cluster, which spans [`Cluster::width`] cells from here.
    Head(Cluster),
    /// Covered by a cluster whose head lies to the left.
    Continuation,
}

impl Default for CellContent {
    fn default() -> (c: Self)
        ensures
            c is Empty,
    {
        CellContent::Empty
    }
}

/// What a cell holds, as values: the cluster's codepoints and width for a head.
pub enum ContentView {
    Empty,
    Head { text: Seq<char>, width: u16 },
    Continuation,
}

/// A cell, as values.
pub struct CellView {
    pub content: ContentView,
    pub attrs: Attrs,
}

/// An empty cell carrying `attrs`, as a value.
pub open spec fn blank_view(attrs: Attrs) -> CellView {
    CellView { content: ContentView::Empty, attrs }
}

/// The values of a row of cells.
pub open spec fn line_view(line: Seq<Cell>) -> Seq<CellView> {
    line.map_values(|c: Cell| c@)
}

/// A line's values are as many as its cells.
pub broadcast proof fn lemma_line_view_len(s: Seq<Cell>)
    ensures
        #[trigger] line_view(s).len() == s.len(),
{
}

/// Each value of a line is the view of the cell at the same place.
pub broadcast proof fn lemma_line_view_index(s: Seq<Cell>, i: int)
    requires
        0 <= i < s.len(),
    ensures
        #[trigger] line_view(s)[i] == s[i]@,
{
}

/// Appending a cell appends its view.
pub broadcast proof fn lemma_line_view_push(s: Seq<Cell>, c: Cell)
    ensures
        #[trigger] line_view(s.push(c)) == line_view(s).push(c@),
{
    assert(line_view(s.push(c)) =~= line_view(s).push(c@));
}

/// Replacing a cell replaces its view.
pub broadcast proof fn lemma_line_view_update(s: Seq<Cell>, i: int, c: Cell)
    requires
        0 <= i < s.len(),
    ensures
        #[trigger] line_view(s.update(i, c)) == line_view(s).update(i, c@),
{
    assert(line_view(s.update(i, c)) =~= line_view(s).update(i, c@));
}

/// Inserting a cell inserts its view.
pub broadcast proof fn lemma_line_view_insert(s: Seq<Cell>, i: int, c: Cell)
    requires
        0 <= i <= s.len(),
    ensures
        #[trigger] line_view(s.insert(i, c)) == line_view(s).insert(i, c@),
{
    assert(line_view(s.insert(i, c)) =~= line_view(s).insert(i, c@));
}

/// Removing a cell removes its view.
pub broadcast proof fn lemma_line_view_remove(s: Seq<Cell>, i: int)
    requires
        0 <= i < s.len(),
    ensures
        #[trigger] line_view(s.remove(i)) == line_view(s).remove(i),
{
    assert(line_view(s.remove(i)) =~= line_view(s).remove(i));
}

/// Dropping the last cell drops its view.
pub broadcast proof fn lemma_line_view_drop_last(s: Seq<Cell>)
    requires
        s.len() > 0,
    ensures
        #[trigger] line_view(s.drop_last()) == line_view(s).drop_last(),
{
    assert(line_view(s.drop_last()) =~= line_view(s).drop_last());
}

/// Keeping a prefix keeps the prefix of the views.
pub broadcast proof fn lemma_line_view_subrange(s: Seq<Cell>, n: int)
    requires
        0 <= n <= s.len(),
    ensures
        #[trigger] line_view(s.subrange(0, n)) == line_view(s).subrange(0, n),
{
    assert(line_view(s.subrange(0, n)) =~= line_view(s).subrange(0, n));
}

/// The values of a sequence of lines.
pub open spec fn lines_view(lines: Seq<Vec<Cell>>) -> Seq<Seq<CellView>> {
    lines.map_values(|l: Vec<Cell>| line_view(l@))
}

pub broadcast proof fn lemma_lines_view_len(s: Seq<Vec<Cell>>)
    ensures
        #[trigger] lines_view(s).len() == s.len(),
{
}

pub broadcast proof fn lemma_lines_view_index(s: Seq<Vec<Cell>>, i: int)
    requires
        0 <= i < s.len(),
    ensures
        #[trigger] lines_view(s)[i] == line_view(s[i]@),
{
}

pub broadcast proof fn lemma_lines_view_push(s: Seq<Vec<Cell>>, l: Vec<Cell>)
    ensures
        #[trigger] lines_view(s.push(l)) == lines_view(s).push(line_view(l@)),
{
    assert(lines_view(s.push(l)) =~= lines_view(s).push(line_view(l@)));
}

pub broadcast proof fn lemma_lines_view_update(s: Seq<Vec<Cell>>, i: int, l: Vec<Cell>)
    requires
        0 <= i < s.len(),
    ensures
        #[trigger] lines_view(s.update(i, l)) == lines_view(s).update(i, line_view(l@)),
{
    assert(lines_view(s.update(i, l)) =~= lines_view(s).update(i, line_view(l@)));
}

pub broadcast proof fn lemma_lines_view_insert(s: Seq<Vec<Cell>>, i: int, l: Vec<Cell>)
    requires
        0 <= i <= s.len(),
    ensures
        #[trigger] lines_view(s.insert(i, l)) == lines_view(s).insert(i, line_view(l@)),
{
    assert(lines_view(s.insert(i, l)) =~= lines_view(s).insert(i, line_view(l@)));
}

pub broadcast proof fn lemma_lines_view_remove(s: Seq<Vec<Cell>>, i: int)
    requires
        0 <= i < s.len(),
    ensures
        #[trigger] lines_view(s.remove(i)) == lines_view(s).remove(i),
{
    assert(lines_view(s.remove(i)) =~= lines_view(s).remove(i));
}

pub broadcast proof fn lemma_lines_view_subrange(s: Seq<Vec<Cell>>, i: int, j: int)
    requires
        0 <= i <= j <= s.len(),
    ensures
        #[trigger] lines_view(s.subrange(i, j)) == lines_view(s).subrange(i, j),
{
    assert(lines_view(s.subrange(i, j)) =~= lines_view(s).subrange(i, j));
}

pub broadcast group group_line_view {
    lemma_line_view_len,
    lemma_line_view_index,
    lemma_line_view_push,
    lemma_line_view_update,
    lemma_line_view_insert,
    lemma_line_view_remove,
    lemma_line_view_drop_last,
    lemma_line_view_subrange,
    lemma_lines_view_len,
    lemma_lines_view_index,
    lemma_lines_view_push,
    lemma_lines_view_update,
    lemma_lines_view_insert,
    lemma_lines_view_remove,
    lemma_lines_view_subrange,
}

/// One cell of the grid.
#[derive(Clone, PartialEq, Eq, Debug)]
pub struct Cell {
    pub content: CellContent,
    pub attrs: Attrs,
}

/// An empty cell carrying `attrs`.
pub open spec fn blank(attrs: Attrs) -> Cell {
    Cell { content: CellContent::Empty, attrs }
}

impl View for Cell {
    type V = CellView;

    open spec fn view(&self) -> CellView {
        CellView {
            content: match self.content {
                CellContent::Empty => ContentView::Empty,
                CellContent::Head(cl) => ContentView::Head { text: cl.spec_text(), width: cl.spec_width() },
                CellContent::Continuation => ContentView::Continuation,
            },
            attrs: self.attrs,
        }
    }
}

impl Default for Cell {
    fn default() -> (c: Self)
        ensures
            c == blank(crate::vt::attrs::default_attrs()),
    {
        Cell { content: CellContent::Empty, attrs: Attrs::default() }
    }
}

impl Cell {
    /// The cluster starting here, if any.
    #[must_use]
    pub fn cluster(&self) -> (r: Option<&Cluster>)
        ensures
            match self.content {
                CellContent::Head(cl) => r == Some(&cl),
                _ => r is None,
            },
    {
        match &self.content {
            CellContent::Head(cluster) => Some(cluster),
            _ => None,
        }
    }

    /// Reset to an empty cell carrying `attrs`.
    pub fn clear(&mut self, attrs: Attrs)
        ensures
            *final(self) == blank(attrs),
    {
        self.content = CellContent::Empty;
        self.attrs = attrs;
    }

    /// Whether this cell continues a cluster whose head lies to the left.
    pub fn is_continuation(&self) -> (r: bool)
        ensures
            r == (self.content is Continuation),
    {
        match &self.content {
            CellContent::Continuation => true,
            _ => false,
        }
    }
}

} // verus!
