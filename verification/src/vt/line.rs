//! One row of cells: clearing spans, placing clusters, shifting cells.
//!
//! A cluster wider than one cell is a head followed by continuation cells. Every
//! operation that overwrites part of a cluster erases all of it, so no continuation
//! is left standing without the head it continues.

use vstd::prelude::*;

use crate::strs::push_str;
use crate::vt::attrs::{default_attrs, Attrs};
use crate::vt::cell::{blank_view, line_view, Cell, CellContent, CellView, Cluster, ContentView};

verus! {

broadcast use crate::vt::cell::group_line_view;

/// Whether a cell continues a cluster whose head lies to the left.
pub open spec fn is_cont(c: CellView) -> bool {
    c.content is Continuation
}

/// Where the cluster covering `col` begins: step left over continuation cells,
/// stopping at the start of the line.
pub open spec fn span_start(line: Seq<CellView>, col: int) -> int
    decreases col,
{
    if 0 < col < line.len() && is_cont(line[col]) {
        span_start(line, col - 1)
    } else {
        col
    }
}

/// Where a span ending before `end` stops once widened over the continuation cells
/// that follow it.
pub open spec fn span_end(line: Seq<CellView>, end: int) -> int
    decreases line.len() - end,
{
    if 0 <= end < line.len() && is_cont(line[end]) {
        span_end(line, end + 1)
    } else {
        end
    }
}

/// The line with the cells in `[s, e)` emptied and given `attrs`.
pub open spec fn clear_range(line: Seq<CellView>, s: int, e: int, attrs: Attrs) -> Seq<CellView> {
    Seq::new(line.len(), |i: int| if s <= i < e { blank_view(attrs) } else { line[i] })
}

/// The smaller of two integers.
pub open spec fn min(a: int, b: int) -> int {
    if a <= b { a } else { b }
}

/// The line with the `width` cells at `col` emptied, widened to cover every cluster
/// that the span only partly overlaps.
pub open spec fn clear_span(line: Seq<CellView>, col: int, width: int, attrs: Attrs) -> Seq<CellView> {
    clear_range(line, span_start(line, col), span_end(line, min(col + width, line.len() as int)), attrs)
}

/// The line with a cluster of `text` and `width` placed at `col`: what it overlaps is
/// cleared first, then the head and its continuation cells are written.
pub open spec fn place_cluster(
    line: Seq<CellView>,
    col: int,
    text: Seq<char>,
    width: u16,
    attrs: Attrs,
) -> Seq<CellView> {
    let cleared = clear_span(line, col, width as int, attrs);
    Seq::new(
        line.len(),
        |i: int|
            if i == col {
                CellView { content: ContentView::Head { text, width }, attrs }
            } else if col < i < col + width {
                CellView { content: ContentView::Continuation, attrs }
            } else {
                cleared[i]
            },
    )
}

/// The line with `k` empty cells inserted at `col`; the last `k` cells fall off.
pub open spec fn insert_blanks(line: Seq<CellView>, col: int, k: int, attrs: Attrs) -> Seq<CellView> {
    Seq::new(
        line.len(),
        |i: int| if i < col { line[i] } else if i < col + k { blank_view(attrs) } else { line[i - k] },
    )
}

/// The line with the `k` cells at `col` removed; empty cells fill in at the end.
pub open spec fn delete_cells(line: Seq<CellView>, col: int, k: int, attrs: Attrs) -> Seq<CellView> {
    Seq::new(
        line.len(),
        |i: int|
            if i < col {
                line[i]
            } else if i < line.len() - k {
                line[i + k]
            } else {
                blank_view(attrs)
            },
    )
}

/// The line cut or padded to `cols` cells. A cluster cut by the new edge is erased
/// whole; new cells are empty with default attributes.
pub open spec fn fit_line(line: Seq<CellView>, cols: int) -> Seq<CellView> {
    if cols < line.len() {
        let cut = if is_cont(line[cols]) { clear_span(line, cols, 0, default_attrs()) } else { line };
        cut.subrange(0, cols)
    } else {
        line + Seq::new((cols - line.len()) as nat, |i: int| blank_view(default_attrs()))
    }
}

/// `cols` empty cells with default attributes.
pub open spec fn blank_line(cols: int) -> Seq<CellView> {
    Seq::new(cols as nat, |i: int| blank_view(default_attrs()))
}

/// The text of a line: its clusters' codepoints, left to right.
pub open spec fn line_text(line: Seq<CellView>) -> Seq<char>
    decreases line.len(),
{
    if line.len() == 0 {
        Seq::empty()
    } else {
        line_text(line.drop_last()) + match line.last().content {
            ContentView::Head { text, .. } => text,
            _ => Seq::empty(),
        }
    }
}

/// The clusters of a line, left to right, as text and width.
pub open spec fn line_clusters(line: Seq<CellView>) -> Seq<(Seq<char>, u16)>
    decreases line.len(),
{
    if line.len() == 0 {
        Seq::empty()
    } else {
        line_clusters(line.drop_last()) + match line.last().content {
            ContentView::Head { text, width } => seq![(text, width)],
            _ => Seq::empty(),
        }
    }
}

/// An empty cell carrying `attrs`.
pub fn blank_cell(attrs: Attrs) -> (c: Cell)
    ensures
        c@ == blank_view(attrs),
{
    Cell { content: CellContent::Empty, attrs }
}

/// A line of `cols` empty cells with default attributes.
pub fn new_line(cols: usize) -> (line: Vec<Cell>)
    ensures
        line_view(line@) == blank_line(cols as int),
{
    let mut line: Vec<Cell> = Vec::new();
    let mut i: usize = 0;
    while i < cols
        invariant
            i <= cols,
            line@.len() == i,
            line_view(line@) == blank_line(i as int),
        decreases cols - i,
    {
        line.push(Cell::default());
        i = i + 1;
        assert(line_view(line@) =~= blank_line(i as int));
    }
    line
}

/// Empty the cells in `[s, e)`, giving them `attrs`.
pub fn clear_range_line(line: &mut Vec<Cell>, s: usize, e: usize, attrs: Attrs)
    requires
        s <= e <= old(line)@.len(),
    ensures
        final(line)@.len() == old(line)@.len(),
        line_view(final(line)@) == clear_range(line_view(old(line)@), s as int, e as int, attrs),
{
    let ghost old_line = line_view(line@);
    let mut i = s;
    while i < e
        invariant
            s <= i <= e,
            e <= line@.len(),
            line@.len() == old_line.len(),
            line_view(line@) == clear_range(old_line, s as int, i as int, attrs),
        decreases e - i,
    {
        line[i] = blank_cell(attrs);
        i = i + 1;
        assert(line_view(line@) =~= clear_range(old_line, s as int, i as int, attrs));
    }
}

/// Erase the `width` cells at `col`, widened to cover any cluster the span only
/// partly overlaps.
///
/// Overwriting half of a wide cluster must erase all of it, or the surviving
/// continuation cells become orphans that render as stale glyph fragments.
pub fn clear_span_line(line: &mut Vec<Cell>, col: usize, width: usize, attrs: Attrs)
    requires
        col < old(line)@.len(),
    ensures
        final(line)@.len() == old(line)@.len(),
        line_view(final(line)@) == clear_span(line_view(old(line)@), col as int, width as int, attrs),
{
    let ghost lv = line_view(line@);
    let len = line.len();
    let mut start = col;
    while start > 0 && line[start].is_continuation()
        invariant
            start <= col < len == line@.len(),
            lv == line_view(line@),
            span_start(lv, start as int) == span_start(lv, col as int),
        decreases start,
    {
        start = start - 1;
    }
    let mut end: usize = if width > len - col { len } else { col + width };
    assert(end as int == min(col + width, len as int));
    let ghost end0 = end;
    while end < len && line[end].is_continuation()
        invariant
            col <= end0 <= end <= len == line@.len(),
            lv == line_view(line@),
            span_end(lv, end as int) == span_end(lv, end0 as int),
        decreases len - end,
    {
        end = end + 1;
    }
    clear_range_line(line, start, end, attrs);
}

/// Place `cluster` at `col`, clearing whatever it overlaps. Continuation cells past
/// the end of the line are not written.
pub fn place_cluster_line(line: &mut Vec<Cell>, col: usize, cluster: Cluster, attrs: Attrs)
    requires
        col < old(line)@.len(),
    ensures
        final(line)@.len() == old(line)@.len(),
        line_view(final(line)@) == place_cluster(
            line_view(old(line)@),
            col as int,
            cluster.spec_text(),
            cluster.spec_width(),
            attrs,
        ),
{
    let ghost old_line = line_view(line@);
    let ghost text = cluster.spec_text();
    let w = cluster.width();
    let len = line.len();
    clear_span_line(line, col, w as usize, attrs);
    let ghost cleared = line_view(line@);
    line[col] = Cell { content: CellContent::Head(cluster), attrs };
    let end: usize = if w as usize > len - col { len } else { col + w as usize };
    let mut j = col + 1;
    while j < end
        invariant
            col < j <= end,
            col < end <= len == line@.len(),
            end as int == min(col + w, len as int),
            line_view(line@) == Seq::new(
                len as nat,
                |i: int|
                    if i == col {
                        CellView { content: ContentView::Head { text, width: w }, attrs }
                    } else if col < i < j {
                        CellView { content: ContentView::Continuation, attrs }
                    } else {
                        cleared[i]
                    },
            ),
        decreases end - j,
    {
        line[j] = Cell { content: CellContent::Continuation, attrs };
        j = j + 1;
        assert(line_view(line@) =~= Seq::new(
            len as nat,
            |i: int|
                if i == col {
                    CellView { content: ContentView::Head { text, width: w }, attrs }
                } else if col < i < j {
                    CellView { content: ContentView::Continuation, attrs }
                } else {
                    cleared[i]
                },
        ));
    }
    assert(line_view(line@) =~= place_cluster(old_line, col as int, text, w, attrs));
}

/// Insert `k` empty cells carrying `attrs` at `col`; the last `k` cells fall off.
pub fn insert_blanks_line(line: &mut Vec<Cell>, col: usize, k: usize, attrs: Attrs)
    requires
        col <= old(line)@.len(),
        k <= old(line)@.len() - col,
    ensures
        final(line)@.len() == old(line)@.len(),
        line_view(final(line)@) == insert_blanks(line_view(old(line)@), col as int, k as int, attrs),
{
    let ghost old_line = line_view(line@);
    let len = line.len();
    let mut i: usize = 0;
    while i < k
        invariant
            i <= k <= len - col,
            col <= len,
            line@.len() == len,
            old_line.len() == len,
            line_view(line@) == Seq::new(
                len as nat,
                |x: int| if x < col { old_line[x] } else if x < col + i { blank_view(attrs) } else { old_line[x - i] },
            ),
        decreases k - i,
    {
        let ghost prev = line_view(line@);
        line.pop();
        line.insert(col, blank_cell(attrs));
        i = i + 1;
        assert(line_view(line@) =~= Seq::new(
            len as nat,
            |x: int| if x < col { old_line[x] } else if x < col + i { blank_view(attrs) } else { old_line[x - i] },
        ));
    }
    assert(line_view(line@) =~= insert_blanks(old_line, col as int, k as int, attrs));
}

/// Remove the `k` cells at `col`; empty cells carrying `attrs` fill in at the end.
pub fn delete_cells_line(line: &mut Vec<Cell>, col: usize, k: usize, attrs: Attrs)
    requires
        col <= old(line)@.len(),
        k <= old(line)@.len() - col,
    ensures
        final(line)@.len() == old(line)@.len(),
        line_view(final(line)@) == delete_cells(line_view(old(line)@), col as int, k as int, attrs),
{
    let ghost old_line = line_view(line@);
    let len = line.len();
    let mut i: usize = 0;
    while i < k
        invariant
            i <= k <= len - col,
            col <= len,
            line@.len() == len,
            old_line.len() == len,
            line_view(line@) == Seq::new(
                len as nat,
                |x: int| if x < col { old_line[x] } else if x < len - i { old_line[x + i] } else { blank_view(attrs) },
            ),
        decreases k - i,
    {
        line.remove(col);
        line.push(blank_cell(attrs));
        i = i + 1;
        assert(line_view(line@) =~= Seq::new(
            len as nat,
            |x: int| if x < col { old_line[x] } else if x < len - i { old_line[x + i] } else { blank_view(attrs) },
        ));
    }
    assert(line_view(line@) =~= delete_cells(old_line, col as int, k as int, attrs));
}

/// Cut or pad the line to `cols` cells, erasing a cluster the new edge would cut.
pub fn fit_line_exec(line: &mut Vec<Cell>, cols: usize)
    ensures
        final(line)@.len() == cols,
        line_view(final(line)@) == fit_line(line_view(old(line)@), cols as int),
{
    let ghost old_line = line_view(line@);
    if cols < line.len() {
        if line[cols].is_continuation() {
            clear_span_line(line, cols, 0, Attrs::default());
        }
        let ghost cut = line_view(line@);
        line.truncate(cols);
        assert(line@ =~= old(line)@.subrange(0, 0) + line@);
        assert(line_view(line@) =~= cut.subrange(0, cols as int));
    } else {
        while line.len() < cols
            invariant
                old_line.len() <= line@.len() <= cols,
                line_view(line@) == old_line + Seq::new(
                    (line@.len() - old_line.len()) as nat,
                    |i: int| blank_view(default_attrs()),
                ),
            decreases cols - line@.len(),
        {
            line.push(Cell::default());
            assert(line_view(line@) =~= old_line + Seq::new(
                (line@.len() - old_line.len()) as nat,
                |i: int| blank_view(default_attrs()),
            ));
        }
    }
}

/// The text of a line: its clusters' codepoints, left to right.
pub fn line_text_exec(line: &Vec<Cell>) -> (s: String)
    ensures
        s@ == line_text(line_view(line@)),
{
    let ghost lv = line_view(line@);
    let mut s = String::new();
    let mut i: usize = 0;
    while i < line.len()
        invariant
            i <= line@.len(),
            lv == line_view(line@),
            s@ == line_text(lv.subrange(0, i as int)),
        decreases line@.len() - i,
    {
        assert(lv.subrange(0, i + 1).drop_last() =~= lv.subrange(0, i as int));
        match line[i].cluster() {
            Some(cl) => push_str(&mut s, cl.text()),
            None => {},
        }
        i = i + 1;
    }
    assert(lv.subrange(0, line@.len() as int) =~= lv);
    s
}

/// The clusters of a line, left to right.
pub fn line_clusters_exec(line: &Vec<Cell>) -> (r: Vec<&Cluster>)
    ensures
        r@.map_values(|c: &Cluster| (c.spec_text(), c.spec_width())) == line_clusters(line_view(line@)),
{
    let ghost lv = line_view(line@);
    let mut r: Vec<&Cluster> = Vec::new();
    let mut i: usize = 0;
    while i < line.len()
        invariant
            i <= line@.len(),
            lv == line_view(line@),
            r@.map_values(|c: &Cluster| (c.spec_text(), c.spec_width())) == line_clusters(lv.subrange(0, i as int)),
        decreases line@.len() - i,
    {
        assert(lv.subrange(0, i + 1).drop_last() =~= lv.subrange(0, i as int));
        let ghost before = r@;
        match line[i].cluster() {
            Some(cl) => {
                r.push(cl);
                assert(r@.map_values(|c: &Cluster| (c.spec_text(), c.spec_width())) =~= before.map_values(
                    |c: &Cluster| (c.spec_text(), c.spec_width()),
                ).push((cl.spec_text(), cl.spec_width())));
            },
            None => {},
        }
        i = i + 1;
    }
    assert(lv.subrange(0, line@.len() as int) =~= lv);
    r
}

} // verus!
