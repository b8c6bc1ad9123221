//! Grid items: per-child column and row spans.

use vstd::prelude::*;

verus! {

/// Span configuration for a grid item.
#[derive(Debug, Clone, Copy, PartialEq, Eq, Structural)]
pub struct GridSpan {
    pub col_span: usize,
    pub row_span: usize,
}

impl Default for GridSpan {
    /// A single cell.
    fn default() -> (r: Self)
        ensures
            r.col_span == 1,
            r.row_span == 1,
    {
        GridSpan { col_span: 1, row_span: 1 }
    }
}

/// Per-child grid placement.
#[derive(Debug, Clone, Copy, PartialEq, Eq, Structural)]
pub struct GridItem {
    pub index: usize,
    pub span: GridSpan,
}

impl GridItem {
    /// The child at `index`, spanning a single cell.
    pub fn new(index: usize) -> (r: Self)
        ensures
            r.index == index,
            r.span.col_span == 1,
            r.span.row_span == 1,
    {
        GridItem { index, span: GridSpan::default() }
    }

    pub fn col_span(self, span: usize) -> (r: Self)
        ensures
            r.index == self.index,
            r.span.col_span == span,
            r.span.row_span == self.span.row_span,
    {
        GridItem { index: self.index, span: GridSpan { col_span: span, row_span: self.span.row_span } }
    }

    pub fn row_span(self, span: usize) -> (r: Self)
        ensures
            r.index == self.index,
            r.span.col_span == self.span.col_span,
            r.span.row_span == span,
    {
        GridItem { index: self.index, span: GridSpan { col_span: self.span.col_span, row_span: span } }
    }
}

} // verus!

verus! {

/// The cell block given to one child of a grid: its top-left column and
/// row and the number of columns and rows it covers.
#[derive(Debug, Clone, Copy, PartialEq, Eq, Structural)]
pub struct GridCell {
    pub col: usize,
    pub row: usize,
    pub col_span: usize,
    pub row_span: usize,
}

/// The span declared for child `index`: that of the first item naming
/// it, or a single cell when no item does.
pub open spec fn declared_span(items: Seq<GridItem>, index: int) -> GridSpan
    decreases items.len(),
{
    if items.len() == 0 {
        GridSpan { col_span: 1, row_span: 1 }
    } else if items[0].index == index {
        items[0].span
    } else {
        declared_span(items.drop_first(), index)
    }
}

/// The smaller of two integers.
pub open spec fn min_int(a: int, b: int) -> int {
    if a <= b {
        a
    } else {
        b
    }
}

/// The cursor (column, row) at which child `n` is placed: children fill
/// the grid row by row, each taking its declared column span clipped to
/// the columns left in the row, and a row that is filled wraps to the next.
pub open spec fn grid_cursor(columns: int, items: Seq<GridItem>, n: nat) -> (int, int)
    decreases n,
{
    if n == 0 {
        (0, 0)
    } else {
        let (col, row) = grid_cursor(columns, items, (n - 1) as nat);
        let cs = min_int(declared_span(items, n - 1).col_span as int, columns - col);
        if col + cs >= columns {
            (0, row + 1)
        } else {
            (col + cs, row)
        }
    }
}

/// The number of rows left from `row` on: none once the cursor is past
/// the last row.
pub open spec fn rows_left(rows: int, row: int) -> int {
    if row >= rows {
        0
    } else {
        rows - row
    }
}

/// The cell block of child `i`: at the cursor, with the declared spans
/// clipped to the columns and rows left (a child placed past the last row
/// spans no rows).
pub open spec fn grid_cell(columns: int, rows: int, items: Seq<GridItem>, i: nat) -> (int, int, int, int) {
    let (col, row) = grid_cursor(columns, items, i);
    let span = declared_span(items, i as int);
    (col, row, min_int(span.col_span as int, columns - col), min_int(span.row_span as int, rows_left(rows, row)))
}

proof fn lemma_cursor_in_row(columns: int, items: Seq<GridItem>, n: nat)
    requires
        columns >= 1,
    ensures
        0 <= grid_cursor(columns, items, n).0 < columns,
        0 <= grid_cursor(columns, items, n).1 <= n,
    decreases n,
{
    if n > 0 {
        lemma_cursor_in_row(columns, items, (n - 1) as nat);
    }
}

fn span_for(items: &Vec<GridItem>, index: usize) -> (r: GridSpan)
    ensures
        r == declared_span(items@, index as int),
{
    let mut k: usize = 0;
    assert(items@.skip(0) =~= items@);
    while k < items.len()
        invariant
            k <= items@.len(),
            declared_span(items@, index as int) == declared_span(items@.skip(k as int), index as int),
        decreases items.len() - k,
    {
        proof {
            assert(items@.skip(k as int).drop_first() =~= items@.skip(k + 1));
        }
        if items[k].index == index {
            return items[k].span;
        }
        k = k + 1;
    }
    proof {
        assert(items@.skip(k as int).len() == 0);
    }
    GridSpan::default()
}

/// Places `count` children on a grid of `columns` × `rows` cells, using the
/// spans declared by `items`: one cell block per child. Children placed
/// past the last row get blocks that span no rows.
pub fn grid_placements(columns: usize, rows: usize, items: &Vec<GridItem>, count: usize) -> (cells:
    Vec<GridCell>)
    requires
        columns >= 1,
    ensures
        cells@.len() == count,
        forall|i: int|
            0 <= i < count ==> {
                let (c, w, cs, rs) = grid_cell(columns as int, rows as int, items@, i as nat);
                &&& (#[trigger] cells@[i]).col == c
                &&& cells@[i].row == w
                &&& cells@[i].col_span == cs
                &&& cells@[i].row_span == rs
            },
{
    let mut cells: Vec<GridCell> = Vec::new();
    let mut col: usize = 0;
    let mut row: usize = 0;
    let mut i: usize = 0;
    while i < count
        invariant
            columns >= 1,
            i <= count,
            cells@.len() == i,
            (col as int, row as int) == grid_cursor(columns as int, items@, i as nat),
            forall|j: int|
                0 <= j < i ==> {
                    let (c, w, cs, rs) = grid_cell(columns as int, rows as int, items@, j as nat);
                    &&& (#[trigger] cells@[j]).col == c
                    &&& cells@[j].row == w
                    &&& cells@[j].col_span == cs
                    &&& cells@[j].row_span == rs
                },
        decreases count - i,
    {
        proof {
            lemma_cursor_in_row(columns as int, items@, i as nat);
        }
        let span = span_for(items, i);
        let cs = if span.col_span < columns - col {
            span.col_span
        } else {
            columns - col
        };
        let left = if row >= rows {
            0
        } else {
            rows - row
        };
        let rs = if span.row_span < left {
            span.row_span
        } else {
            left
        };
        let ghost before = cells@;
        cells.push(GridCell { col, row, col_span: cs, row_span: rs });
        assert forall|j: int| 0 <= j < i + 1 implies {
            let (c, w, cs2, rs2) = grid_cell(columns as int, rows as int, items@, j as nat);
            &&& (#[trigger] cells@[j]).col == c
            &&& cells@[j].row == w
            &&& cells@[j].col_span == cs2
            &&& cells@[j].row_span == rs2
        } by {
            if j < i {
                assert(cells@[j] == before[j]);
            }
        }
        if col + cs >= columns {
            col = 0;
            row = row + 1;
        } else {
            col = col + cs;
        }
        i = i + 1;
    }
    cells
}

/// Children flow through the grid row by row without overlapping: the
/// first child starts at the top-left cell; each child's block starts at
/// its cursor and stays inside the grid's columns (and rows, while the
/// cursor is on the grid); a child keeps its declared column and row spans
/// when they fit; and the next child starts right after it in the same
/// row, or at the start of the next row once the row is full.
pub proof fn lemma_grid_flow(columns: int, rows: int, items: Seq<GridItem>, i: nat)
    requires
        columns >= 1,
    ensures
        grid_cell(columns, rows, items, 0).0 == 0,
        grid_cell(columns, rows, items, 0).1 == 0,
        ({
            let (c, w, cs, rs) = grid_cell(columns, rows, items, i);
            let (c2, w2, _cs2, _rs2) = grid_cell(columns, rows, items, i + 1);
            let span = declared_span(items, i as int);
            &&& 0 <= c < columns
            &&& 0 <= w <= i
            &&& 0 <= cs && c + cs <= columns
            &&& span.col_span <= columns - c ==> cs == span.col_span
            &&& w < rows ==> 0 <= rs && w + rs <= rows && (span.row_span <= rows - w ==> rs
                == span.row_span)
            &&& w >= rows ==> rs == 0
            &&& c + cs < columns ==> c2 == c + cs && w2 == w
            &&& c + cs >= columns ==> c2 == 0 && w2 == w + 1
        }),
{
    lemma_cursor_in_row(columns, items, i);
}

/// The span declared for a child is that of the first item naming it.
pub proof fn lemma_declared_span_first_item(items: Seq<GridItem>, index: int, k: int)
    requires
        0 <= k < items.len(),
        items[k].index == index,
        forall|j: int| 0 <= j < k ==> (#[trigger] items[j]).index != index,
    ensures
        declared_span(items, index) == items[k].span,
    decreases k,
{
    if k > 0 {
        let rest = items.drop_first();
        assert(items[0].index != index);
        assert(rest[k - 1] == items[k]);
        assert forall|j: int| 0 <= j < k - 1 implies (#[trigger] rest[j]).index != index by {
            assert(rest[j] == items[j + 1]);
        }
        lemma_declared_span_first_item(rest, index, k - 1);
    }
}

/// A child that no item names spans a single cell.
pub proof fn lemma_declared_span_default(items: Seq<GridItem>, index: int)
    requires
        forall|k: int| 0 <= k < items.len() ==> (#[trigger] items[k]).index != index,
    ensures
        declared_span(items, index).col_span == 1,
        declared_span(items, index).row_span == 1,
    decreases items.len(),
{
    if items.len() > 0 {
        let rest = items.drop_first();
        assert forall|k: int| 0 <= k < rest.len() implies (#[trigger] rest[k]).index != index by {
            assert(rest[k] == items[k + 1]);
        }
        lemma_declared_span_default(rest, index);
    }
}

proof fn lemma_plain_cursor(columns: int, n: nat)
    requires
        columns >= 1,
    ensures
        grid_cursor(columns, Seq::<GridItem>::empty(), n) == ((n as int) % columns, (n as int) / columns),
    decreases n,
{
    if n == 0 {
        vstd::arithmetic::div_mod::lemma_fundamental_div_mod_converse(0, columns, 0, 0);
    } else {
        let m = (n - 1) as nat;
        lemma_plain_cursor(columns, m);
        vstd::arithmetic::div_mod::lemma_fundamental_div_mod(m as int, columns);
        let q = (m as int) / columns;
        let r = (m as int) % columns;
        if r + 1 < columns {
            vstd::arithmetic::div_mod::lemma_fundamental_div_mod_converse(n as int, columns, q, r + 1);
        } else {
            assert(n == (q + 1) * columns) by (nonlinear_arith)
                requires
                    m == columns * q + r,
                    r + 1 == columns,
                    n == m + 1,
            ;
            vstd::arithmetic::div_mod::lemma_fundamental_div_mod_converse(n as int, columns, q + 1, 0);
        }
    }
}

/// Without declared spans every child takes one cell, in reading order:
/// child `i` is at column `i mod columns` of row `(i as int) / columns`, one column
/// wide and one row high while that row is on the grid.
pub proof fn lemma_grid_without_items(columns: int, rows: int, i: nat)
    requires
        columns >= 1,
    ensures
        grid_cell(columns, rows, Seq::<GridItem>::empty(), i) == (
            (i as int) % columns,
            (i as int) / columns,
            1int,
            if (i as int) / columns < rows {
                1int
            } else {
                0int
            },
        ),
{
    lemma_plain_cursor(columns, i);
    vstd::arithmetic::div_mod::lemma_fundamental_div_mod(i as int, columns);
}

} // verus!
