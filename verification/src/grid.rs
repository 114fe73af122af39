//! The grid builder: the rows × cols set of nodes laid out once over the
//! padded window, in row-major order.
//!
//! The layout deliberately pairs the row index with the column spacing and
//! the column index with the row spacing, which skews the grid; this
//! cross-use is part of the contract, not a mistake.

use vstd::prelude::*;

use crate::math::COORD_LIMIT;
use crate::node::{Dir, Node, spec_white};
use crate::rect::Rect;

verus! {

/// Inward padding (milli-units) applied to the window before the grid is
/// laid out.
pub const GRID_PAD: i64 = 200_000;

/// Largest window coordinate magnitude (milli-units) the builder accepts.
pub const WIN_LIMIT: i64 = 1_000_000;

/// Most rows or columns the builder accepts.
pub const GRID_MAX: usize = 500;

/// A window suitable for grid construction: well-formed, within the builder
/// limits, and wide and tall enough to survive the inward padding.
pub open spec fn win_ok(win: Rect) -> bool {
    &&& win.wf()
    &&& -1_000_000 <= win.left
    &&& win.right <= 1_000_000
    &&& -1_000_000 <= win.bottom
    &&& win.top <= 1_000_000
    &&& win.left + 400_000 <= win.right
    &&& win.bottom + 400_000 <= win.top
}

/// Horizontal spacing between columns: padded width over cols - 1.
pub open spec fn spec_col_gap(win: Rect, cols: int) -> int {
    ((win.right - 200_000) - (win.left + 200_000)) / (cols - 1)
}

/// Vertical spacing between rows: padded height over rows - 1.
pub open spec fn spec_row_gap(win: Rect, rows: int) -> int {
    ((win.top - 200_000) - (win.bottom + 200_000)) / (rows - 1)
}

/// The resting x of the cell in row `row` (any column): the padded left
/// edge advanced `row` *column* gaps — the deliberate cross-use.
pub open spec fn spec_center_x(win: Rect, cols: int, row: int) -> int {
    win.left + 200_000 + row * spec_col_gap(win, cols)
}

/// The resting y of the cell in column `col` (any row): the padded bottom
/// edge advanced `col` *row* gaps — the deliberate cross-use.
pub open spec fn spec_center_y(win: Rect, rows: int, col: int) -> int {
    win.bottom + 200_000 + col * spec_row_gap(win, rows)
}

/// The node at flat row-major index `i`: resting center from the grid
/// layout, rendered position displaced by the orbit radius along the
/// bearing `dirs[i]`, the given starting radius, solid white.
pub open spec fn spec_grid_node(
    win: Rect,
    rows: int,
    cols: int,
    dirs: Seq<Dir>,
    radius: i64,
    i: int,
) -> Node {
    let cx = spec_center_x(win, cols, i / cols);
    let cy = spec_center_y(win, rows, i % cols);
    Node {
        center_x: cx as i64,
        center_y: cy as i64,
        x: (cx + 30 * dirs[i].sin) as i64,
        y: (cy + 30 * dirs[i].cos) as i64,
        radius,
        color: spec_white(),
    }
}

/// Gaps are nonnegative and no wider than the window, and every resting
/// center stays within the simulation coordinate limit.
pub proof fn lemma_grid_bounds(win: Rect, rows: int, cols: int, row: int, col: int)
    requires
        win_ok(win),
        2 <= rows <= 500,
        2 <= cols <= 500,
        0 <= row < rows,
        0 <= col < cols,
    ensures
        0 <= spec_col_gap(win, cols) <= 2_000_000,
        0 <= spec_row_gap(win, rows) <= 2_000_000,
        -COORD_LIMIT <= spec_center_x(win, cols, row) <= COORD_LIMIT,
        -COORD_LIMIT <= spec_center_y(win, rows, col) <= COORD_LIMIT,
{
    let w = (win.right - 200_000) - (win.left + 200_000);
    let h = (win.top - 200_000) - (win.bottom + 200_000);
    vstd::arithmetic::div_mod::lemma_div_pos_is_pos(w, cols - 1);
    vstd::arithmetic::div_mod::lemma_div_pos_is_pos(h, rows - 1);
    vstd::arithmetic::div_mod::lemma_div_nonincreasing(w, cols - 1);
    vstd::arithmetic::div_mod::lemma_div_nonincreasing(h, rows - 1);
    assert(0 <= row * spec_col_gap(win, cols) <= 499 * 2_000_000) by (nonlinear_arith)
        requires
            0 <= row <= 499,
            0 <= spec_col_gap(win, cols) <= 2_000_000,
    ;
    assert(0 <= col * spec_row_gap(win, rows) <= 499 * 2_000_000) by (nonlinear_arith)
        requires
            0 <= col <= 499,
            0 <= spec_row_gap(win, rows) <= 2_000_000,
    ;
}

/// Lays out the resting centers of a rows × cols grid over the padded
/// window, flattened in row-major order: entry `row * cols + col` is
/// (center_x of `row`, center_y of `col`).
pub fn grid_centers(rows: usize, cols: usize, win: Rect) -> (r: Vec<(i64, i64)>)
    requires
        win_ok(win),
        2 <= rows <= 500,
        2 <= cols <= 500,
    ensures
        r@.len() == rows * cols,
        forall|i: int| 0 <= i < r@.len() ==> #[trigger] r@[i]
            == ((spec_center_x(win, cols as int, i / (cols as int)) as i64,
                 spec_center_y(win, rows as int, i % (cols as int)) as i64)),
{
    let win_p = win.pad(GRID_PAD);
    let x_gap: i64 = (win_p.right - win_p.left) / (cols as i64 - 1);
    let y_gap: i64 = (win_p.top - win_p.bottom) / (rows as i64 - 1);
    let mut out: Vec<(i64, i64)> = Vec::new();
    let mut row: usize = 0;
    while row < rows
        invariant
            win_ok(win),
            2 <= rows <= 500,
            2 <= cols <= 500,
            row <= rows,
            x_gap == spec_col_gap(win, cols as int),
            y_gap == spec_row_gap(win, rows as int),
            win_p.left == win.left + 200_000,
            win_p.bottom == win.bottom + 200_000,
            out@.len() == row * cols,
            forall|i: int| 0 <= i < out@.len() ==> #[trigger] out@[i]
                == ((spec_center_x(win, cols as int, i / (cols as int)) as i64,
                     spec_center_y(win, rows as int, i % (cols as int)) as i64)),
        decreases rows - row,
    {
        let mut col: usize = 0;
        while col < cols
            invariant
                win_ok(win),
                2 <= rows <= 500,
                2 <= cols <= 500,
                row < rows,
                col <= cols,
                x_gap == spec_col_gap(win, cols as int),
                y_gap == spec_row_gap(win, rows as int),
                win_p.left == win.left + 200_000,
                win_p.bottom == win.bottom + 200_000,
                out@.len() == row * cols + col,
                forall|i: int| 0 <= i < out@.len() ==> #[trigger] out@[i]
                    == ((spec_center_x(win, cols as int, i / (cols as int)) as i64,
                         spec_center_y(win, rows as int, i % (cols as int)) as i64)),
            decreases cols - col,
        {
            proof {
                lemma_grid_bounds(win, rows as int, cols as int, row as int, col as int);
                assert(row * cols + col < rows * cols) by (nonlinear_arith)
                    requires
                        0 <= row < rows,
                        0 <= col < cols,
                ;
                vstd::arithmetic::div_mod::lemma_fundamental_div_mod_converse_div(
                    row * cols + col, cols as int, row as int, col as int);
                vstd::arithmetic::div_mod::lemma_fundamental_div_mod_converse_mod(
                    row * cols + col, cols as int, row as int, col as int);
            }
            let cx: i64 = win_p.left + (row as i64) * x_gap;
            let cy: i64 = win_p.bottom + (col as i64) * y_gap;
            out.push((cx, cy));
            col = col + 1;
        }
        row = row + 1;
        proof {
            assert((row - 1) * cols + cols == row * cols) by (nonlinear_arith);
        }
    }
    proof {
        assert(out@.len() == rows * cols);
    }
    out
}

/// Builds the full grid of nodes: resting centers from `grid_centers`, each
/// node's starting position displaced along its bearing in `dirs`, starting
/// radius `radius`, all white. Row-major: node `row * cols + col` belongs
/// to that row and column.
pub fn create_nodes(rows: usize, cols: usize, win: Rect, dirs: &Vec<Dir>, radius: i64) -> (r: Vec<
    Node,
>)
    requires
        win_ok(win),
        2 <= rows <= 500,
        2 <= cols <= 500,
        dirs@.len() == rows * cols,
        forall|i: int| 0 <= i < dirs@.len() ==> (#[trigger] dirs@[i]).wf(),
        0 <= radius,
    ensures
        r@.len() == rows * cols,
        forall|i: int| 0 <= i < r@.len() ==> #[trigger] r@[i]
            == spec_grid_node(win, rows as int, cols as int, dirs@, radius, i),
        forall|i: int| 0 <= i < r@.len() ==> (#[trigger] r@[i]).wf(),
{
    let centers = grid_centers(rows, cols, win);
    let mut out: Vec<Node> = Vec::new();
    let n = centers.len();
    let mut i: usize = 0;
    while i < n
        invariant
            win_ok(win),
            2 <= rows <= 500,
            2 <= cols <= 500,
            n == rows * cols,
            centers@.len() == n,
            dirs@.len() == n,
            forall|j: int| 0 <= j < n ==> (#[trigger] dirs@[j]).wf(),
            forall|j: int| 0 <= j < n ==> #[trigger] centers@[j]
                == ((spec_center_x(win, cols as int, j / (cols as int)) as i64,
                     spec_center_y(win, rows as int, j % (cols as int)) as i64)),
            0 <= radius,
            i <= n,
            out@.len() == i,
            forall|j: int| 0 <= j < i ==> #[trigger] out@[j]
                == spec_grid_node(win, rows as int, cols as int, dirs@, radius, j),
            forall|j: int| 0 <= j < i ==> (#[trigger] out@[j]).wf(),
        decreases n - i,
    {
        proof {
            vstd::arithmetic::div_mod::lemma_mod_division_less_than_divisor(i as int, cols as int);
            vstd::arithmetic::div_mod::lemma_div_pos_is_pos(i as int, cols as int);
            vstd::arithmetic::div_mod::lemma_fundamental_div_mod(i as int, cols as int);
            assert((i as int) / (cols as int) < rows as int) by (nonlinear_arith)
                requires
                    0 <= (i as int) / (cols as int),
                    0 <= (i as int) % (cols as int),
                    0 < cols as int,
                    (i as int) < (rows as int) * (cols as int),
                    i as int == (cols as int) * ((i as int) / (cols as int)) + (i as int) % (
                    cols as int),
            ;
            lemma_grid_bounds(
                win,
                rows as int,
                cols as int,
                (i as int) / (cols as int),
                (i as int) % (cols as int),
            );
        }
        let (cx, cy) = (centers[i].0, centers[i].1);
        let dir = dirs[i];
        let x: i64 = cx + 30 * dir.sin;
        let y: i64 = cy + 30 * dir.cos;
        let node = Node::new(cx, cy, x, y, radius);
        out.push(node);
        i = i + 1;
    }
    out
}

/// The reason a grid configuration is rejected.
#[derive(Clone, Copy, PartialEq, Eq, Structural, Debug)]
pub enum GridError {
    TooFewRows,
    TooFewCols,
}

/// Checked grid construction: rejects configurations with fewer than two
/// rows or columns (the spacing arithmetic would divide by zero), and
/// otherwise builds exactly the `create_nodes` grid.
pub fn build_grid(rows: usize, cols: usize, win: Rect, dirs: &Vec<Dir>, radius: i64) -> (r:
    Result<Vec<Node>, GridError>)
    requires
        win_ok(win),
        rows <= 500,
        cols <= 500,
        dirs@.len() == rows * cols,
        forall|i: int| 0 <= i < dirs@.len() ==> (#[trigger] dirs@[i]).wf(),
        0 <= radius,
    ensures
        rows < 2 ==> r == Result::<Vec<Node>, GridError>::Err(GridError::TooFewRows),
        rows >= 2 && cols < 2 ==> r == Result::<Vec<Node>, GridError>::Err(GridError::TooFewCols),
        rows >= 2 && cols >= 2 ==> (r matches Result::Ok(nodes) && nodes@.len() == rows * cols
            && (forall|i: int| 0 <= i < nodes@.len() ==> #[trigger] nodes@[i]
                == spec_grid_node(win, rows as int, cols as int, dirs@, radius, i))),
{
    if rows < 2 {
        Err(GridError::TooFewRows)
    } else if cols < 2 {
        Err(GridError::TooFewCols)
    } else {
        Ok(create_nodes(rows, cols, win, dirs, radius))
    }
}

} // verus!
