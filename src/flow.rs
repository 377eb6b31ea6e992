//! What a run of printable text does to an empty grid: each row takes
//! `cols` characters, the next one is dropped at the wrap, and once the rows
//! are used up every wrap scrolls the grid by one row.
use vstd::prelude::*;
use vstd::arithmetic::div_mod::lemma_fundamental_div_mod_converse;
use crate::grid::{GridModel, is_control_spec, empty_cells, write_spec, write_all, scrolled};

verus! {

/// No character of `s` is a control character (so none is a line break).
pub open spec fn printable(s: Seq<char>) -> bool {
    forall|i: int| 0 <= i < s.len() ==> !is_control_spec(#[trigger] s[i])
}

/// An empty `cols` by `rows` grid with the cursor at the top left.
pub open spec fn empty_grid(cols: nat, rows: nat) -> GridModel {
    GridModel { cols, rows, cells: empty_cells(cols, rows), cursor: (0, 0) }
}

/// Rows scrolled away after `t` printable characters: each line of text
/// takes `cols + 1` characters, and every line from the `rows`-th on ends in
/// a scroll.
pub open spec fn flow_shift(cols: nat, rows: nat, t: nat) -> nat {
    let lines = t / (cols + 1);
    if lines < rows {
        0
    } else {
        (lines - rows + 1) as nat
    }
}

/// Cell `(x, y)` after writing the first `t` characters of `s`: character
/// `x` of line `y + flow_shift`, if that line has reached column `x`.
pub open spec fn flow_cell(s: Seq<char>, cols: nat, rows: nat, t: nat, x: int, y: int) -> char {
    let p = cols + 1;
    let lines = t / p;
    let col = t % p;
    let k = y + flow_shift(cols, rows, t);
    if (k < lines && x < cols) || (k == lines && x < col) {
        s[k * p + x]
    } else {
        '\0'
    }
}

/// The grid after writing the first `t` characters of `s` matches the flow
/// description: its cells are `flow_cell`, its cursor sits after the last
/// character of the current line.
pub open spec fn flows_as(g: GridModel, s: Seq<char>, cols: nat, rows: nat, t: nat) -> bool {
    &&& g.cols == cols
    &&& g.rows == rows
    &&& g.cells.len() == cols * rows
    &&& g.cursor == (t % (cols + 1), (t / (cols + 1) - flow_shift(cols, rows, t)) as nat)
    &&& forall|x: int, y: int|
        0 <= x < cols && 0 <= y < rows ==> #[trigger] g.cell(x, y) == flow_cell(s, cols, rows, t, x, y)
}

proof fn lemma_flat(cols: nat, rows: nat, x: int, y: int)
    requires
        0 <= x < cols,
        0 <= y < rows,
    ensures
        y * cols + x < cols * rows,
        (y * cols + x) / (cols as int) == y,
        (y * cols + x) % (cols as int) == x,
        (y * cols + x) + cols == (y + 1) * cols + x,
        ((y * cols + x) + cols < cols * rows) == (y + 1 < rows),
{
    assert(y * cols + x < cols * rows) by (nonlinear_arith)
        requires
            0 <= x < cols,
            0 <= y < rows,
    ;
    lemma_fundamental_div_mod_converse(y * cols + x, cols as int, y, x);
    assert((y * cols + x) + cols == (y + 1) * cols + x) by (nonlinear_arith);
    if y + 1 < rows {
        assert((y + 1) * cols + x < cols * rows) by (nonlinear_arith)
            requires
                0 <= x < cols,
                y + 1 < rows,
        ;
    } else {
        assert((y + 1) * cols + x >= cols * rows) by (nonlinear_arith)
            requires
                0 <= x,
                y + 1 >= rows,
        ;
    }
}

proof fn lemma_flat_injective(cols: nat, rows: nat, x1: int, y1: int, x2: int, y2: int)
    requires
        0 <= x1 < cols,
        0 <= y1 < rows,
        0 <= x2 < cols,
        0 <= y2 < rows,
        y1 * cols + x1 == y2 * cols + x2,
    ensures
        x1 == x2,
        y1 == y2,
{
    lemma_flat(cols, rows, x1, y1);
    lemma_flat(cols, rows, x2, y2);
}

proof fn lemma_flow_step(s: Seq<char>, cols: nat, rows: nat, t: nat)
    requires
        cols >= 1,
        rows >= 2,
        t < s.len(),
        printable(s),
        flows_as(write_all(empty_grid(cols, rows), s.take(t as int)), s, cols, rows, t),
    ensures
        flows_as(write_all(empty_grid(cols, rows), s.take(t + 1 as int)), s, cols, rows, t + 1),
{
    let p = cols + 1;
    let g = write_all(empty_grid(cols, rows), s.take(t as int));
    assert(s.take(t + 1 as int).drop_last() =~= s.take(t as int));
    let c = s[t as int];
    assert(!is_control_spec(c));
    let g2 = write_spec(g, c);
    assert(write_all(empty_grid(cols, rows), s.take(t + 1 as int)) == g2);
    let lines = t / p;
    let col = t % p;
    let d = flow_shift(cols, rows, t);
    let y0 = lines - d;
    assert(0 <= y0 < rows);
    vstd::arithmetic::div_mod::lemma_fundamental_div_mod(t as int, p as int);
    assert(t == lines * p + col) by (nonlinear_arith)
        requires
            t == p * (t / p) + t % p,
            lines == t / p,
            col == t % p,
    ;
    if col < cols {
        lemma_fundamental_div_mod_converse(t + 1 as int, p as int, lines as int, col + 1 as int);
        assert(flow_shift(cols, rows, t + 1) == d);
        lemma_flat(cols, rows, col as int, y0);
        assert forall|x: int, y: int| 0 <= x < cols && 0 <= y < rows implies #[trigger] g2.cell(x, y)
            == flow_cell(s, cols, rows, t + 1, x, y) by {
            lemma_flat(cols, rows, x, y);
            if x == col && y == y0 {
            } else {
                if y * cols + x == y0 * cols + col {
                    lemma_flat_injective(cols, rows, x, y, col as int, y0);
                }
                assert(g2.cell(x, y) == g.cell(x, y));
            }
        }
    } else {
        assert(t + 1 == (lines + 1) * p) by (nonlinear_arith)
            requires
                t == lines * p + col,
                col == cols,
                p == cols + 1,
        ;
        lemma_fundamental_div_mod_converse(t + 1 as int, p as int, lines + 1 as int, 0);
        if lines + 1 < rows {
            assert(flow_shift(cols, rows, t + 1) == 0);
            assert forall|x: int, y: int| 0 <= x < cols && 0 <= y < rows implies #[trigger] g2.cell(
                x,
                y,
            ) == flow_cell(s, cols, rows, t + 1, x, y) by {
                assert(g2.cell(x, y) == g.cell(x, y));
            }
        } else {
            assert(flow_shift(cols, rows, t + 1) == d + 1);
            assert(y0 == rows - 1);
            assert(g2.cells == scrolled(cols, rows, g.cells));
            assert forall|x: int, y: int| 0 <= x < cols && 0 <= y < rows implies #[trigger] g2.cell(
                x,
                y,
            ) == flow_cell(s, cols, rows, t + 1, x, y) by {
                lemma_flat(cols, rows, x, y);
                if y + 1 < rows {
                    assert(g2.cell(x, y) == g.cell(x, y + 1));
                } else {
                    assert(g2.cell(x, y) == '\0');
                }
            }
        }
    }
}

/// Writing printable text into an empty grid of at least one column and two
/// rows follows the flow description after every prefix.
pub proof fn lemma_flow(s: Seq<char>, cols: nat, rows: nat, t: nat)
    requires
        cols >= 1,
        rows >= 2,
        t <= s.len(),
        printable(s),
    ensures
        flows_as(write_all(empty_grid(cols, rows), s.take(t as int)), s, cols, rows, t),
    decreases t,
{
    if t == 0 {
        assert(s.take(0) =~= Seq::<char>::empty());
        let g = empty_grid(cols, rows);
        assert(write_all(g, s.take(0)) == g);
        assert forall|x: int, y: int| 0 <= x < cols && 0 <= y < rows implies #[trigger] g.cell(x, y)
            == flow_cell(s, cols, rows, 0, x, y) by {
            lemma_flat(cols, rows, x, y);
        }
    } else {
        lemma_flow(s, cols, rows, (t - 1) as nat);
        lemma_flow_step(s, cols, rows, (t - 1) as nat);
    }
}

/// Writing exactly `cols * (rows + 1)` printable characters into an empty
/// grid with at least two rows and at least as many columns as rows scrolls
/// the first `cols` characters off the grid: none of them is left in any
/// cell unless it is written again later. The last row then holds the last
/// `cols - rows` characters (every other line lost one at its wrap) followed by
/// empty cells, and the cursor stands right after them.
pub proof fn lemma_first_row_scrolled_off(s: Seq<char>, cols: nat, rows: nat)
    requires
        rows >= 2,
        cols >= rows,
        s.len() == cols * (rows + 1),
        printable(s),
    ensures
        ({
            let g = write_all(empty_grid(cols, rows), s);
            &&& forall|i: int, x: int, y: int|
                #![trigger g.cell(x, y), s[i]]
                0 <= i < cols && 0 <= x < cols && 0 <= y < rows && (forall|j: int|
                    cols <= j < s.len() ==> s[j] != s[i]) ==> g.cell(x, y) != s[i]
            &&& forall|x: int|
                0 <= x < cols ==> #[trigger] g.cell(x, rows - 1) == (if x < cols - rows {
                    s[s.len() - (cols - rows) + x]
                } else {
                    '\0'
                })
            &&& g.cursor == ((cols - rows) as nat, (rows - 1) as nat)
        }),
{
    let t = s.len();
    let p = cols + 1;
    assert(s.take(t as int) =~= s);
    lemma_flow(s, cols, rows, t);
    let g = write_all(empty_grid(cols, rows), s);
    assert(t == rows * p + (cols - rows)) by (nonlinear_arith)
        requires
            t == cols * (rows + 1),
            p == cols + 1,
            cols >= rows,
    ;
    lemma_fundamental_div_mod_converse(t as int, p as int, rows as int, cols - rows);
    assert(flow_shift(cols, rows, t) == 1);
    assert(cols <= t) by (nonlinear_arith)
        requires
            t == cols * (rows + 1),
    ;
    assert forall|i: int, x: int, y: int|
        #![trigger g.cell(x, y), s[i]]
        0 <= i < cols && 0 <= x < cols && 0 <= y < rows && (forall|j: int|
            cols <= j < s.len() ==> s[j] != s[i]) implies g.cell(x, y) != s[i] by {
        assert(!is_control_spec(s[i]));
        let k = y + 1;
        if (k < rows && x < cols) || (k == rows && x < cols - rows) {
            assert(k * p + x >= p) by (nonlinear_arith)
                requires
                    k >= 1,
                    x >= 0,
            ;
            if k < rows {
                assert((k + 1) * p <= rows * p) by (nonlinear_arith)
                    requires
                        k + 1 <= rows,
                ;
                assert((k + 1) * p == k * p + p) by (nonlinear_arith);
            }
            assert(k * p + x < t);
        }
    }
}

} // verus!
