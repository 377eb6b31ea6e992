//! The character grid: a row-major buffer of cells with a write cursor.
use vstd::prelude::*;

verus! {

/// The grid as a mathematical value: dimensions, the row-major cells and the
/// cursor as `(column, row)`.
pub struct GridModel {
    pub cols: nat,
    pub rows: nat,
    pub cells: Seq<char>,
    pub cursor: (nat, nat),
}

impl GridModel {
    /// The value of cell `(x, y)`.
    pub open spec fn cell(self, x: int, y: int) -> char {
        self.cells[y * self.cols + x]
    }

    /// Whether `(x, y)` names a cell of the grid.
    pub open spec fn in_bounds(self, x: int, y: int) -> bool {
        0 <= x < self.cols && 0 <= y < self.rows
    }
}

/// A control character: general category Cc, U+0000..=U+001F and U+007F..=U+009F.
pub open spec fn is_control_spec(c: char) -> bool {
    (c as u32) <= 0x1f || (0x7f <= (c as u32) && (c as u32) <= 0x9f)
}

/// A grid of `cols * rows` empty cells.
pub open spec fn empty_cells(cols: nat, rows: nat) -> Seq<char> {
    Seq::new(cols * rows, |i: int| '\0')
}

/// The cells after one scroll: each row takes the contents of the row below
/// it and the last row becomes empty. A grid of at most one row is unchanged.
pub open spec fn scrolled(cols: nat, rows: nat, cells: Seq<char>) -> Seq<char> {
    if rows <= 1 {
        cells
    } else {
        Seq::new(
            cells.len(),
            |i: int|
                if i + cols < cells.len() {
                    cells[i + cols]
                } else {
                    '\0'
                },
        )
    }
}

/// The grid after writing one character at the cursor.
pub open spec fn write_spec(m: GridModel, c: char) -> GridModel {
    let x = m.cursor.0;
    let y = m.cursor.1;
    let placed = if !is_control_spec(c) && m.in_bounds(x as int, y as int) {
        m.cells.update((y * m.cols + x) as int, c)
    } else {
        m.cells
    };
    let wrap = c == '\n' || x >= m.cols;
    let nx: nat = if wrap { 0 } else { x + 1 };
    let ny: nat = if wrap { y + 1 } else { y };
    if ny >= m.rows {
        GridModel {
            cols: m.cols,
            rows: m.rows,
            cells: scrolled(m.cols, m.rows, placed),
            cursor: (0, if m.rows == 0 { 0 } else { (m.rows - 1) as nat }),
        }
    } else {
        GridModel { cols: m.cols, rows: m.rows, cells: placed, cursor: (nx, ny) }
    }
}

/// The grid after writing each character of `s` in turn.
pub open spec fn write_all(m: GridModel, s: Seq<char>) -> GridModel
    decreases s.len(),
{
    if s.len() == 0 {
        m
    } else {
        write_spec(write_all(m, s.drop_last()), s.last())
    }
}

/// The cells of a `cols` by `rows` grid that keeps the overlap with `m`.
pub open spec fn reflowed(m: GridModel, cols: nat, rows: nat) -> Seq<char> {
    Seq::new(
        cols * rows,
        |i: int|
            {
                let x = i % (cols as int);
                let y = i / (cols as int);
                if m.in_bounds(x, y) {
                    m.cell(x, y)
                } else {
                    '\0'
                }
            },
    )
}

proof fn lemma_cell_index(cols: nat, rows: nat, x: nat, y: nat)
    requires
        x < cols,
        y < rows,
    ensures
        y * cols + x < cols * rows,
{
    assert(y * cols + x < cols * rows) by (nonlinear_arith)
        requires
            x < cols,
            y < rows,
    ;
}

/// A grid of characters, stored row-major; `'\0'` marks an empty cell.
pub struct CharGrid {
    cols: usize,
    rows: usize,
    cells: Vec<char>,
    cursor: [usize; 2],
}

impl View for CharGrid {
    type V = GridModel;

    closed spec fn view(&self) -> GridModel {
        GridModel {
            cols: self.cols as nat,
            rows: self.rows as nat,
            cells: self.cells@,
            cursor: (self.cursor[0] as nat, self.cursor[1] as nat),
        }
    }
}

/// Whether `c` is a control character.
pub fn is_control(c: char) -> (r: bool)
    ensures
        r == is_control_spec(c),
{
    let v = c as u32;
    v <= 0x1f || (0x7f <= v && v <= 0x9f)
}

impl CharGrid {
    /// The cell buffer holds exactly one value per cell, and the cell count
    /// fits in `usize`.
    pub open spec fn wf(&self) -> bool {
        &&& self@.cells.len() == self@.cols * self@.rows
        &&& self@.cols * self@.rows <= usize::MAX
    }

    /// An empty grid of `cols` columns and `rows` rows, cursor at `(0, 0)`.
    pub fn new(cols: usize, rows: usize) -> (r: CharGrid)
        requires
            cols * rows <= usize::MAX,
        ensures
            r.wf(),
            r@.cols == cols,
            r@.rows == rows,
            r@.cells == empty_cells(cols as nat, rows as nat),
            r@.cursor == (0nat, 0nat),
    {
        let n = cols * rows;
        let mut cells: Vec<char> = Vec::new();
        let mut i: usize = 0;
        while i < n
            invariant
                i <= n,
                cells@ == Seq::new(i as nat, |j: int| '\0'),
            decreases n - i,
        {
            cells.push('\0');
            i = i + 1;
            assert(cells@ =~= Seq::new(i as nat, |j: int| '\0'));
        }
        assert(cells@ =~= empty_cells(cols as nat, rows as nat));
        CharGrid { cols, rows, cells, cursor: [0, 0] }
    }

    /// Number of columns.
    pub fn cols(&self) -> (r: usize)
        ensures
            r == self@.cols,
    {
        self.cols
    }

    /// Number of rows.
    pub fn rows(&self) -> (r: usize)
        ensures
            r == self@.rows,
    {
        self.rows
    }

    /// The cursor as `[column, row]`.
    pub fn cursor(&self) -> (r: [usize; 2])
        ensures
            r[0] == self@.cursor.0,
            r[1] == self@.cursor.1,
    {
        self.cursor
    }

    /// Moves the cursor anywhere, inside the grid or not.
    pub fn set_cursor(&mut self, cursor: [usize; 2])
        ensures
            final(self)@ == (GridModel {
                cursor: (cursor[0] as nat, cursor[1] as nat),
                ..old(self)@
            }),
    {
        self.cursor = cursor;
    }

    /// The value of cell `(x, y)`, or `None` outside the grid.
    pub fn get(&self, x: usize, y: usize) -> (r: Option<char>)
        requires
            self.wf(),
        ensures
            r == (if self@.in_bounds(x as int, y as int) {
                Some(self@.cell(x as int, y as int))
            } else {
                None
            }),
    {
        if x < self.cols && y < self.rows {
            let _n = self.cells.len();
            proof {
                lemma_cell_index(self.cols as nat, self.rows as nat, x as nat, y as nat);
            }
            Some(self.cells[y * self.cols + x])
        } else {
            None
        }
    }

    /// Stores `c` in cell `(x, y)` and returns true; outside the grid it
    /// changes nothing and returns false.
    pub fn set(&mut self, x: usize, y: usize, c: char) -> (r: bool)
        requires
            old(self).wf(),
        ensures
            r == old(self)@.in_bounds(x as int, y as int),
            final(self).wf(),
            final(self)@ == (if r {
                GridModel {
                    cells: old(self)@.cells.update(y * old(self)@.cols + x, c),
                    ..old(self)@
                }
            } else {
                old(self)@
            }),
    {
        if x < self.cols && y < self.rows {
            let _n = self.cells.len();
            proof {
                lemma_cell_index(self.cols as nat, self.rows as nat, x as nat, y as nat);
            }
            let idx = y * self.cols + x;
            self.cells[idx] = c;
            true
        } else {
            false
        }
    }

    /// Moves every row up by one, dropping the top row and emptying the last.
    /// A grid of at most one row is left as it is.
    pub fn scroll(&mut self)
        requires
            old(self).wf(),
        ensures
            final(self).wf(),
            final(self)@ == (GridModel {
                cells: scrolled(old(self)@.cols, old(self)@.rows, old(self)@.cells),
                ..old(self)@
            }),
    {
        if self.rows <= 1 {
            return;
        }
        let ghost start = self.cells@;
        let ghost cursor = self.cursor;
        let n = self.cells.len();
        let cols = self.cols;
        assert(cols <= n) by (nonlinear_arith)
            requires
                n == cols * self.rows,
                self.rows > 1,
        ;
        let mut i: usize = 0;
        while i < n
            invariant
                n == self.cells@.len(),
                n == start.len(),
                cols == self.cols,
                cols <= n,
                self.rows == old(self).rows,
                self.cursor == cursor,
                self.rows > 1,
                self.cols * self.rows == n,
                i <= n,
                forall|j: int| 0 <= j < i ==> self.cells@[j] == scrolled(cols as nat, self.rows as nat, start)[j],
                forall|j: int| i <= j < n ==> self.cells@[j] == start[j],
            decreases n - i,
        {
            if i < n - cols {
                self.cells[i] = self.cells[i + cols];
            } else {
                self.cells[i] = '\0';
            }
            i = i + 1;
        }
        assert(self.cells@ =~= scrolled(cols as nat, self.rows as nat, start));
    }

    /// Writes one character at the cursor and advances it. A printable
    /// character is stored only when the cursor is inside the grid. A line
    /// break, or a cursor at or past the last column, moves the cursor to the
    /// start of the next row; past the last row the grid scrolls and the cursor
    /// goes to the start of the last row.
    pub fn write_char(&mut self, c: char)
        requires
            old(self).wf(),
        ensures
            final(self).wf(),
            final(self)@ == write_spec(old(self)@, c),
    {
        let x = self.cursor[0];
        let y = self.cursor[1];
        if !is_control(c) && x < self.cols && y < self.rows {
            let _n = self.cells.len();
            proof {
                lemma_cell_index(self.cols as nat, self.rows as nat, x as nat, y as nat);
            }
            let idx = y * self.cols + x;
            self.cells[idx] = c;
        }
        let wrap = c == '\n' || x >= self.cols;
        let past_last_row = if wrap {
            self.rows == 0 || y >= self.rows - 1
        } else {
            y >= self.rows
        };
        if past_last_row {
            self.cursor = [0, if self.rows == 0 { 0 } else { self.rows - 1 }];
            self.scroll();
        } else if wrap {
            self.cursor = [0, y + 1];
        } else {
            self.cursor = [x + 1, y];
        }
    }

    /// Writes each character of `s` in turn, as `write_char` does.
    pub fn write_str(&mut self, s: &str)
        requires
            old(self).wf(),
        ensures
            final(self).wf(),
            final(self)@ == write_all(old(self)@, s@),
            final(self)@.cols == old(self)@.cols,
            final(self)@.rows == old(self)@.rows,
    {
        let ghost start = self@;
        for c in it: s.chars()
            invariant
                self.wf(),
                it.seq() == s@,
                self@ == write_all(start, s@.take(it.index() as int)),
                self@.cols == start.cols,
                self@.rows == start.rows,
        {
            self.write_char(c);
            proof {
                let done = s@.take(it.index() + 1);
                assert(done.drop_last() =~= s@.take(it.index() as int));
            }
        }
        assert(s@.take(s@.len() as int) =~= s@);
    }

    /// Changes the dimensions to `cols` by `rows`, keeping the value of each
    /// cell that lies in both the old and the new grid; the other cells are
    /// empty. The cursor is kept as it is, even where it now lies outside.
    pub fn reflow(&mut self, cols: usize, rows: usize)
        requires
            old(self).wf(),
            cols * rows <= usize::MAX,
        ensures
            final(self).wf(),
            final(self)@ == (GridModel {
                cols: cols as nat,
                rows: rows as nat,
                cells: reflowed(old(self)@, cols as nat, rows as nat),
                cursor: old(self)@.cursor,
            }),
    {
        let n = cols * rows;
        let mut cells: Vec<char> = Vec::new();
        let mut i: usize = 0;
        while i < n
            invariant
                n == cols * rows,
                i <= n,
                self.wf(),
                cells@ == reflowed(self@, cols as nat, rows as nat).take(i as int),
            decreases n - i,
        {
            let v = match self.get(i % cols, i / cols) {
                Some(c) => c,
                None => '\0',
            };
            cells.push(v);
            proof {
                assert(cells@ =~= reflowed(self@, cols as nat, rows as nat).take(i + 1));
            }
            i = i + 1;
        }
        assert(cells@ =~= reflowed(self@, cols as nat, rows as nat));
        self.cols = cols;
        self.rows = rows;
        self.cells = cells;
    }
}

} // verus!
