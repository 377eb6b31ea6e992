//! Terminal state and per-frame planning: which glyphs are drawn where, and
//! whether the cursor block is drawn, for the host's render passes.
use vstd::prelude::*;
use crate::atlas::{AtlasRect, glyph_rect, glyph_rect_spec, atlas_code_spec};
use crate::blink::{CursorBlink, blink_next, blink_visible};
use crate::grid::{CharGrid, GridModel, write_spec, write_all, reflowed, empty_cells};
use crate::layout::{ScreenFraction, ScreenMetrics, glyph_fraction_spec};

verus! {

/// One glyph to draw: where on the screen, and which rectangle of the atlas.
#[derive(Clone, Copy, Debug, PartialEq, Eq)]
pub struct GlyphQuad {
    pub place: ScreenFraction,
    pub atlas: AtlasRect,
}

/// What one frame draws: the glyph quads in row-major cell order, the cursor
/// block if it is shown, and the grid height in font pixels for the scanlines.
pub struct FramePlan {
    pub glyphs: Vec<GlyphQuad>,
    pub cursor: Option<ScreenFraction>,
    pub scanline_pixels: u128,
}

/// Which backend resources a layout change touches.
#[derive(Clone, Copy, Debug, PartialEq, Eq)]
pub struct ScreenChange {
    pub frame_resized: bool,
    pub grid_resized: bool,
}

/// The glyph quad of the cell at row-major index `i` of `m`.
pub open spec fn glyph_quad_spec(m: GridModel, i: int) -> GlyphQuad {
    GlyphQuad {
        place: glyph_fraction_spec(
            m.cols,
            m.rows,
            (i % (m.cols as int)) as nat,
            (i / (m.cols as int)) as nat,
        ),
        atlas: glyph_rect_spec(atlas_code_spec(m.cells[i])),
    }
}

/// The glyph quads of the first `n` cells of `m` in row-major order,
/// skipping empty cells.
pub open spec fn glyph_quads(m: GridModel, n: nat) -> Seq<GlyphQuad>
    decreases n,
{
    if n == 0 {
        Seq::empty()
    } else {
        let prev = glyph_quads(m, (n - 1) as nat);
        if m.cells[n - 1] == '\0' {
            prev
        } else {
            prev.push(glyph_quad_spec(m, n - 1))
        }
    }
}

/// The glyph quads of every occupied cell of `grid`, in row-major order.
pub fn grid_glyphs(metrics: &ScreenMetrics, grid: &CharGrid) -> (r: Vec<GlyphQuad>)
    requires
        grid.wf(),
        grid@.cols == metrics.grid_size[0],
        grid@.rows == metrics.grid_size[1],
    ensures
        r@ == glyph_quads(grid@, grid@.cells.len()),
{
    let cols = grid.cols();
    let rows = grid.rows();
    let mut out: Vec<GlyphQuad> = Vec::new();
    if cols == 0 || rows == 0 {
        assert(grid@.cells.len() == 0) by (nonlinear_arith)
            requires
                grid@.cells.len() == grid@.cols * grid@.rows,
                grid@.cols == 0 || grid@.rows == 0,
        ;
        return out;
    }
    let mut y: usize = 0;
    while y < rows
        invariant
            cols == grid@.cols,
            rows == grid@.rows,
            cols > 0,
            grid.wf(),
            grid@.cols == metrics.grid_size[0],
            grid@.rows == metrics.grid_size[1],
            y <= rows,
            out@ == glyph_quads(grid@, (y * cols) as nat),
        decreases rows - y,
    {
        let mut x: usize = 0;
        while x < cols
            invariant
                cols == grid@.cols,
                rows == grid@.rows,
                cols > 0,
                grid.wf(),
                grid@.cols == metrics.grid_size[0],
                grid@.rows == metrics.grid_size[1],
                y < rows,
                x <= cols,
                out@ == glyph_quads(grid@, (y * cols + x) as nat),
            decreases cols - x,
        {
            let ghost i = y * cols + x;
            proof {
                assert(i < cols * rows) by (nonlinear_arith)
                    requires
                        x < cols,
                        y < rows,
                        i == y * cols + x,
                ;
                vstd::arithmetic::div_mod::lemma_fundamental_div_mod_converse(
                    i,
                    cols as int,
                    y as int,
                    x as int,
                );
            }
            let c = match grid.get(x, y) {
                Some(c) => c,
                None => '\0',
            };
            if c != '\0' {
                let place = match metrics.glyph_placement(x, y) {
                    Some(p) => p,
                    None => vstd::pervasive::unreached(),
                };
                out.push(GlyphQuad { place, atlas: glyph_rect(c) });
            }
            x = x + 1;
        }
        proof {
            assert((y + 1) * cols == y * cols + cols) by (nonlinear_arith);
        }
        y = y + 1;
    }
    assert(rows * cols == grid@.cells.len()) by (nonlinear_arith)
        requires
            grid@.cells.len() == grid@.cols * grid@.rows,
            rows == grid@.rows,
            cols == grid@.cols,
    ;
    out
}

/// The terminal's state as a mathematical value.
pub struct TermModel {
    pub grid: GridModel,
    pub blink: int,
    pub metrics: ScreenMetrics,
}

/// The state of one terminal: its grid, its blink timer and its layout.
pub struct TermState {
    grid: CharGrid,
    blink: CursorBlink,
    metrics: ScreenMetrics,
}

impl View for TermState {
    type V = TermModel;

    closed spec fn view(&self) -> TermModel {
        TermModel { grid: self.grid@, blink: self.blink@, metrics: self.metrics }
    }
}

impl TermState {
    /// The grid matches the layout's grid size, its cell count fits in
    /// `usize`, and the timer is in range.
    pub open spec fn wf(&self) -> bool {
        &&& self@.grid.cells.len() == self@.grid.cols * self@.grid.rows
        &&& self@.grid.cols * self@.grid.rows <= usize::MAX
        &&& self@.grid.cols == self@.metrics.grid_size[0]
        &&& self@.grid.rows == self@.metrics.grid_size[1]
        &&& -60 <= self@.blink <= 60
    }

    /// A terminal with an empty grid of the layout's size, cursor at the
    /// top left, blink timer at 0.
    pub fn new(metrics: ScreenMetrics) -> (r: TermState)
        requires
            metrics.grid_size[0] * metrics.grid_size[1] <= usize::MAX,
        ensures
            r.wf(),
            r@ == (TermModel {
                grid: GridModel {
                    cols: metrics.grid_size[0] as nat,
                    rows: metrics.grid_size[1] as nat,
                    cells: empty_cells(metrics.grid_size[0] as nat, metrics.grid_size[1] as nat),
                    cursor: (0, 0),
                },
                blink: 0,
                metrics,
            }),
    {
        TermState {
            grid: CharGrid::new(metrics.grid_size[0], metrics.grid_size[1]),
            blink: CursorBlink::new(),
            metrics,
        }
    }

    /// The current layout.
    pub fn metrics(&self) -> (r: ScreenMetrics)
        ensures
            r == self@.metrics,
    {
        self.metrics
    }

    /// The character grid.
    pub fn grid(&self) -> (r: &CharGrid)
        ensures
            r@ == self@.grid,
    {
        &self.grid
    }

    /// The cursor as `[column, row]`.
    pub fn cursor(&self) -> (r: [usize; 2])
        ensures
            r[0] == self@.grid.cursor.0,
            r[1] == self@.grid.cursor.1,
    {
        self.grid.cursor()
    }

    /// Moves the cursor anywhere, inside the grid or not.
    pub fn set_cursor(&mut self, cursor: [usize; 2])
        requires
            old(self).wf(),
        ensures
            final(self).wf(),
            final(self)@ == (TermModel {
                grid: GridModel { cursor: (cursor[0] as nat, cursor[1] as nat), ..old(self)@.grid },
                ..old(self)@
            }),
    {
        self.grid.set_cursor(cursor);
    }

    /// Writes one character at the cursor.
    pub fn write_char(&mut self, c: char)
        requires
            old(self).wf(),
        ensures
            final(self).wf(),
            final(self)@ == (TermModel { grid: write_spec(old(self)@.grid, c), ..old(self)@ }),
    {
        self.grid.write_char(c);
    }

    /// Writes each character of `s` in turn.
    pub fn write_str(&mut self, s: &str)
        requires
            old(self).wf(),
        ensures
            final(self).wf(),
            final(self)@ == (TermModel { grid: write_all(old(self)@.grid, s@), ..old(self)@ }),
    {
        self.grid.write_str(s);
    }

    /// Takes a new layout. A new grid size reflows the grid; the report says
    /// whether the framebuffer size and the grid size changed.
    pub fn screen_changed(&mut self, metrics: ScreenMetrics) -> (r: ScreenChange)
        requires
            old(self).wf(),
            metrics.grid_size[0] * metrics.grid_size[1] <= usize::MAX,
        ensures
            final(self).wf(),
            r.frame_resized == (old(self)@.metrics.frame_size != metrics.frame_size),
            r.grid_resized == (old(self)@.metrics.grid_size != metrics.grid_size),
            final(self)@.metrics == metrics,
            final(self)@.blink == old(self)@.blink,
            metrics.grid_size == old(self)@.metrics.grid_size ==> final(self)@.grid == old(self)@.grid,
            final(self)@.grid == (if r.grid_resized {
                GridModel {
                    cols: metrics.grid_size[0] as nat,
                    rows: metrics.grid_size[1] as nat,
                    cells: reflowed(
                        old(self)@.grid,
                        metrics.grid_size[0] as nat,
                        metrics.grid_size[1] as nat,
                    ),
                    cursor: old(self)@.grid.cursor,
                }
            } else {
                old(self)@.grid
            }),
    {
        let old_m = self.metrics;
        let frame_resized = old_m.frame_size[0] != metrics.frame_size[0]
            || old_m.frame_size[1] != metrics.frame_size[1];
        let grid_resized = old_m.grid_size[0] != metrics.grid_size[0]
            || old_m.grid_size[1] != metrics.grid_size[1];
        proof {
            if !frame_resized {
                assert(old_m.frame_size =~= metrics.frame_size);
            }
            if !grid_resized {
                assert(old_m.grid_size =~= metrics.grid_size);
            }
        }
        if grid_resized {
            self.grid.reflow(metrics.grid_size[0], metrics.grid_size[1]);
        }
        self.metrics = metrics;
        ScreenChange { frame_resized, grid_resized }
    }

    /// Plans one frame and advances the blink timer. The glyphs are those of
    /// the occupied cells in row-major order; the cursor block is drawn when
    /// the timer, before it advances, is positive.
    pub fn plan_frame(&mut self) -> (r: FramePlan)
        requires
            old(self).wf(),
        ensures
            final(self).wf(),
            final(self)@ == (TermModel { blink: blink_next(old(self)@.blink), ..old(self)@ }),
            r.glyphs@ == glyph_quads(old(self)@.grid, old(self)@.grid.cells.len()),
            r.cursor == (if blink_visible(old(self)@.blink) {
                old(self)@.metrics.cursor_at(old(self)@.grid.cursor.0, old(self)@.grid.cursor.1)
            } else {
                None
            }),
            r.scanline_pixels == 12 * old(self)@.metrics.grid_size[1],
    {
        let glyphs = grid_glyphs(&self.metrics, &self.grid);
        let shown = self.blink.advance();
        let cursor = if shown {
            let at = self.grid.cursor();
            self.metrics.cursor_placement(at[0], at[1])
        } else {
            None
        };
        FramePlan { glyphs, cursor, scanline_pixels: self.metrics.scanline_pixels() }
    }
}

} // verus!
