//! Cell geometry. Positions are exact fractions of the target rectangle in
//! normalized device coordinates, so they depend on the grid dimensions and
//! the font constants alone; the host scales them by the rectangle. A cell
//! is 6 by 12 font pixels: a 5 by 11 glyph and one pixel of spacing.
use vstd::prelude::*;

verus! {

/// The integer part of a screen layout: framebuffer size in pixels and grid
/// size as `[columns, rows]`.
#[derive(Clone, Copy, Debug, PartialEq, Eq)]
pub struct ScreenMetrics {
    pub frame_size: [u32; 2],
    pub grid_size: [usize; 2],
}

/// A rectangle given as fractions of the target rectangle `(pos, size)`: its
/// corner with the least coordinates is
/// `pos + size * (x_num / x_den, y_num / y_den)` and its extent
/// `size * (w_num / x_den, h_num / y_den)`.
#[derive(Clone, Copy, Debug, PartialEq, Eq)]
pub struct ScreenFraction {
    pub x_num: i128,
    pub y_num: i128,
    pub w_num: i128,
    pub h_num: i128,
    pub x_den: i128,
    pub y_den: i128,
}

/// Where the glyph of cell `(x, y)` of a `cols` by `rows` grid is drawn: the
/// cell's share of the width and height, shrunk to leave the spacing, with
/// row 0 at the top.
pub open spec fn glyph_fraction_spec(cols: nat, rows: nat, x: nat, y: nat) -> ScreenFraction {
    ScreenFraction {
        x_num: (6 * x) as i128,
        y_num: (12 * rows - 11 - 12 * y) as i128,
        w_num: 5,
        h_num: 11,
        x_den: (6 * cols) as i128,
        y_den: (12 * rows) as i128,
    }
}

/// Where the cursor block at cell `(x, y)` is drawn: the whole cell.
pub open spec fn cursor_fraction_spec(cols: nat, rows: nat, x: nat, y: nat) -> ScreenFraction {
    ScreenFraction {
        x_num: (6 * x) as i128,
        y_num: (12 * rows - 12 - 12 * y) as i128,
        w_num: 6,
        h_num: 12,
        x_den: (6 * cols) as i128,
        y_den: (12 * rows) as i128,
    }
}

impl ScreenMetrics {
    /// Placement of the glyph of cell `(x, y)`, if the grid has cells.
    pub open spec fn glyph_at(&self, x: nat, y: nat) -> Option<ScreenFraction> {
        if self.grid_size[0] == 0 || self.grid_size[1] == 0 {
            None
        } else {
            Some(glyph_fraction_spec(self.grid_size[0] as nat, self.grid_size[1] as nat, x, y))
        }
    }

    /// Placement of the cursor block at cell `(x, y)`, if the grid has cells.
    pub open spec fn cursor_at(&self, x: nat, y: nat) -> Option<ScreenFraction> {
        if self.grid_size[0] == 0 || self.grid_size[1] == 0 {
            None
        } else {
            Some(cursor_fraction_spec(self.grid_size[0] as nat, self.grid_size[1] as nat, x, y))
        }
    }

    /// Placement of the glyph of cell `(x, y)`; `None` when the grid has no
    /// columns or no rows.
    pub fn glyph_placement(&self, x: usize, y: usize) -> (r: Option<ScreenFraction>)
        ensures
            r == self.glyph_at(x as nat, y as nat),
    {
        let cols = self.grid_size[0];
        let rows = self.grid_size[1];
        if cols == 0 || rows == 0 {
            None
        } else {
            Some(
                ScreenFraction {
                    x_num: 6 * (x as i128),
                    y_num: 12 * (rows as i128) - 11 - 12 * (y as i128),
                    w_num: 5,
                    h_num: 11,
                    x_den: 6 * (cols as i128),
                    y_den: 12 * (rows as i128),
                },
            )
        }
    }

    /// Placement of the cursor block at cell `(x, y)`; `None` when the grid
    /// has no columns or no rows.
    pub fn cursor_placement(&self, x: usize, y: usize) -> (r: Option<ScreenFraction>)
        ensures
            r == self.cursor_at(x as nat, y as nat),
    {
        let cols = self.grid_size[0];
        let rows = self.grid_size[1];
        if cols == 0 || rows == 0 {
            None
        } else {
            Some(
                ScreenFraction {
                    x_num: 6 * (x as i128),
                    y_num: 12 * (rows as i128) - 12 - 12 * (y as i128),
                    w_num: 6,
                    h_num: 12,
                    x_den: 6 * (cols as i128),
                    y_den: 12 * (rows as i128),
                },
            )
        }
    }

    /// Height of the grid in font pixels, `rows * (11 + 1)`; the scanline
    /// size handed to the warp pass is its reciprocal.
    pub fn scanline_pixels(&self) -> (r: u128)
        ensures
            r == 12 * self.grid_size[1],
    {
        12 * (self.grid_size[1] as u128)
    }
}

/// Two layouts that differ in framebuffer size alone place every glyph and
/// every cursor block at the same fraction of the target rectangle.
pub proof fn lemma_placement_ignores_frame_size(a: ScreenMetrics, b: ScreenMetrics)
    requires
        a.grid_size == b.grid_size,
    ensures
        forall|x: nat, y: nat| #[trigger] a.glyph_at(x, y) == b.glyph_at(x, y),
        forall|x: nat, y: nat| #[trigger] a.cursor_at(x, y) == b.cursor_at(x, y),
{
}

} // verus!
