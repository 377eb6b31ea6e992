//! Addressing of glyphs in the fixed 5x11 bitmap font atlas.
use vstd::prelude::*;

verus! {

/// Glyph columns in the atlas image.
pub const FONT_COLS: u32 = 32;

/// Glyph rows in the atlas image.
pub const FONT_ROWS: u32 = 4;

/// Width of one glyph in pixels.
pub const GLYPH_WIDTH: u32 = 5;

/// Height of one glyph in pixels.
pub const GLYPH_HEIGHT: u32 = 11;

/// Horizontal padding between glyphs in the atlas image, in pixels.
pub const ATLAS_SPACING_X: u32 = 1;

/// Vertical padding between glyphs in the atlas image, in pixels.
pub const ATLAS_SPACING_Y: u32 = 1;

/// Width of the atlas image in pixels (192).
pub const ATLAS_WIDTH: u32 = FONT_COLS * (GLYPH_WIDTH + ATLAS_SPACING_X);

/// Height of the atlas image in pixels (48).
pub const ATLAS_HEIGHT: u32 = FONT_ROWS * (GLYPH_HEIGHT + ATLAS_SPACING_Y);

/// The code of the glyph that stands for a character that is not ASCII.
pub const FALLBACK_CODE: u8 = 63;

/// Atlas code of a character: its ASCII code, or that of `'?'` otherwise.
pub open spec fn atlas_code_spec(c: char) -> nat {
    if (c as u32) < 128 {
        c as nat
    } else {
        FALLBACK_CODE as nat
    }
}

/// A rectangle of the atlas image, in pixels. The texture coordinates of the
/// glyph are `(x / ATLAS_WIDTH, y / ATLAS_HEIGHT)` with size
/// `(width / ATLAS_WIDTH, height / ATLAS_HEIGHT)`.
#[derive(Clone, Copy, Debug, PartialEq, Eq)]
pub struct AtlasRect {
    pub x: u32,
    pub y: u32,
    pub width: u32,
    pub height: u32,
}

/// The pixel rectangle that holds the glyph of atlas code `code`.
pub open spec fn glyph_rect_spec(code: nat) -> AtlasRect {
    AtlasRect {
        x: ((code % 32) * 6) as u32,
        y: ((code / 32) * 12) as u32,
        width: 5,
        height: 11,
    }
}

/// The atlas code of `c`: ASCII characters map to themselves, all others to `'?'`.
pub fn atlas_code(c: char) -> (r: u8)
    ensures
        r as nat == atlas_code_spec(c),
        r < 128,
{
    let v = c as u32;
    if v < 128 {
        v as u8
    } else {
        FALLBACK_CODE
    }
}

/// The pixel rectangle of the glyph drawn for `c`.
pub fn glyph_rect(c: char) -> (r: AtlasRect)
    ensures
        r == glyph_rect_spec(atlas_code_spec(c)),
        r.x + r.width <= ATLAS_WIDTH,
        r.y + r.height <= ATLAS_HEIGHT,
        (c as u32) >= 128 ==> r == glyph_rect_spec(atlas_code_spec('?')),
{
    let code = atlas_code(c) as u32;
    let col = code % FONT_COLS;
    let row = code / FONT_COLS;
    AtlasRect {
        x: col * (GLYPH_WIDTH + ATLAS_SPACING_X),
        y: row * (GLYPH_HEIGHT + ATLAS_SPACING_Y),
        width: GLYPH_WIDTH,
        height: GLYPH_HEIGHT,
    }
}

} // verus!
