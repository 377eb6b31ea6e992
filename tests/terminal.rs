use crt_term_gl::atlas::{glyph_rect, AtlasRect, ATLAS_HEIGHT, ATLAS_WIDTH};
use crt_term_gl::blink::CursorBlink;
use crt_term_gl::font::{FontAtlas, FontError, ATLAS_BYTES};
use crt_term_gl::grid::{is_control, CharGrid};
use crt_term_gl::layout::{ScreenFraction, ScreenMetrics};
use crt_term_gl::term::{ScreenChange, TermState};

fn row(grid: &CharGrid, y: usize) -> String {
    (0..grid.cols()).map(|x| grid.get(x, y).unwrap()).collect()
}

fn metrics(frame: [u32; 2], grid: [usize; 2]) -> ScreenMetrics {
    ScreenMetrics { frame_size: frame, grid_size: grid }
}

#[test]
fn wrap_drops_character_at_row_boundary() {
    let mut g = CharGrid::new(3, 2);
    g.write_str("ABCDEF");
    assert_eq!(row(&g, 0), "ABC");
    assert_eq!(row(&g, 1), "EF\0");
    assert_eq!(g.cursor(), [2, 1]);
}

#[test]
fn writing_past_the_grid_scrolls_first_row_away() {
    let mut g = CharGrid::new(3, 2);
    g.write_str("abcdefghi");
    for y in 0..2 {
        for x in 0..3 {
            let c = g.get(x, y).unwrap();
            assert!(c != 'a' && c != 'b' && c != 'c');
        }
    }
    assert_eq!(row(&g, 0), "efg");
    assert_eq!(row(&g, 1), "i\0\0");
    assert_eq!(g.cursor(), [1, 1]);
}

#[test]
fn line_break_moves_to_next_row() {
    let mut g = CharGrid::new(4, 3);
    g.write_str("ab\ncd");
    assert_eq!(row(&g, 0), "ab\0\0");
    assert_eq!(row(&g, 1), "cd\0\0");
    assert_eq!(g.cursor(), [2, 1]);
}

#[test]
fn line_break_on_last_row_scrolls() {
    let mut g = CharGrid::new(2, 2);
    g.write_str("ab\ncd\n");
    assert_eq!(row(&g, 0), "cd");
    assert_eq!(row(&g, 1), "\0\0");
    assert_eq!(g.cursor(), [0, 1]);
}

#[test]
fn control_characters_are_not_stored() {
    let mut g = CharGrid::new(3, 1);
    g.write_char('\t');
    assert_eq!(g.get(0, 0), Some('\0'));
    assert_eq!(g.cursor(), [1, 0]);
    assert!(is_control('\u{7f}'));
    assert!(is_control('\u{9f}'));
    assert!(!is_control('\u{a0}'));
    assert!(!is_control(' '));
}

#[test]
fn single_row_grid_does_not_scroll() {
    let mut g = CharGrid::new(2, 1);
    g.write_str("ab");
    g.scroll();
    assert_eq!(row(&g, 0), "ab");
    g.write_char('c');
    assert_eq!(row(&g, 0), "ab");
    assert_eq!(g.cursor(), [0, 0]);
    g.write_char('d');
    assert_eq!(row(&g, 0), "db");
}

#[test]
fn scroll_shifts_rows_up_and_clears_last() {
    let mut g = CharGrid::new(2, 3);
    g.write_str("ab");
    g.set_cursor([0, 1]);
    g.write_str("cd");
    g.set_cursor([0, 2]);
    g.write_str("ef");
    g.scroll();
    assert_eq!(row(&g, 0), "cd");
    assert_eq!(row(&g, 1), "ef");
    assert_eq!(row(&g, 2), "\0\0");
}

#[test]
fn out_of_bounds_writes_are_dropped() {
    let mut g = CharGrid::new(2, 2);
    g.set_cursor([5, 0]);
    g.write_char('x');
    assert_eq!(row(&g, 0), "\0\0");
    assert_eq!(row(&g, 1), "\0\0");
    assert_eq!(g.cursor(), [0, 1]);
    assert_eq!(g.get(2, 0), None);
    assert!(!g.set(0, 2, 'y'));
    assert!(g.set(1, 1, 'y'));
    assert_eq!(g.get(1, 1), Some('y'));
}

#[test]
fn zero_sized_grid_absorbs_writes() {
    let mut g = CharGrid::new(0, 0);
    g.write_str("hello\n");
    assert_eq!(g.cursor(), [0, 0]);
    assert_eq!(g.get(0, 0), None);
    let mut t = TermState::new(metrics([10, 10], [0, 3]));
    t.write_str("abc");
    for _ in 0..70 {
        let plan = t.plan_frame();
        assert!(plan.glyphs.is_empty());
        assert_eq!(plan.cursor, None);
    }
}

#[test]
fn reflow_keeps_overlap_and_cursor() {
    let mut g = CharGrid::new(4, 2);
    g.write_str("AB");
    g.set_cursor([0, 1]);
    g.write_str("CD");
    assert_eq!(row(&g, 0), "AB\0\0");
    assert_eq!(row(&g, 1), "CD\0\0");
    g.set_cursor([3, 1]);
    g.reflow(2, 3);
    assert_eq!(g.cols(), 2);
    assert_eq!(g.rows(), 3);
    assert_eq!(row(&g, 0), "AB");
    assert_eq!(row(&g, 1), "CD");
    assert_eq!(row(&g, 2), "\0\0");
    assert_eq!(g.cursor(), [3, 1]);
}

#[test]
fn blink_cycle_after_first_frame() {
    let mut b = CursorBlink::new();
    assert!(!b.advance());
    let mut seen = Vec::new();
    for _ in 0..120 {
        let visible = b.is_visible();
        assert_eq!(b.advance(), visible);
        seen.push(visible);
    }
    assert_eq!(seen.iter().filter(|v| **v).count(), 60);
    assert!(seen[..60].iter().all(|v| !*v));
    assert!(seen[60..].iter().all(|v| *v));
}

#[test]
fn blink_window_from_first_shown_frame() {
    let mut b = CursorBlink::new();
    for _ in 0..61 {
        b.advance();
    }
    let seen: Vec<bool> = (0..120).map(|_| b.advance()).collect();
    assert!(seen[..60].iter().all(|v| *v));
    assert!(seen[60..].iter().all(|v| !*v));
}

#[test]
fn atlas_addresses_ascii_and_falls_back() {
    assert_eq!(ATLAS_WIDTH, 192);
    assert_eq!(ATLAS_HEIGHT, 48);
    let a = glyph_rect('A');
    assert_eq!(a, AtlasRect { x: 6, y: 24, width: 5, height: 11 });
    assert_eq!(a.x as f64 / ATLAS_WIDTH as f64, 0.03125);
    assert_eq!(a.y as f64 / ATLAS_HEIGHT as f64, 0.5);
    assert_eq!(glyph_rect('\u{e9}'), glyph_rect('?'));
    assert_eq!(glyph_rect('\u{1f600}'), AtlasRect { x: 31 * 6, y: 12, width: 5, height: 11 });
    assert_eq!(glyph_rect('\u{7f}'), AtlasRect { x: 186, y: 36, width: 5, height: 11 });
}

#[test]
fn placement_is_independent_of_frame_size() {
    let a = metrics([720, 405], [3, 2]);
    let b = metrics([1920, 1080], [3, 2]);
    for x in 0..3 {
        for y in 0..2 {
            assert_eq!(a.glyph_placement(x, y), b.glyph_placement(x, y));
            assert_eq!(a.cursor_placement(x, y), b.cursor_placement(x, y));
        }
    }
    let expected = ScreenFraction { x_num: 6, y_num: 13, w_num: 5, h_num: 11, x_den: 18, y_den: 24 };
    assert_eq!(a.glyph_placement(1, 0), Some(expected));
    let cursor = ScreenFraction { x_num: 12, y_num: 0, w_num: 6, h_num: 12, x_den: 18, y_den: 24 };
    assert_eq!(a.cursor_placement(2, 1), Some(cursor));
    assert_eq!(metrics([1, 1], [0, 2]).glyph_placement(0, 0), None);
    assert_eq!(a.scanline_pixels(), 24);
}

#[test]
fn frame_plan_lists_glyphs_and_cursor() {
    let mut t = TermState::new(metrics([100, 100], [3, 2]));
    t.write_str("A\nb");
    let plan = t.plan_frame();
    assert_eq!(plan.glyphs.len(), 2);
    assert_eq!(plan.glyphs[0].atlas, glyph_rect('A'));
    assert_eq!(plan.glyphs[0].place, t.metrics().glyph_placement(0, 0).unwrap());
    assert_eq!(plan.glyphs[1].atlas, glyph_rect('b'));
    assert_eq!(plan.glyphs[1].place, t.metrics().glyph_placement(0, 1).unwrap());
    assert_eq!(plan.cursor, None);
    assert_eq!(plan.scanline_pixels, 24);
    for _ in 0..60 {
        assert_eq!(t.plan_frame().cursor, None);
    }
    let shown = t.plan_frame();
    assert_eq!(shown.cursor, t.metrics().cursor_placement(1, 1));
}

#[test]
fn screen_change_reports_and_reflows() {
    let mut t = TermState::new(metrics([100, 100], [4, 2]));
    t.write_str("AB");
    let same = t.screen_changed(metrics([100, 100], [4, 2]));
    assert_eq!(same, ScreenChange { frame_resized: false, grid_resized: false });
    let frame = t.screen_changed(metrics([200, 100], [4, 2]));
    assert_eq!(frame, ScreenChange { frame_resized: true, grid_resized: false });
    assert_eq!(row(t.grid(), 0), "AB\0\0");
    let grid = t.screen_changed(metrics([200, 100], [1, 3]));
    assert_eq!(grid, ScreenChange { frame_resized: false, grid_resized: true });
    assert_eq!(row(t.grid(), 0), "A");
    assert_eq!(row(t.grid(), 2), "\0");
    assert_eq!(t.cursor(), [2, 0]);
}

fn png_bytes(width: u32, height: u32) -> Vec<u8> {
    let mut img = image::RgbaImage::new(width, height);
    for (x, y, p) in img.enumerate_pixels_mut() {
        *p = image::Rgba([(x % 256) as u8, (y % 256) as u8, 7, 255]);
    }
    let mut out = std::io::Cursor::new(Vec::new());
    img.write_to(&mut out, image::ImageFormat::Png).unwrap();
    out.into_inner()
}

#[test]
fn font_atlas_decodes_png() {
    let atlas = FontAtlas::from_png(&png_bytes(192, 48)).unwrap();
    assert_eq!(atlas.pixels().len(), ATLAS_BYTES);
    assert_eq!(atlas.width(), 192);
    assert_eq!(atlas.height(), 48);
    let p = atlas.pixels();
    let at = (47 * 192 + 191) * 4;
    assert_eq!(&p[at..at + 4], &[191, 47, 7, 255]);
}

#[test]
fn font_atlas_errors() {
    assert_eq!(FontAtlas::from_png(b"not a png").err(), Some(FontError::Decode));
    assert_eq!(
        FontAtlas::from_png(&png_bytes(10, 4)).err(),
        Some(FontError::Size { width: 10, height: 4 })
    );
    assert_eq!(FontAtlas::from_rgba(192, 48, vec![0; 100]).err(), Some(FontError::Truncated));
    let long = FontAtlas::from_rgba(192, 48, vec![1; ATLAS_BYTES + 8]).unwrap();
    assert_eq!(long.pixels().len(), ATLAS_BYTES);
}

#[test]
fn wider_grid_keeps_last_characters_on_last_row() {
    let mut g = CharGrid::new(4, 2);
    g.write_str("abcdefghijkl");
    assert_eq!(row(&g, 0), "fghi");
    assert_eq!(row(&g, 1), "kl\0\0");
    assert_eq!(g.cursor(), [2, 1]);
}

#[test]
fn narrow_tall_grid_keeps_first_row() {
    let mut g = CharGrid::new(1, 3);
    g.write_str("abcd");
    assert_eq!(row(&g, 0), "a");
    assert_eq!(row(&g, 1), "c");
    assert_eq!(g.cursor(), [0, 2]);
}

#[test]
fn frame_resize_alone_keeps_grid_and_cursor() {
    let mut t = TermState::new(metrics([100, 100], [3, 2]));
    t.write_str("abcd");
    let before: Vec<String> = (0..2).map(|y| row(t.grid(), y)).collect();
    let cursor = t.cursor();
    let change = t.screen_changed(metrics([640, 480], [3, 2]));
    assert_eq!(change, ScreenChange { frame_resized: true, grid_resized: false });
    let after: Vec<String> = (0..2).map(|y| row(t.grid(), y)).collect();
    assert_eq!(before, after);
    assert_eq!(t.cursor(), cursor);
}
