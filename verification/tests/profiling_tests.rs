use pngtooba::chars::{to_ascii_lower, to_ascii_upper};
use pngtooba::canvas::RgbaCanvas;
use pngtooba::profiling::{
    draw_text, glyph, render_overlay, OVERLAY_BACKGROUND, OVERLAY_HEIGHT, OVERLAY_TEXT,
    OVERLAY_WIDTH,
};

const BG: [u8; 4] = [1, 2, 3, 4];
const FG: [u8; 4] = [200, 100, 50, 255];

fn pixel(bytes: &[u8], width: u32, x: u32, y: u32) -> [u8; 4] {
    let i = ((y * width + x) * 4) as usize;
    [bytes[i], bytes[i + 1], bytes[i + 2], bytes[i + 3]]
}

#[test]
fn glyph_digits_and_letters() {
    assert_eq!(glyph('0'), ["###", "#.#", "#.#", "#.#", "###"]);
    assert_eq!(glyph('1'), [".#.", "##.", ".#.", ".#.", "###"]);
    assert_eq!(glyph('S'), ["###", "#..", "###", "..#", "###"]);
    assert_eq!(glyph(':'), ["...", ".#.", "...", ".#.", "..."]);
}

#[test]
fn glyph_ignores_case() {
    for c in "admnorstuwxADMNORSTUWX".chars() {
        assert_eq!(glyph(c), glyph(c.to_ascii_uppercase()));
    }
    assert_eq!(glyph('m'), ["#.#", "###", "#.#", "#.#", "#.#"]);
}

#[test]
fn glyph_blank_for_unknown() {
    for c in [' ', 'B', 'z', '?', 'é'] {
        assert_eq!(glyph(c), ["...", "...", "...", "...", "..."]);
    }
}

#[test]
fn glyph_shape() {
    for c in "0123456789ADFMNORSTUWX:. q".chars() {
        for row in glyph(c) {
            assert_eq!(row.len(), 3);
            assert!(row.chars().all(|cell| cell == '#' || cell == '.'));
        }
    }
}

#[test]
fn canvas_starts_filled() {
    let bytes = RgbaCanvas::filled(3, 2, BG).into_raw();
    assert_eq!(bytes.len(), 24);
    for y in 0..2 {
        for x in 0..3 {
            assert_eq!(pixel(&bytes, 3, x, y), BG);
        }
    }
}

#[test]
fn draw_text_paints_lit_cells() {
    let mut canvas = RgbaCanvas::filled(4, 5, BG);
    draw_text(&mut canvas, "1", 0, 0, 1, FG);
    let bytes = canvas.into_raw();
    let rows = glyph('1');
    for y in 0..5u32 {
        for x in 0..4u32 {
            let lit = x < 3 && rows[y as usize].as_bytes()[x as usize] == b'#';
            assert_eq!(pixel(&bytes, 4, x, y), if lit { FG } else { BG }, "({x}, {y})");
        }
    }
}

#[test]
fn draw_text_scales_and_spaces() {
    let mut canvas = RgbaCanvas::filled(16, 10, BG);
    draw_text(&mut canvas, "..", 0, 0, 2, FG);
    let bytes = canvas.into_raw();
    // '.' lights cell (row 4, col 1): pixels x 2..4, y 8..10 for the first
    // character, and 8 pixels further right for the second.
    for y in 0..10u32 {
        for x in 0..16u32 {
            let lit = (8..10).contains(&y) && ((2..4).contains(&x) || (10..12).contains(&x));
            assert_eq!(pixel(&bytes, 16, x, y), if lit { FG } else { BG }, "({x}, {y})");
        }
    }
}

#[test]
fn draw_text_clips_at_edges() {
    let mut canvas = RgbaCanvas::filled(2, 2, BG);
    draw_text(&mut canvas, "0", -2, -4, 1, FG);
    let bytes = canvas.into_raw();
    // Only glyph row 4 ("###") is at y = 0; its column 2 lands at x = 0.
    assert_eq!(pixel(&bytes, 2, 0, 0), FG);
    assert_eq!(pixel(&bytes, 2, 1, 0), BG);
    assert_eq!(pixel(&bytes, 2, 0, 1), BG);
    assert_eq!(pixel(&bytes, 2, 1, 1), BG);
}

#[test]
fn draw_text_without_scale_draws_nothing() {
    let mut canvas = RgbaCanvas::filled(4, 4, BG);
    draw_text(&mut canvas, "888", 0, 0, 0, FG);
    draw_text(&mut canvas, "888", 0, 0, -3, FG);
    let bytes = canvas.into_raw();
    assert!(bytes.chunks(4).all(|p| p == BG));
}

#[test]
fn overlay_layout() {
    let bytes = render_overlay("1.0MS", "20US", "300NS", "9.9MS");
    assert_eq!(bytes.len(), (OVERLAY_WIDTH * OVERLAY_HEIGHT * 4) as usize);
    assert_eq!(pixel(&bytes, OVERLAY_WIDTH, 0, 0), OVERLAY_BACKGROUND);
    // 'A' of "AUD": its top row ".#." lights x 6..8, y 4..6.
    assert_eq!(pixel(&bytes, OVERLAY_WIDTH, 6, 4), OVERLAY_TEXT);
    assert_eq!(pixel(&bytes, OVERLAY_WIDTH, 4, 4), OVERLAY_BACKGROUND);
    // 'F' of "FX": its top row "###" lights x 4..10, y 22..24.
    assert_eq!(pixel(&bytes, OVERLAY_WIDTH, 4, 22), OVERLAY_TEXT);
    // 'T' of "TOT" on the fourth line, y 58..60.
    assert_eq!(pixel(&bytes, OVERLAY_WIDTH, 9, 59), OVERLAY_TEXT);
    // Below the last line stays background.
    assert_eq!(pixel(&bytes, OVERLAY_WIDTH, 6, 80), OVERLAY_BACKGROUND);
}

#[test]
fn overlay_clips_long_lines() {
    let long = "8".repeat(40);
    let bytes = render_overlay(&long, "", "", "");
    assert_eq!(bytes.len(), (OVERLAY_WIDTH * OVERLAY_HEIGHT * 4) as usize);
    // The sixteenth character, an "8", covers x 124..130; its top row is "###".
    assert_eq!(pixel(&bytes, OVERLAY_WIDTH, 129, 4), OVERLAY_TEXT);
}

#[test]
fn ascii_case_of_characters() {
    for c in ['a', 'm', 'z', 'A', 'Z', '0', ':', 'é', '\u{7f}', '`', '{', '@', '['] {
        assert_eq!(to_ascii_upper(c), c.to_ascii_uppercase());
        assert_eq!(to_ascii_lower(c), c.to_ascii_lowercase());
    }
}
