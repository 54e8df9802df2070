use vstd::prelude::*;
use crate::canvas::{canvas_wf, byte_offset, in_bounds, canvas_height, canvas_pixels, canvas_put_pixel, canvas_size, canvas_width, RgbaCanvas};
use crate::chars::{ascii_upper, to_ascii_upper};

verus! {

/// Width of a glyph of the overlay font, in cells.
pub const FONT_W: usize = 3;

/// Height of a glyph of the overlay font, in cells.
pub const FONT_H: usize = 5;

/// The rows of the glyph drawn for a character: five rows of three cells,
/// `#` for a lit cell and `.` for a dark one. Letters are drawn in upper
/// case; a character without a glyph is drawn blank.
pub open spec fn glyph_rows(c: char) -> Seq<Seq<char>> {
    match ascii_upper(c) {
        '0' => seq!["###"@, "#.#"@, "#.#"@, "#.#"@, "###"@],
        '1' => seq![".#."@, "##."@, ".#."@, ".#."@, "###"@],
        '2' => seq!["###"@, "..#"@, "###"@, "#.."@, "###"@],
        '3' => seq!["###"@, "..#"@, "###"@, "..#"@, "###"@],
        '4' => seq!["#.#"@, "#.#"@, "###"@, "..#"@, "..#"@],
        '5' => seq!["###"@, "#.."@, "###"@, "..#"@, "###"@],
        '6' => seq!["###"@, "#.."@, "###"@, "#.#"@, "###"@],
        '7' => seq!["###"@, "..#"@, "..#"@, "..#"@, "..#"@],
        '8' => seq!["###"@, "#.#"@, "###"@, "#.#"@, "###"@],
        '9' => seq!["###"@, "#.#"@, "###"@, "..#"@, "###"@],
        'A' => seq![".#."@, "#.#"@, "###"@, "#.#"@, "#.#"@],
        'D' => seq!["##."@, "#.#"@, "#.#"@, "#.#"@, "##."@],
        'F' => seq!["###"@, "#.."@, "##."@, "#.."@, "#.."@],
        'M' => seq!["#.#"@, "###"@, "#.#"@, "#.#"@, "#.#"@],
        'N' => seq!["#.#"@, "##."@, "###"@, ".##"@, "#.#"@],
        'O' => seq!["###"@, "#.#"@, "#.#"@, "#.#"@, "###"@],
        'R' => seq!["##."@, "#.#"@, "##."@, "#.#"@, "#.#"@],
        'S' => seq!["###"@, "#.."@, "###"@, "..#"@, "###"@],
        'T' => seq!["###"@, ".#."@, ".#."@, ".#."@, ".#."@],
        'U' => seq!["#.#"@, "#.#"@, "#.#"@, "#.#"@, "###"@],
        'W' => seq!["#.#"@, "#.#"@, "#.#"@, "###"@, "#.#"@],
        'X' => seq!["#.#"@, "#.#"@, ".#."@, "#.#"@, "#.#"@],
        ':' => seq!["..."@, ".#."@, "..."@, ".#."@, "..."@],
        '.' => seq!["..."@, "..."@, "..."@, "..."@, ".#."@],
        _ => seq!["..."@, "..."@, "..."@, "..."@, "..."@],
    }
}

/// Every glyph of the overlay font is five rows of three cells, each cell
/// lit (`#`) or dark (`.`).
pub proof fn lemma_glyph_shape(c: char)
    ensures
        glyph_rows(c).len() == FONT_H,
        forall|row: int| 0 <= row < FONT_H ==> #[trigger] glyph_rows(c)[row].len() == FONT_W,
        forall|row: int, col: int|
            0 <= row < FONT_H && 0 <= col < FONT_W ==> (#[trigger] glyph_rows(c)[row][col] == '#'
                || glyph_rows(c)[row][col] == '.'),
{
    reveal_strlit("###");
    reveal_strlit("#.#");
    reveal_strlit("..#");
    reveal_strlit("#..");
    reveal_strlit(".#.");
    reveal_strlit("##.");
    reveal_strlit(".##");
    reveal_strlit("...");
}

/// The glyph of the overlay font for `c`, row by row.
pub fn glyph(c: char) -> (r: [&'static str; 5])
    ensures
        forall|i: int| 0 <= i < 5 ==> #[trigger] r[i]@ == glyph_rows(c)[i],
{
    match to_ascii_upper(c) {
        '0' => ["###", "#.#", "#.#", "#.#", "###"],
        '1' => [".#.", "##.", ".#.", ".#.", "###"],
        '2' => ["###", "..#", "###", "#..", "###"],
        '3' => ["###", "..#", "###", "..#", "###"],
        '4' => ["#.#", "#.#", "###", "..#", "..#"],
        '5' => ["###", "#..", "###", "..#", "###"],
        '6' => ["###", "#..", "###", "#.#", "###"],
        '7' => ["###", "..#", "..#", "..#", "..#"],
        '8' => ["###", "#.#", "###", "#.#", "###"],
        '9' => ["###", "#.#", "###", "..#", "###"],
        'A' => [".#.", "#.#", "###", "#.#", "#.#"],
        'D' => ["##.", "#.#", "#.#", "#.#", "##."],
        'F' => ["###", "#..", "##.", "#..", "#.."],
        'M' => ["#.#", "###", "#.#", "#.#", "#.#"],
        'N' => ["#.#", "##.", "###", ".##", "#.#"],
        'O' => ["###", "#.#", "#.#", "#.#", "###"],
        'R' => ["##.", "#.#", "##.", "#.#", "#.#"],
        'S' => ["###", "#..", "###", "..#", "###"],
        'T' => ["###", ".#.", ".#.", ".#.", ".#."],
        'U' => ["#.#", "#.#", "#.#", "#.#", "###"],
        'W' => ["#.#", "#.#", "#.#", "###", "#.#"],
        'X' => ["#.#", "#.#", ".#.", "#.#", "#.#"],
        ':' => ["...", ".#.", "...", ".#.", "..."],
        '.' => ["...", "...", "...", "...", ".#."],
        _ => ["...", "...", "...", "...", "..."],
    }
}

/// Whether `(x, y)` lies in the `scale` by `scale` square whose top-left
/// pixel is `(px, py)`.
pub open spec fn in_square(px: int, py: int, scale: int, x: int, y: int) -> bool {
    px <= x < px + scale && py <= y < py + scale
}

/// `after` is `before` with every pixel inside the image of size `size`
/// that lies in `region` set to `color`, and every other pixel kept.
pub open spec fn painted(
    before: Map<(u32, u32), [u8; 4]>,
    after: Map<(u32, u32), [u8; 4]>,
    size: (u32, u32),
    region: spec_fn(int, int) -> bool,
    color: [u8; 4],
) -> bool {
    &&& after.dom() == before.dom()
    &&& forall|p: (u32, u32)|
        #![trigger after[p]]
        after.dom().contains(p) ==> after[p] == (if region(p.0 as int, p.1 as int) && p.0
            < size.0 && p.1 < size.1 {
            color
        } else {
            before[p]
        })
}

/// Paints the `scale` by `scale` square whose top-left pixel is `(px, py)`,
/// as far as it lies inside the canvas.
pub fn fill_square(canvas: &mut RgbaCanvas, px: i32, py: i32, scale: i32, color: [u8; 4])
    requires
        scale <= 0 || (px + scale - 1 <= i32::MAX && py + scale - 1 <= i32::MAX),
    ensures
        canvas_size(*final(canvas)) == canvas_size(*old(canvas)),
        canvas_wf(*final(canvas)) == canvas_wf(*old(canvas)),
        painted(
            canvas_pixels(*old(canvas)),
            canvas_pixels(*final(canvas)),
            canvas_size(*old(canvas)),
            |x: int, y: int| in_square(px as int, py as int, scale as int, x, y),
            color,
        ),
{
    let ghost before = canvas_pixels(*canvas);
    let ghost size = canvas_size(*canvas);
    let w = canvas_width(canvas);
    let h = canvas_height(canvas);
    let mut dy: i32 = 0;
    while dy < scale
        invariant
            0 <= dy,
            dy <= scale || scale <= 0,
            scale <= 0 || (px + scale - 1 <= i32::MAX && py + scale - 1 <= i32::MAX),
            size == (w, h),
            canvas_size(*canvas) == size,
            painted(
                before,
                canvas_pixels(*canvas),
                size,
                |x: int, y: int| in_square(px as int, py as int, scale as int, x, y) && y < py + dy,
                color,
            ),
        decreases scale - dy,
    {
        let mut dx: i32 = 0;
        while dx < scale
            invariant
                0 <= dx <= scale,
                0 <= dy < scale,
                px + scale - 1 <= i32::MAX,
                py + scale - 1 <= i32::MAX,
                size == (w, h),
                canvas_size(*canvas) == size,
                painted(
                    before,
                    canvas_pixels(*canvas),
                    size,
                    |x: int, y: int|
                        in_square(px as int, py as int, scale as int, x, y) && (y < py + dy || (y
                            == py + dy && x < px + dx)),
                    color,
                ),
            decreases scale - dx,
        {
            let x = px + dx;
            let y = py + dy;
            if x >= 0 && y >= 0 && (x as u32) < w && (y as u32) < h {
                canvas_put_pixel(canvas, x as u32, y as u32, color);
            }
            dx = dx + 1;
        }
        dy = dy + 1;
    }
}

/// Painting `r1` and then `r2` with one colour paints their union.
proof fn lemma_painted_compose(
    a: Map<(u32, u32), [u8; 4]>,
    b: Map<(u32, u32), [u8; 4]>,
    c: Map<(u32, u32), [u8; 4]>,
    size: (u32, u32),
    r1: spec_fn(int, int) -> bool,
    r2: spec_fn(int, int) -> bool,
    r: spec_fn(int, int) -> bool,
    color: [u8; 4],
)
    requires
        painted(a, b, size, r1, color),
        painted(b, c, size, r2, color),
        forall|x: int, y: int| #[trigger] r(x, y) == (r1(x, y) || r2(x, y)),
    ensures
        painted(a, c, size, r, color),
{
    assert forall|p: (u32, u32)| c.dom().contains(p) implies c[p] == (if r(p.0 as int, p.1 as int)
        && p.0 < size.0 && p.1 < size.1 {
        color
    } else {
        a[p]
    }) by {
        assert(b.dom().contains(p));
        assert(r(p.0 as int, p.1 as int) == (r1(p.0 as int, p.1 as int) || r2(p.0 as int, p.1 as int)));
    }
}

/// Painting nothing, or a region no pixel lies in, leaves the pixels as
/// they are.
proof fn lemma_painted_nothing(
    a: Map<(u32, u32), [u8; 4]>,
    size: (u32, u32),
    r: spec_fn(int, int) -> bool,
    color: [u8; 4],
)
    requires
        forall|x: int, y: int| !#[trigger] r(x, y),
    ensures
        painted(a, a, size, r, color),
{
}

/// Cell `(row, col)` of the glyph of `c`, drawn with its top-left corner at
/// `(gx, gy)` and `scale` pixels per cell, is lit and covers `(x, y)`.
pub open spec fn glyph_cell_covers(
    c: char,
    gx: int,
    gy: int,
    scale: int,
    row: int,
    col: int,
    x: int,
    y: int,
) -> bool {
    &&& glyph_rows(c)[row][col] == '#'
    &&& in_square(gx + col * scale, gy + row * scale, scale, x, y)
}

/// Some lit cell of the glyph of `c`, drawn at `(gx, gy)` with `scale`
/// pixels per cell, covers `(x, y)`.
pub open spec fn glyph_covers(c: char, gx: int, gy: int, scale: int, x: int, y: int) -> bool {
    exists|row: int, col: int|
        0 <= row < FONT_H && 0 <= col < FONT_W && #[trigger] glyph_cell_covers(
            c,
            gx,
            gy,
            scale,
            row,
            col,
            x,
            y,
        )
}

/// Left edge of the `i`-th character of a line of text starting at `x0`:
/// each character takes its glyph's width and one blank cell.
pub open spec fn char_left(x0: int, i: int, scale: int) -> int {
    x0 + i * ((FONT_W + 1) * scale)
}

/// Some character of `text`, drawn from `(x0, y0)` with `scale` pixels per
/// cell, covers `(x, y)` with a lit cell.
pub open spec fn text_covers(text: Seq<char>, x0: int, y0: int, scale: int, x: int, y: int) -> bool {
    exists|i: int|
        0 <= i < text.len() && #[trigger] glyph_covers(text[i], char_left(x0, i, scale), y0, scale, x, y)
}

/// The lit cells of the glyph of `c` that come before cell
/// `(rows_done, cols_done)` in row-major order, as a region of pixels.
pub open spec fn glyph_prefix_region(
    c: char,
    gx: int,
    gy: int,
    scale: int,
    rows_done: int,
    cols_done: int,
) -> spec_fn(int, int) -> bool {
    |x: int, y: int|
        exists|r: int, k: int|
            0 <= r < FONT_H && 0 <= k < FONT_W && (r < rows_done || (r == rows_done && k
                < cols_done)) && #[trigger] glyph_cell_covers(c, gx, gy, scale, r, k, x, y)
}

/// Painting a region is painting any region with the same pixels.
proof fn lemma_painted_same_region(
    a: Map<(u32, u32), [u8; 4]>,
    b: Map<(u32, u32), [u8; 4]>,
    size: (u32, u32),
    r1: spec_fn(int, int) -> bool,
    r2: spec_fn(int, int) -> bool,
    color: [u8; 4],
)
    requires
        painted(a, b, size, r1, color),
        forall|x: int, y: int| #[trigger] r2(x, y) == r1(x, y),
    ensures
        painted(a, b, size, r2, color),
{
    assert forall|p: (u32, u32)| b.dom().contains(p) implies b[p] == (if r2(p.0 as int, p.1 as int)
        && p.0 < size.0 && p.1 < size.1 {
        color
    } else {
        a[p]
    }) by {
        assert(r2(p.0 as int, p.1 as int) == r1(p.0 as int, p.1 as int));
    }
}

/// Draws the glyph of `c` with its top-left corner at `(gx, gy)`, each cell
/// `scale` pixels wide and high.
pub fn draw_glyph(canvas: &mut RgbaCanvas, c: char, gx: i32, gy: i32, scale: i32, color: [u8; 4])
    requires
        scale > 0,
        (FONT_H - 1) * scale <= i32::MAX,
        gx + FONT_W * scale <= i32::MAX + 1,
        gy + FONT_H * scale <= i32::MAX + 1,
    ensures
        canvas_size(*final(canvas)) == canvas_size(*old(canvas)),
        canvas_wf(*final(canvas)) == canvas_wf(*old(canvas)),
        painted(
            canvas_pixels(*old(canvas)),
            canvas_pixels(*final(canvas)),
            canvas_size(*old(canvas)),
            |x: int, y: int| glyph_covers(c, gx as int, gy as int, scale as int, x, y),
            color,
        ),
{
    let ghost before = canvas_pixels(*canvas);
    let ghost size = canvas_size(*canvas);
    let ghost (gxi, gyi, si) = (gx as int, gy as int, scale as int);
    let rows = glyph(c);
    proof {
        lemma_glyph_shape(c);
        lemma_painted_nothing(before, size, glyph_prefix_region(c, gxi, gyi, si, 0, 0), color);
    }
    let mut row: usize = 0;
    while row < FONT_H
        invariant
            row <= FONT_H,
            scale > 0,
            gxi == gx,
            gyi == gy,
            si == scale,
            (FONT_H - 1) * scale <= i32::MAX,
            gx + FONT_W * scale <= i32::MAX + 1,
            gy + FONT_H * scale <= i32::MAX + 1,
            forall|i: int| 0 <= i < 5 ==> #[trigger] rows[i]@ == glyph_rows(c)[i],
            glyph_rows(c).len() == FONT_H,
            forall|i: int| 0 <= i < FONT_H ==> #[trigger] glyph_rows(c)[i].len() == FONT_W,
            canvas_size(*canvas) == size,
            painted(
                before,
                canvas_pixels(*canvas),
                size,
                glyph_prefix_region(c, gxi, gyi, si, row as int, 0),
                color,
            ),
        decreases FONT_H - row,
    {
        let line = rows[row];
        let n = line.unicode_len();
        let mut col: usize = 0;
        while col < n
            invariant
                row < FONT_H,
                n == FONT_W,
                n == line@.len(),
                col <= n,
                line@ == glyph_rows(c)[row as int],
                scale > 0,
                gxi == gx,
                gyi == gy,
                si == scale,
                (FONT_H - 1) * scale <= i32::MAX,
            gx + FONT_W * scale <= i32::MAX + 1,
                gy + FONT_H * scale <= i32::MAX + 1,
                canvas_size(*canvas) == size,
                painted(
                    before,
                    canvas_pixels(*canvas),
                    size,
                    glyph_prefix_region(c, gxi, gyi, si, row as int, col as int),
                    color,
                ),
            decreases n - col,
        {
            let ghost pre = canvas_pixels(*canvas);
            let ghost r_now = glyph_prefix_region(c, gxi, gyi, si, row as int, col as int);
            let ghost r_next = glyph_prefix_region(c, gxi, gyi, si, row as int, col + 1);
            let cell = line.get_char(col);
            if cell == '#' {
                assert(col * scale <= 2 * scale) by (nonlinear_arith)
                    requires
                        col < 3,
                        scale > 0,
                ;
                assert(row * scale <= 4 * scale) by (nonlinear_arith)
                    requires
                        row < 5,
                        scale > 0,
                ;
                let px = gx + (col as i32) * scale;
                let py = gy + (row as i32) * scale;
                fill_square(canvas, px, py, scale, color);
                let ghost sq = |x: int, y: int| in_square(px as int, py as int, scale as int, x, y);
                assert forall|x: int, y: int| #[trigger] r_next(x, y) == (r_now(x, y) || sq(x, y)) by {
                    if sq(x, y) {
                        assert(glyph_cell_covers(c, gxi, gyi, si, row as int, col as int, x, y));
                    }
                    if r_next(x, y) && !sq(x, y) {
                        let (r, k) = choose|r: int, k: int|
                            0 <= r < FONT_H && 0 <= k < FONT_W && (r < row || (r == row && k
                                < col + 1)) && #[trigger] glyph_cell_covers(c, gxi, gyi, si, r, k, x, y);
                        assert(r < row || k < col);
                    }
                }
                proof {
                    lemma_painted_compose(before, pre, canvas_pixels(*canvas), size, r_now, sq, r_next, color);
                }
            } else {
                assert forall|x: int, y: int| #[trigger] r_next(x, y) == r_now(x, y) by {
                    if r_next(x, y) {
                        let (r, k) = choose|r: int, k: int|
                            0 <= r < FONT_H && 0 <= k < FONT_W && (r < row || (r == row && k
                                < col + 1)) && #[trigger] glyph_cell_covers(c, gxi, gyi, si, r, k, x, y);
                        assert(r < row || k < col);
                    }
                }
                proof {
                    lemma_painted_same_region(before, pre, size, r_now, r_next, color);
                }
            }
            col = col + 1;
        }
        let ghost r_end = glyph_prefix_region(c, gxi, gyi, si, row as int, FONT_W as int);
        let ghost r_row = glyph_prefix_region(c, gxi, gyi, si, row + 1, 0);
        assert forall|x: int, y: int| #[trigger] r_row(x, y) == r_end(x, y) by {
            if r_row(x, y) {
                let (r, k) = choose|r: int, k: int|
                    0 <= r < FONT_H && 0 <= k < FONT_W && (r < row + 1 || (r == row + 1 && k
                        < 0)) && #[trigger] glyph_cell_covers(c, gxi, gyi, si, r, k, x, y);
                assert(glyph_cell_covers(c, gxi, gyi, si, r, k, x, y));
            }
            if r_end(x, y) {
                let (r, k) = choose|r: int, k: int|
                    0 <= r < FONT_H && 0 <= k < FONT_W && (r < row || (r == row && k
                        < FONT_W)) && #[trigger] glyph_cell_covers(c, gxi, gyi, si, r, k, x, y);
                assert(glyph_cell_covers(c, gxi, gyi, si, r, k, x, y));
            }
        }
        proof {
            lemma_painted_same_region(before, canvas_pixels(*canvas), size, r_end, r_row, color);
        }
        row = row + 1;
    }
    let ghost r_all = glyph_prefix_region(c, gxi, gyi, si, FONT_H as int, 0);
    let ghost r_spec = |x: int, y: int| glyph_covers(c, gx as int, gy as int, scale as int, x, y);
    assert forall|x: int, y: int| #[trigger] r_spec(x, y) == r_all(x, y) by {
        if r_spec(x, y) {
            let (r, k) = choose|r: int, k: int|
                0 <= r < FONT_H && 0 <= k < FONT_W && #[trigger] glyph_cell_covers(c, gxi, gyi, si, r, k, x, y);
            assert(glyph_cell_covers(c, gxi, gyi, si, r, k, x, y));
        }
        if r_all(x, y) {
            let (r, k) = choose|r: int, k: int|
                0 <= r < FONT_H && 0 <= k < FONT_W && (r < FONT_H || (r == FONT_H && k
                    < 0)) && #[trigger] glyph_cell_covers(c, gxi, gyi, si, r, k, x, y);
            assert(glyph_cell_covers(c, gxi, gyi, si, r, k, x, y));
        }
    }
    proof {
        lemma_painted_same_region(before, canvas_pixels(*canvas), size, r_all, r_spec, color);
    }
}

/// The characters of `text` before position `done`, drawn from `(x0, y0)`,
/// as a region of pixels.
pub open spec fn text_prefix_region(
    text: Seq<char>,
    x0: int,
    y0: int,
    scale: int,
    done: int,
) -> spec_fn(int, int) -> bool {
    |x: int, y: int|
        exists|i: int|
            0 <= i < done && #[trigger] glyph_covers(text[i], char_left(x0, i, scale), y0, scale, x, y)
}

/// The coordinates drawing `len` characters from `(x0, y0)` computes stay
/// within `i32`: the left edge of the last character, the right edge of
/// its last column and the bottom edge of the last row. Nothing is drawn,
/// and nothing is computed, for an empty text or a scale of 0 or less.
pub open spec fn text_fits(len: int, x0: int, y0: int, scale: int) -> bool {
    scale <= 0 || len == 0 || {
        &&& (len - 1) * ((FONT_W + 1) * scale) <= i32::MAX
        &&& x0 + (len - 1) * ((FONT_W + 1) * scale) + FONT_W * scale <= i32::MAX + 1
        &&& (FONT_H - 1) * scale <= i32::MAX
        &&& y0 + FONT_H * scale <= i32::MAX + 1
    }
}

/// Draws `text` in the overlay font, its first character's top-left corner
/// at `(x0, y0)`, each cell `scale` pixels wide and high, one blank cell
/// between characters. Only pixels inside the canvas are touched.
pub fn draw_text(canvas: &mut RgbaCanvas, text: &str, x0: i32, y0: i32, scale: i32, color: [u8; 4])
    requires
        text_fits(text@.len() as int, x0 as int, y0 as int, scale as int),
    ensures
        canvas_size(*final(canvas)) == canvas_size(*old(canvas)),
        canvas_wf(*final(canvas)) == canvas_wf(*old(canvas)),
        painted(
            canvas_pixels(*old(canvas)),
            canvas_pixels(*final(canvas)),
            canvas_size(*old(canvas)),
            |x: int, y: int| text_covers(text@, x0 as int, y0 as int, scale as int, x, y),
            color,
        ),
{
    let ghost before = canvas_pixels(*canvas);
    let ghost size = canvas_size(*canvas);
    let ghost (x0i, y0i, si) = (x0 as int, y0 as int, scale as int);
    let ghost r_spec = |x: int, y: int| text_covers(text@, x0 as int, y0 as int, scale as int, x, y);
    if scale <= 0 {
        assert forall|x: int, y: int| !#[trigger] r_spec(x, y) by {
            if r_spec(x, y) {
                let i = choose|i: int|
                    0 <= i < text@.len() && #[trigger] glyph_covers(
                        text@[i],
                        char_left(x0i, i, si),
                        y0i,
                        si,
                        x,
                        y,
                    );
                let (r, k) = choose|r: int, k: int|
                    0 <= r < FONT_H && 0 <= k < FONT_W && #[trigger] glyph_cell_covers(
                        text@[i],
                        char_left(x0i, i, si),
                        y0i,
                        si,
                        r,
                        k,
                        x,
                        y,
                    );
            }
        }
        proof {
            lemma_painted_nothing(before, size, r_spec, color);
        }
        return;
    }
    let n = text.unicode_len();
    proof {
        lemma_painted_nothing(before, size, text_prefix_region(text@, x0i, y0i, si, 0), color);
    }
    let mut i: usize = 0;
    while i < n
        invariant
            i <= n,
            n == text@.len(),
            scale > 0,
            x0i == x0,
            y0i == y0,
            si == scale,
            text_fits(n as int, x0 as int, y0 as int, scale as int),
            canvas_size(*canvas) == size,
            painted(
                before,
                canvas_pixels(*canvas),
                size,
                text_prefix_region(text@, x0i, y0i, si, i as int),
                color,
            ),
        decreases n - i,
    {
        let ghost pre = canvas_pixels(*canvas);
        let ch = text.get_char(i);
        assert(i * 4 * scale == i * ((FONT_W + 1) * scale) && i * ((FONT_W + 1) * scale) <= (n - 1)
            * ((FONT_W + 1) * scale) && 0 <= i * 4 && i * 4 <= i * 4 * scale) by (nonlinear_arith)
            requires
                i < n,
                scale > 0,
        ;
        let gx = x0 + (i as i32) * (FONT_W as i32 + 1) * scale;
        draw_glyph(canvas, ch, gx, y0, scale, color);
        let ghost r_now = text_prefix_region(text@, x0i, y0i, si, i as int);
        let ghost r_next = text_prefix_region(text@, x0i, y0i, si, i + 1);
        let ghost g = |x: int, y: int| glyph_covers(ch, gx as int, y0 as int, scale as int, x, y);
        assert forall|x: int, y: int| #[trigger] r_next(x, y) == (r_now(x, y) || g(x, y)) by {
            if g(x, y) {
                assert(glyph_covers(text@[i as int], char_left(x0i, i as int, si), y0i, si, x, y));
            }
            if r_next(x, y) && !g(x, y) {
                let j = choose|j: int|
                    0 <= j < i + 1 && #[trigger] glyph_covers(
                        text@[j],
                        char_left(x0i, j, si),
                        y0i,
                        si,
                        x,
                        y,
                    );
                assert(j < i);
            }
        }
        proof {
            lemma_painted_compose(before, pre, canvas_pixels(*canvas), size, r_now, g, r_next, color);
        }
        i = i + 1;
    }
    assert forall|x: int, y: int| #[trigger] r_spec(x, y) == text_prefix_region(
        text@,
        x0i,
        y0i,
        si,
        n as int,
    )(x, y) by {}
    proof {
        lemma_painted_same_region(
            before,
            canvas_pixels(*canvas),
            size,
            text_prefix_region(text@, x0i, y0i, si, n as int),
            r_spec,
            color,
        );
    }
}

/// Width of the timing overlay, in pixels.
pub const OVERLAY_WIDTH: u32 = 132;

/// Height of the timing overlay, in pixels.
pub const OVERLAY_HEIGHT: u32 = 84;

/// Background colour of the timing overlay.
pub const OVERLAY_BACKGROUND: [u8; 4] = [0, 0, 0, 170];

/// Text colour of the timing overlay.
pub const OVERLAY_TEXT: [u8; 4] = [80, 255, 120, 255];

/// The four lines of the timing overlay: the audio, effect, drawing and
/// total timings, each behind its label.
pub open spec fn overlay_lines(audio: Seq<char>, effect: Seq<char>, draw: Seq<char>, total: Seq<char>) -> Seq<Seq<char>> {
    seq!["AUD "@ + audio, "FX  "@ + effect, "DRW "@ + draw, "TOT "@ + total]
}

/// A line of the overlay can be drawn from `(4, y)` at scale 2, with `y`
/// at most 58, without leaving `i32`.
pub open spec fn overlay_line_fits(line: Seq<char>) -> bool {
    line.len() == 0 || 10 + (line.len() - 1) * 8 <= i32::MAX + 1
}

/// The colour of pixel `(x, y)` of the timing overlay: the text colour where
/// a lit cell of line `k`, drawn at `(4, 4 + 18 k)` with scale 2, covers it,
/// the background elsewhere.
pub open spec fn overlay_pixel(lines: Seq<Seq<char>>, x: int, y: int) -> [u8; 4] {
    if exists|k: int| 0 <= k < 4 && #[trigger] text_covers(lines[k], 4, 4 + 18 * k, 2, x, y) {
        OVERLAY_TEXT
    } else {
        OVERLAY_BACKGROUND
    }
}

/// Renders the timing overlay and returns its RGBA bytes, row after row.
pub fn render_overlay(audio: &str, effect: &str, draw: &str, total: &str) -> (bytes: Vec<u8>)
    requires
        forall|k: int| 0 <= k < 4 ==> #[trigger] overlay_line_fits(overlay_lines(audio@, effect@, draw@, total@)[k]),
    ensures
        bytes@.len() == 4 * OVERLAY_WIDTH * OVERLAY_HEIGHT,
        forall|x: u32, y: u32, c: int|
            #![trigger bytes@[byte_offset(OVERLAY_WIDTH, x, y) + c]]
            x < OVERLAY_WIDTH && y < OVERLAY_HEIGHT && 0 <= c < 4
                ==> bytes@[byte_offset(OVERLAY_WIDTH, x, y) + c]
                == overlay_pixel(overlay_lines(audio@, effect@, draw@, total@), x as int, y as int)[c],
{
    let ghost lines = overlay_lines(audio@, effect@, draw@, total@);
    let mut canvas = RgbaCanvas::filled(OVERLAY_WIDTH, OVERLAY_HEIGHT, OVERLAY_BACKGROUND);
    let ghost p0 = canvas_pixels(canvas);
    let ghost size = canvas_size(canvas);
    let mut line = String::from_str("AUD ");
    line.append(audio);
    assert(overlay_line_fits(lines[0]));
    draw_text(&mut canvas, line.as_str(), 4, 4, 2, OVERLAY_TEXT);
    let ghost p1 = canvas_pixels(canvas);
    let mut line = String::from_str("FX  ");
    line.append(effect);
    assert(overlay_line_fits(lines[1]));
    draw_text(&mut canvas, line.as_str(), 4, 22, 2, OVERLAY_TEXT);
    let ghost p2 = canvas_pixels(canvas);
    let mut line = String::from_str("DRW ");
    line.append(draw);
    assert(overlay_line_fits(lines[2]));
    draw_text(&mut canvas, line.as_str(), 4, 40, 2, OVERLAY_TEXT);
    let ghost p3 = canvas_pixels(canvas);
    let mut line = String::from_str("TOT ");
    line.append(total);
    assert(overlay_line_fits(lines[3]));
    draw_text(&mut canvas, line.as_str(), 4, 58, 2, OVERLAY_TEXT);
    let ghost p4 = canvas_pixels(canvas);
    assert forall|x: u32, y: u32| #[trigger] p4.dom().contains((x, y)) implies p4[(x, y)]
        == overlay_pixel(lines, x as int, y as int) by {
        let xi = x as int;
        let yi = y as int;
        assert(p0.dom().contains((x, y)));
        assert(p1.dom().contains((x, y)));
        assert(p2.dom().contains((x, y)));
        assert(p3.dom().contains((x, y)));
        if text_covers(lines[0], 4, 4, 2, xi, yi) {
            assert(text_covers(lines[0], 4, 4 + 18 * (0 as int), 2, xi, yi));
        }
        if text_covers(lines[1], 4, 22, 2, xi, yi) {
            assert(text_covers(lines[1], 4, 4 + 18 * (1 as int), 2, xi, yi));
        }
        if text_covers(lines[2], 4, 40, 2, xi, yi) {
            assert(text_covers(lines[2], 4, 4 + 18 * (2 as int), 2, xi, yi));
        }
        if text_covers(lines[3], 4, 58, 2, xi, yi) {
            assert(text_covers(lines[3], 4, 4 + 18 * (3 as int), 2, xi, yi));
        }
    }
    let bytes = canvas.into_raw();
    assert forall|x: u32, y: u32, c: int|
        x < OVERLAY_WIDTH && y < OVERLAY_HEIGHT && 0 <= c < 4 implies #[trigger] bytes@[byte_offset(
        OVERLAY_WIDTH,
        x,
        y,
    ) + c] == overlay_pixel(lines, x as int, y as int)[c] by {
        assert(in_bounds(OVERLAY_WIDTH, OVERLAY_HEIGHT).contains((x, y)));
        assert(p4.dom().contains((x, y)));
    }
    bytes
}

/// Letters are drawn the same in either case.
pub proof fn lemma_glyph_ignores_case(c: char)
    ensures
        glyph_rows(c) == glyph_rows(ascii_upper(c)),
{
    if 'a' <= c && c <= 'z' {
        let u = ascii_upper(c);
        assert('A' <= u && u <= 'Z');
    }
}

/// A cell in which the glyphs of two characters of the font differ.
spec fn glyph_difference(c: char, d: char) -> (int, int) {
    if c == '0' && d == '1' {
        (0, 0)
    } else
    if c == '0' && d == '2' {
        (1, 0)
    } else
    if c == '0' && d == '3' {
        (1, 0)
    } else
    if c == '0' && d == '4' {
        (0, 1)
    } else
    if c == '0' && d == '5' {
        (1, 2)
    } else
    if c == '0' && d == '6' {
        (1, 2)
    } else
    if c == '0' && d == '7' {
        (1, 0)
    } else
    if c == '0' && d == '8' {
        (2, 1)
    } else
    if c == '0' && d == '9' {
        (2, 1)
    } else
    if c == '0' && d == 'A' {
        (0, 0)
    } else
    if c == '0' && d == 'D' {
        (0, 2)
    } else
    if c == '0' && d == 'F' {
        (1, 2)
    } else
    if c == '0' && d == 'M' {
        (0, 1)
    } else
    if c == '0' && d == 'N' {
        (0, 1)
    } else
    if c == '0' && d == 'R' {
        (0, 2)
    } else
    if c == '0' && d == 'S' {
        (1, 2)
    } else
    if c == '0' && d == 'T' {
        (1, 0)
    } else
    if c == '0' && d == 'U' {
        (0, 1)
    } else
    if c == '0' && d == 'W' {
        (0, 1)
    } else
    if c == '0' && d == 'X' {
        (0, 1)
    } else
    if c == '0' && d == ':' {
        (0, 0)
    } else
    if c == '0' && d == '.' {
        (0, 0)
    } else
    if c == '0' && d == ' ' {
        (0, 0)
    } else
    if c == '1' && d == '0' {
        (0, 0)
    } else
    if c == '1' && d == '2' {
        (0, 0)
    } else
    if c == '1' && d == '3' {
        (0, 0)
    } else
    if c == '1' && d == '4' {
        (0, 0)
    } else
    if c == '1' && d == '5' {
        (0, 0)
    } else
    if c == '1' && d == '6' {
        (0, 0)
    } else
    if c == '1' && d == '7' {
        (0, 0)
    } else
    if c == '1' && d == '8' {
        (0, 0)
    } else
    if c == '1' && d == '9' {
        (0, 0)
    } else
    if c == '1' && d == 'A' {
        (1, 1)
    } else
    if c == '1' && d == 'D' {
        (0, 0)
    } else
    if c == '1' && d == 'F' {
        (0, 0)
    } else
    if c == '1' && d == 'M' {
        (0, 0)
    } else
    if c == '1' && d == 'N' {
        (0, 0)
    } else
    if c == '1' && d == 'O' {
        (0, 0)
    } else
    if c == '1' && d == 'R' {
        (0, 0)
    } else
    if c == '1' && d == 'S' {
        (0, 0)
    } else
    if c == '1' && d == 'T' {
        (0, 0)
    } else
    if c == '1' && d == 'U' {
        (0, 0)
    } else
    if c == '1' && d == 'W' {
        (0, 0)
    } else
    if c == '1' && d == 'X' {
        (0, 0)
    } else
    if c == '1' && d == ':' {
        (0, 1)
    } else
    if c == '1' && d == '.' {
        (0, 1)
    } else
    if c == '1' && d == ' ' {
        (0, 1)
    } else
    if c == '2' && d == '0' {
        (1, 0)
    } else
    if c == '2' && d == '1' {
        (0, 0)
    } else
    if c == '2' && d == '3' {
        (3, 0)
    } else
    if c == '2' && d == '4' {
        (0, 1)
    } else
    if c == '2' && d == '5' {
        (1, 0)
    } else
    if c == '2' && d == '6' {
        (1, 0)
    } else
    if c == '2' && d == '7' {
        (2, 0)
    } else
    if c == '2' && d == '8' {
        (1, 0)
    } else
    if c == '2' && d == '9' {
        (1, 0)
    } else
    if c == '2' && d == 'A' {
        (0, 0)
    } else
    if c == '2' && d == 'D' {
        (0, 2)
    } else
    if c == '2' && d == 'F' {
        (1, 0)
    } else
    if c == '2' && d == 'M' {
        (0, 1)
    } else
    if c == '2' && d == 'N' {
        (0, 1)
    } else
    if c == '2' && d == 'O' {
        (1, 0)
    } else
    if c == '2' && d == 'R' {
        (0, 2)
    } else
    if c == '2' && d == 'S' {
        (1, 0)
    } else
    if c == '2' && d == 'T' {
        (1, 1)
    } else
    if c == '2' && d == 'U' {
        (0, 1)
    } else
    if c == '2' && d == 'W' {
        (0, 1)
    } else
    if c == '2' && d == 'X' {
        (0, 1)
    } else
    if c == '2' && d == ':' {
        (0, 0)
    } else
    if c == '2' && d == '.' {
        (0, 0)
    } else
    if c == '2' && d == ' ' {
        (0, 0)
    } else
    if c == '3' && d == '0' {
        (1, 0)
    } else
    if c == '3' && d == '1' {
        (0, 0)
    } else
    if c == '3' && d == '2' {
        (3, 0)
    } else
    if c == '3' && d == '4' {
        (0, 1)
    } else
    if c == '3' && d == '5' {
        (1, 0)
    } else
    if c == '3' && d == '6' {
        (1, 0)
    } else
    if c == '3' && d == '7' {
        (2, 0)
    } else
    if c == '3' && d == '8' {
        (1, 0)
    } else
    if c == '3' && d == '9' {
        (1, 0)
    } else
    if c == '3' && d == 'A' {
        (0, 0)
    } else
    if c == '3' && d == 'D' {
        (0, 2)
    } else
    if c == '3' && d == 'F' {
        (1, 0)
    } else
    if c == '3' && d == 'M' {
        (0, 1)
    } else
    if c == '3' && d == 'N' {
        (0, 1)
    } else
    if c == '3' && d == 'O' {
        (1, 0)
    } else
    if c == '3' && d == 'R' {
        (0, 2)
    } else
    if c == '3' && d == 'S' {
        (1, 0)
    } else
    if c == '3' && d == 'T' {
        (1, 1)
    } else
    if c == '3' && d == 'U' {
        (0, 1)
    } else
    if c == '3' && d == 'W' {
        (0, 1)
    } else
    if c == '3' && d == 'X' {
        (0, 1)
    } else
    if c == '3' && d == ':' {
        (0, 0)
    } else
    if c == '3' && d == '.' {
        (0, 0)
    } else
    if c == '3' && d == ' ' {
        (0, 0)
    } else
    if c == '4' && d == '0' {
        (0, 1)
    } else
    if c == '4' && d == '1' {
        (0, 0)
    } else
    if c == '4' && d == '2' {
        (0, 1)
    } else
    if c == '4' && d == '3' {
        (0, 1)
    } else
    if c == '4' && d == '5' {
        (0, 1)
    } else
    if c == '4' && d == '6' {
        (0, 1)
    } else
    if c == '4' && d == '7' {
        (0, 1)
    } else
    if c == '4' && d == '8' {
        (0, 1)
    } else
    if c == '4' && d == '9' {
        (0, 1)
    } else
    if c == '4' && d == 'A' {
        (0, 0)
    } else
    if c == '4' && d == 'D' {
        (0, 1)
    } else
    if c == '4' && d == 'F' {
        (0, 1)
    } else
    if c == '4' && d == 'M' {
        (1, 1)
    } else
    if c == '4' && d == 'N' {
        (1, 1)
    } else
    if c == '4' && d == 'O' {
        (0, 1)
    } else
    if c == '4' && d == 'R' {
        (0, 1)
    } else
    if c == '4' && d == 'S' {
        (0, 1)
    } else
    if c == '4' && d == 'T' {
        (0, 1)
    } else
    if c == '4' && d == 'U' {
        (2, 1)
    } else
    if c == '4' && d == 'W' {
        (2, 1)
    } else
    if c == '4' && d == 'X' {
        (2, 0)
    } else
    if c == '4' && d == ':' {
        (0, 0)
    } else
    if c == '4' && d == '.' {
        (0, 0)
    } else
    if c == '4' && d == ' ' {
        (0, 0)
    } else
    if c == '5' && d == '0' {
        (1, 2)
    } else
    if c == '5' && d == '1' {
        (0, 0)
    } else
    if c == '5' && d == '2' {
        (1, 0)
    } else
    if c == '5' && d == '3' {
        (1, 0)
    } else
    if c == '5' && d == '4' {
        (0, 1)
    } else
    if c == '5' && d == '6' {
        (3, 0)
    } else
    if c == '5' && d == '7' {
        (1, 0)
    } else
    if c == '5' && d == '8' {
        (1, 2)
    } else
    if c == '5' && d == '9' {
        (1, 2)
    } else
    if c == '5' && d == 'A' {
        (0, 0)
    } else
    if c == '5' && d == 'D' {
        (0, 2)
    } else
    if c == '5' && d == 'F' {
        (2, 2)
    } else
    if c == '5' && d == 'M' {
        (0, 1)
    } else
    if c == '5' && d == 'N' {
        (0, 1)
    } else
    if c == '5' && d == 'O' {
        (1, 2)
    } else
    if c == '5' && d == 'R' {
        (0, 2)
    } else
    if c == '5' && d == 'T' {
        (1, 0)
    } else
    if c == '5' && d == 'U' {
        (0, 1)
    } else
    if c == '5' && d == 'W' {
        (0, 1)
    } else
    if c == '5' && d == 'X' {
        (0, 1)
    } else
    if c == '5' && d == ':' {
        (0, 0)
    } else
    if c == '5' && d == '.' {
        (0, 0)
    } else
    if c == '5' && d == ' ' {
        (0, 0)
    } else
    if c == '6' && d == '0' {
        (1, 2)
    } else
    if c == '6' && d == '1' {
        (0, 0)
    } else
    if c == '6' && d == '2' {
        (1, 0)
    } else
    if c == '6' && d == '3' {
        (1, 0)
    } else
    if c == '6' && d == '4' {
        (0, 1)
    } else
    if c == '6' && d == '5' {
        (3, 0)
    } else
    if c == '6' && d == '7' {
        (1, 0)
    } else
    if c == '6' && d == '8' {
        (1, 2)
    } else
    if c == '6' && d == '9' {
        (1, 2)
    } else
    if c == '6' && d == 'A' {
        (0, 0)
    } else
    if c == '6' && d == 'D' {
        (0, 2)
    } else
    if c == '6' && d == 'F' {
        (2, 2)
    } else
    if c == '6' && d == 'M' {
        (0, 1)
    } else
    if c == '6' && d == 'N' {
        (0, 1)
    } else
    if c == '6' && d == 'O' {
        (1, 2)
    } else
    if c == '6' && d == 'R' {
        (0, 2)
    } else
    if c == '6' && d == 'S' {
        (3, 0)
    } else
    if c == '6' && d == 'T' {
        (1, 0)
    } else
    if c == '6' && d == 'U' {
        (0, 1)
    } else
    if c == '6' && d == 'W' {
        (0, 1)
    } else
    if c == '6' && d == 'X' {
        (0, 1)
    } else
    if c == '6' && d == ':' {
        (0, 0)
    } else
    if c == '6' && d == '.' {
        (0, 0)
    } else
    if c == '6' && d == ' ' {
        (0, 0)
    } else
    if c == '7' && d == '0' {
        (1, 0)
    } else
    if c == '7' && d == '1' {
        (0, 0)
    } else
    if c == '7' && d == '2' {
        (2, 0)
    } else
    if c == '7' && d == '3' {
        (2, 0)
    } else
    if c == '7' && d == '4' {
        (0, 1)
    } else
    if c == '7' && d == '5' {
        (1, 0)
    } else
    if c == '7' && d == '6' {
        (1, 0)
    } else
    if c == '7' && d == '8' {
        (1, 0)
    } else
    if c == '7' && d == '9' {
        (1, 0)
    } else
    if c == '7' && d == 'A' {
        (0, 0)
    } else
    if c == '7' && d == 'D' {
        (0, 2)
    } else
    if c == '7' && d == 'F' {
        (1, 0)
    } else
    if c == '7' && d == 'M' {
        (0, 1)
    } else
    if c == '7' && d == 'N' {
        (0, 1)
    } else
    if c == '7' && d == 'O' {
        (1, 0)
    } else
    if c == '7' && d == 'R' {
        (0, 2)
    } else
    if c == '7' && d == 'S' {
        (1, 0)
    } else
    if c == '7' && d == 'T' {
        (1, 1)
    } else
    if c == '7' && d == 'U' {
        (0, 1)
    } else
    if c == '7' && d == 'W' {
        (0, 1)
    } else
    if c == '7' && d == 'X' {
        (0, 1)
    } else
    if c == '7' && d == ':' {
        (0, 0)
    } else
    if c == '7' && d == '.' {
        (0, 0)
    } else
    if c == '7' && d == ' ' {
        (0, 0)
    } else
    if c == '8' && d == '0' {
        (2, 1)
    } else
    if c == '8' && d == '1' {
        (0, 0)
    } else
    if c == '8' && d == '2' {
        (1, 0)
    } else
    if c == '8' && d == '3' {
        (1, 0)
    } else
    if c == '8' && d == '4' {
        (0, 1)
    } else
    if c == '8' && d == '5' {
        (1, 2)
    } else
    if c == '8' && d == '6' {
        (1, 2)
    } else
    if c == '8' && d == '7' {
        (1, 0)
    } else
    if c == '8' && d == '9' {
        (3, 0)
    } else
    if c == '8' && d == 'A' {
        (0, 0)
    } else
    if c == '8' && d == 'D' {
        (0, 2)
    } else
    if c == '8' && d == 'F' {
        (1, 2)
    } else
    if c == '8' && d == 'M' {
        (0, 1)
    } else
    if c == '8' && d == 'N' {
        (0, 1)
    } else
    if c == '8' && d == 'O' {
        (2, 1)
    } else
    if c == '8' && d == 'R' {
        (0, 2)
    } else
    if c == '8' && d == 'S' {
        (1, 2)
    } else
    if c == '8' && d == 'T' {
        (1, 0)
    } else
    if c == '8' && d == 'U' {
        (0, 1)
    } else
    if c == '8' && d == 'W' {
        (0, 1)
    } else
    if c == '8' && d == 'X' {
        (0, 1)
    } else
    if c == '8' && d == ':' {
        (0, 0)
    } else
    if c == '8' && d == '.' {
        (0, 0)
    } else
    if c == '8' && d == ' ' {
        (0, 0)
    } else
    if c == '9' && d == '0' {
        (2, 1)
    } else
    if c == '9' && d == '1' {
        (0, 0)
    } else
    if c == '9' && d == '2' {
        (1, 0)
    } else
    if c == '9' && d == '3' {
        (1, 0)
    } else
    if c == '9' && d == '4' {
        (0, 1)
    } else
    if c == '9' && d == '5' {
        (1, 2)
    } else
    if c == '9' && d == '6' {
        (1, 2)
    } else
    if c == '9' && d == '7' {
        (1, 0)
    } else
    if c == '9' && d == '8' {
        (3, 0)
    } else
    if c == '9' && d == 'A' {
        (0, 0)
    } else
    if c == '9' && d == 'D' {
        (0, 2)
    } else
    if c == '9' && d == 'F' {
        (1, 2)
    } else
    if c == '9' && d == 'M' {
        (0, 1)
    } else
    if c == '9' && d == 'N' {
        (0, 1)
    } else
    if c == '9' && d == 'O' {
        (2, 1)
    } else
    if c == '9' && d == 'R' {
        (0, 2)
    } else
    if c == '9' && d == 'S' {
        (1, 2)
    } else
    if c == '9' && d == 'T' {
        (1, 0)
    } else
    if c == '9' && d == 'U' {
        (0, 1)
    } else
    if c == '9' && d == 'W' {
        (0, 1)
    } else
    if c == '9' && d == 'X' {
        (0, 1)
    } else
    if c == '9' && d == ':' {
        (0, 0)
    } else
    if c == '9' && d == '.' {
        (0, 0)
    } else
    if c == '9' && d == ' ' {
        (0, 0)
    } else
    if c == 'A' && d == '0' {
        (0, 0)
    } else
    if c == 'A' && d == '1' {
        (1, 1)
    } else
    if c == 'A' && d == '2' {
        (0, 0)
    } else
    if c == 'A' && d == '3' {
        (0, 0)
    } else
    if c == 'A' && d == '4' {
        (0, 0)
    } else
    if c == 'A' && d == '5' {
        (0, 0)
    } else
    if c == 'A' && d == '6' {
        (0, 0)
    } else
    if c == 'A' && d == '7' {
        (0, 0)
    } else
    if c == 'A' && d == '8' {
        (0, 0)
    } else
    if c == 'A' && d == '9' {
        (0, 0)
    } else
    if c == 'A' && d == 'D' {
        (0, 0)
    } else
    if c == 'A' && d == 'F' {
        (0, 0)
    } else
    if c == 'A' && d == 'M' {
        (0, 0)
    } else
    if c == 'A' && d == 'N' {
        (0, 0)
    } else
    if c == 'A' && d == 'O' {
        (0, 0)
    } else
    if c == 'A' && d == 'R' {
        (0, 0)
    } else
    if c == 'A' && d == 'S' {
        (0, 0)
    } else
    if c == 'A' && d == 'T' {
        (0, 0)
    } else
    if c == 'A' && d == 'U' {
        (0, 0)
    } else
    if c == 'A' && d == 'W' {
        (0, 0)
    } else
    if c == 'A' && d == 'X' {
        (0, 0)
    } else
    if c == 'A' && d == ':' {
        (0, 1)
    } else
    if c == 'A' && d == '.' {
        (0, 1)
    } else
    if c == 'A' && d == ' ' {
        (0, 1)
    } else
    if c == 'D' && d == '0' {
        (0, 2)
    } else
    if c == 'D' && d == '1' {
        (0, 0)
    } else
    if c == 'D' && d == '2' {
        (0, 2)
    } else
    if c == 'D' && d == '3' {
        (0, 2)
    } else
    if c == 'D' && d == '4' {
        (0, 1)
    } else
    if c == 'D' && d == '5' {
        (0, 2)
    } else
    if c == 'D' && d == '6' {
        (0, 2)
    } else
    if c == 'D' && d == '7' {
        (0, 2)
    } else
    if c == 'D' && d == '8' {
        (0, 2)
    } else
    if c == 'D' && d == '9' {
        (0, 2)
    } else
    if c == 'D' && d == 'A' {
        (0, 0)
    } else
    if c == 'D' && d == 'F' {
        (0, 2)
    } else
    if c == 'D' && d == 'M' {
        (0, 1)
    } else
    if c == 'D' && d == 'N' {
        (0, 1)
    } else
    if c == 'D' && d == 'O' {
        (0, 2)
    } else
    if c == 'D' && d == 'R' {
        (2, 1)
    } else
    if c == 'D' && d == 'S' {
        (0, 2)
    } else
    if c == 'D' && d == 'T' {
        (0, 2)
    } else
    if c == 'D' && d == 'U' {
        (0, 1)
    } else
    if c == 'D' && d == 'W' {
        (0, 1)
    } else
    if c == 'D' && d == 'X' {
        (0, 1)
    } else
    if c == 'D' && d == ':' {
        (0, 0)
    } else
    if c == 'D' && d == '.' {
        (0, 0)
    } else
    if c == 'D' && d == ' ' {
        (0, 0)
    } else
    if c == 'F' && d == '0' {
        (1, 2)
    } else
    if c == 'F' && d == '1' {
        (0, 0)
    } else
    if c == 'F' && d == '2' {
        (1, 0)
    } else
    if c == 'F' && d == '3' {
        (1, 0)
    } else
    if c == 'F' && d == '4' {
        (0, 1)
    } else
    if c == 'F' && d == '5' {
        (2, 2)
    } else
    if c == 'F' && d == '6' {
        (2, 2)
    } else
    if c == 'F' && d == '7' {
        (1, 0)
    } else
    if c == 'F' && d == '8' {
        (1, 2)
    } else
    if c == 'F' && d == '9' {
        (1, 2)
    } else
    if c == 'F' && d == 'A' {
        (0, 0)
    } else
    if c == 'F' && d == 'D' {
        (0, 2)
    } else
    if c == 'F' && d == 'M' {
        (0, 1)
    } else
    if c == 'F' && d == 'N' {
        (0, 1)
    } else
    if c == 'F' && d == 'O' {
        (1, 2)
    } else
    if c == 'F' && d == 'R' {
        (0, 2)
    } else
    if c == 'F' && d == 'S' {
        (2, 2)
    } else
    if c == 'F' && d == 'T' {
        (1, 0)
    } else
    if c == 'F' && d == 'U' {
        (0, 1)
    } else
    if c == 'F' && d == 'W' {
        (0, 1)
    } else
    if c == 'F' && d == 'X' {
        (0, 1)
    } else
    if c == 'F' && d == ':' {
        (0, 0)
    } else
    if c == 'F' && d == '.' {
        (0, 0)
    } else
    if c == 'F' && d == ' ' {
        (0, 0)
    } else
    if c == 'M' && d == '0' {
        (0, 1)
    } else
    if c == 'M' && d == '1' {
        (0, 0)
    } else
    if c == 'M' && d == '2' {
        (0, 1)
    } else
    if c == 'M' && d == '3' {
        (0, 1)
    } else
    if c == 'M' && d == '4' {
        (1, 1)
    } else
    if c == 'M' && d == '5' {
        (0, 1)
    } else
    if c == 'M' && d == '6' {
        (0, 1)
    } else
    if c == 'M' && d == '7' {
        (0, 1)
    } else
    if c == 'M' && d == '8' {
        (0, 1)
    } else
    if c == 'M' && d == '9' {
        (0, 1)
    } else
    if c == 'M' && d == 'A' {
        (0, 0)
    } else
    if c == 'M' && d == 'D' {
        (0, 1)
    } else
    if c == 'M' && d == 'F' {
        (0, 1)
    } else
    if c == 'M' && d == 'N' {
        (1, 2)
    } else
    if c == 'M' && d == 'O' {
        (0, 1)
    } else
    if c == 'M' && d == 'R' {
        (0, 1)
    } else
    if c == 'M' && d == 'S' {
        (0, 1)
    } else
    if c == 'M' && d == 'T' {
        (0, 1)
    } else
    if c == 'M' && d == 'U' {
        (1, 1)
    } else
    if c == 'M' && d == 'W' {
        (1, 1)
    } else
    if c == 'M' && d == 'X' {
        (1, 1)
    } else
    if c == 'M' && d == ':' {
        (0, 0)
    } else
    if c == 'M' && d == '.' {
        (0, 0)
    } else
    if c == 'M' && d == ' ' {
        (0, 0)
    } else
    if c == 'N' && d == '0' {
        (0, 1)
    } else
    if c == 'N' && d == '1' {
        (0, 0)
    } else
    if c == 'N' && d == '2' {
        (0, 1)
    } else
    if c == 'N' && d == '3' {
        (0, 1)
    } else
    if c == 'N' && d == '4' {
        (1, 1)
    } else
    if c == 'N' && d == '5' {
        (0, 1)
    } else
    if c == 'N' && d == '6' {
        (0, 1)
    } else
    if c == 'N' && d == '7' {
        (0, 1)
    } else
    if c == 'N' && d == '8' {
        (0, 1)
    } else
    if c == 'N' && d == '9' {
        (0, 1)
    } else
    if c == 'N' && d == 'A' {
        (0, 0)
    } else
    if c == 'N' && d == 'D' {
        (0, 1)
    } else
    if c == 'N' && d == 'F' {
        (0, 1)
    } else
    if c == 'N' && d == 'M' {
        (1, 2)
    } else
    if c == 'N' && d == 'O' {
        (0, 1)
    } else
    if c == 'N' && d == 'R' {
        (0, 1)
    } else
    if c == 'N' && d == 'S' {
        (0, 1)
    } else
    if c == 'N' && d == 'T' {
        (0, 1)
    } else
    if c == 'N' && d == 'U' {
        (1, 1)
    } else
    if c == 'N' && d == 'W' {
        (1, 1)
    } else
    if c == 'N' && d == 'X' {
        (1, 1)
    } else
    if c == 'N' && d == ':' {
        (0, 0)
    } else
    if c == 'N' && d == '.' {
        (0, 0)
    } else
    if c == 'N' && d == ' ' {
        (0, 0)
    } else
    if c == 'O' && d == '1' {
        (0, 0)
    } else
    if c == 'O' && d == '2' {
        (1, 0)
    } else
    if c == 'O' && d == '3' {
        (1, 0)
    } else
    if c == 'O' && d == '4' {
        (0, 1)
    } else
    if c == 'O' && d == '5' {
        (1, 2)
    } else
    if c == 'O' && d == '6' {
        (1, 2)
    } else
    if c == 'O' && d == '7' {
        (1, 0)
    } else
    if c == 'O' && d == '8' {
        (2, 1)
    } else
    if c == 'O' && d == '9' {
        (2, 1)
    } else
    if c == 'O' && d == 'A' {
        (0, 0)
    } else
    if c == 'O' && d == 'D' {
        (0, 2)
    } else
    if c == 'O' && d == 'F' {
        (1, 2)
    } else
    if c == 'O' && d == 'M' {
        (0, 1)
    } else
    if c == 'O' && d == 'N' {
        (0, 1)
    } else
    if c == 'O' && d == 'R' {
        (0, 2)
    } else
    if c == 'O' && d == 'S' {
        (1, 2)
    } else
    if c == 'O' && d == 'T' {
        (1, 0)
    } else
    if c == 'O' && d == 'U' {
        (0, 1)
    } else
    if c == 'O' && d == 'W' {
        (0, 1)
    } else
    if c == 'O' && d == 'X' {
        (0, 1)
    } else
    if c == 'O' && d == ':' {
        (0, 0)
    } else
    if c == 'O' && d == '.' {
        (0, 0)
    } else
    if c == 'O' && d == ' ' {
        (0, 0)
    } else
    if c == 'R' && d == '0' {
        (0, 2)
    } else
    if c == 'R' && d == '1' {
        (0, 0)
    } else
    if c == 'R' && d == '2' {
        (0, 2)
    } else
    if c == 'R' && d == '3' {
        (0, 2)
    } else
    if c == 'R' && d == '4' {
        (0, 1)
    } else
    if c == 'R' && d == '5' {
        (0, 2)
    } else
    if c == 'R' && d == '6' {
        (0, 2)
    } else
    if c == 'R' && d == '7' {
        (0, 2)
    } else
    if c == 'R' && d == '8' {
        (0, 2)
    } else
    if c == 'R' && d == '9' {
        (0, 2)
    } else
    if c == 'R' && d == 'A' {
        (0, 0)
    } else
    if c == 'R' && d == 'D' {
        (2, 1)
    } else
    if c == 'R' && d == 'F' {
        (0, 2)
    } else
    if c == 'R' && d == 'M' {
        (0, 1)
    } else
    if c == 'R' && d == 'N' {
        (0, 1)
    } else
    if c == 'R' && d == 'O' {
        (0, 2)
    } else
    if c == 'R' && d == 'S' {
        (0, 2)
    } else
    if c == 'R' && d == 'T' {
        (0, 2)
    } else
    if c == 'R' && d == 'U' {
        (0, 1)
    } else
    if c == 'R' && d == 'W' {
        (0, 1)
    } else
    if c == 'R' && d == 'X' {
        (0, 1)
    } else
    if c == 'R' && d == ':' {
        (0, 0)
    } else
    if c == 'R' && d == '.' {
        (0, 0)
    } else
    if c == 'R' && d == ' ' {
        (0, 0)
    } else
    if c == 'S' && d == '0' {
        (1, 2)
    } else
    if c == 'S' && d == '1' {
        (0, 0)
    } else
    if c == 'S' && d == '2' {
        (1, 0)
    } else
    if c == 'S' && d == '3' {
        (1, 0)
    } else
    if c == 'S' && d == '4' {
        (0, 1)
    } else
    if c == 'S' && d == '6' {
        (3, 0)
    } else
    if c == 'S' && d == '7' {
        (1, 0)
    } else
    if c == 'S' && d == '8' {
        (1, 2)
    } else
    if c == 'S' && d == '9' {
        (1, 2)
    } else
    if c == 'S' && d == 'A' {
        (0, 0)
    } else
    if c == 'S' && d == 'D' {
        (0, 2)
    } else
    if c == 'S' && d == 'F' {
        (2, 2)
    } else
    if c == 'S' && d == 'M' {
        (0, 1)
    } else
    if c == 'S' && d == 'N' {
        (0, 1)
    } else
    if c == 'S' && d == 'O' {
        (1, 2)
    } else
    if c == 'S' && d == 'R' {
        (0, 2)
    } else
    if c == 'S' && d == 'T' {
        (1, 0)
    } else
    if c == 'S' && d == 'U' {
        (0, 1)
    } else
    if c == 'S' && d == 'W' {
        (0, 1)
    } else
    if c == 'S' && d == 'X' {
        (0, 1)
    } else
    if c == 'S' && d == ':' {
        (0, 0)
    } else
    if c == 'S' && d == '.' {
        (0, 0)
    } else
    if c == 'S' && d == ' ' {
        (0, 0)
    } else
    if c == 'T' && d == '0' {
        (1, 0)
    } else
    if c == 'T' && d == '1' {
        (0, 0)
    } else
    if c == 'T' && d == '2' {
        (1, 1)
    } else
    if c == 'T' && d == '3' {
        (1, 1)
    } else
    if c == 'T' && d == '4' {
        (0, 1)
    } else
    if c == 'T' && d == '5' {
        (1, 0)
    } else
    if c == 'T' && d == '6' {
        (1, 0)
    } else
    if c == 'T' && d == '7' {
        (1, 1)
    } else
    if c == 'T' && d == '8' {
        (1, 0)
    } else
    if c == 'T' && d == '9' {
        (1, 0)
    } else
    if c == 'T' && d == 'A' {
        (0, 0)
    } else
    if c == 'T' && d == 'D' {
        (0, 2)
    } else
    if c == 'T' && d == 'F' {
        (1, 0)
    } else
    if c == 'T' && d == 'M' {
        (0, 1)
    } else
    if c == 'T' && d == 'N' {
        (0, 1)
    } else
    if c == 'T' && d == 'O' {
        (1, 0)
    } else
    if c == 'T' && d == 'R' {
        (0, 2)
    } else
    if c == 'T' && d == 'S' {
        (1, 0)
    } else
    if c == 'T' && d == 'U' {
        (0, 1)
    } else
    if c == 'T' && d == 'W' {
        (0, 1)
    } else
    if c == 'T' && d == 'X' {
        (0, 1)
    } else
    if c == 'T' && d == ':' {
        (0, 0)
    } else
    if c == 'T' && d == '.' {
        (0, 0)
    } else
    if c == 'T' && d == ' ' {
        (0, 0)
    } else
    if c == 'U' && d == '0' {
        (0, 1)
    } else
    if c == 'U' && d == '1' {
        (0, 0)
    } else
    if c == 'U' && d == '2' {
        (0, 1)
    } else
    if c == 'U' && d == '3' {
        (0, 1)
    } else
    if c == 'U' && d == '4' {
        (2, 1)
    } else
    if c == 'U' && d == '5' {
        (0, 1)
    } else
    if c == 'U' && d == '6' {
        (0, 1)
    } else
    if c == 'U' && d == '7' {
        (0, 1)
    } else
    if c == 'U' && d == '8' {
        (0, 1)
    } else
    if c == 'U' && d == '9' {
        (0, 1)
    } else
    if c == 'U' && d == 'A' {
        (0, 0)
    } else
    if c == 'U' && d == 'D' {
        (0, 1)
    } else
    if c == 'U' && d == 'F' {
        (0, 1)
    } else
    if c == 'U' && d == 'M' {
        (1, 1)
    } else
    if c == 'U' && d == 'N' {
        (1, 1)
    } else
    if c == 'U' && d == 'O' {
        (0, 1)
    } else
    if c == 'U' && d == 'R' {
        (0, 1)
    } else
    if c == 'U' && d == 'S' {
        (0, 1)
    } else
    if c == 'U' && d == 'T' {
        (0, 1)
    } else
    if c == 'U' && d == 'W' {
        (3, 1)
    } else
    if c == 'U' && d == 'X' {
        (2, 0)
    } else
    if c == 'U' && d == ':' {
        (0, 0)
    } else
    if c == 'U' && d == '.' {
        (0, 0)
    } else
    if c == 'U' && d == ' ' {
        (0, 0)
    } else
    if c == 'W' && d == '0' {
        (0, 1)
    } else
    if c == 'W' && d == '1' {
        (0, 0)
    } else
    if c == 'W' && d == '2' {
        (0, 1)
    } else
    if c == 'W' && d == '3' {
        (0, 1)
    } else
    if c == 'W' && d == '4' {
        (2, 1)
    } else
    if c == 'W' && d == '5' {
        (0, 1)
    } else
    if c == 'W' && d == '6' {
        (0, 1)
    } else
    if c == 'W' && d == '7' {
        (0, 1)
    } else
    if c == 'W' && d == '8' {
        (0, 1)
    } else
    if c == 'W' && d == '9' {
        (0, 1)
    } else
    if c == 'W' && d == 'A' {
        (0, 0)
    } else
    if c == 'W' && d == 'D' {
        (0, 1)
    } else
    if c == 'W' && d == 'F' {
        (0, 1)
    } else
    if c == 'W' && d == 'M' {
        (1, 1)
    } else
    if c == 'W' && d == 'N' {
        (1, 1)
    } else
    if c == 'W' && d == 'O' {
        (0, 1)
    } else
    if c == 'W' && d == 'R' {
        (0, 1)
    } else
    if c == 'W' && d == 'S' {
        (0, 1)
    } else
    if c == 'W' && d == 'T' {
        (0, 1)
    } else
    if c == 'W' && d == 'U' {
        (3, 1)
    } else
    if c == 'W' && d == 'X' {
        (2, 0)
    } else
    if c == 'W' && d == ':' {
        (0, 0)
    } else
    if c == 'W' && d == '.' {
        (0, 0)
    } else
    if c == 'W' && d == ' ' {
        (0, 0)
    } else
    if c == 'X' && d == '0' {
        (0, 1)
    } else
    if c == 'X' && d == '1' {
        (0, 0)
    } else
    if c == 'X' && d == '2' {
        (0, 1)
    } else
    if c == 'X' && d == '3' {
        (0, 1)
    } else
    if c == 'X' && d == '4' {
        (2, 0)
    } else
    if c == 'X' && d == '5' {
        (0, 1)
    } else
    if c == 'X' && d == '6' {
        (0, 1)
    } else
    if c == 'X' && d == '7' {
        (0, 1)
    } else
    if c == 'X' && d == '8' {
        (0, 1)
    } else
    if c == 'X' && d == '9' {
        (0, 1)
    } else
    if c == 'X' && d == 'A' {
        (0, 0)
    } else
    if c == 'X' && d == 'D' {
        (0, 1)
    } else
    if c == 'X' && d == 'F' {
        (0, 1)
    } else
    if c == 'X' && d == 'M' {
        (1, 1)
    } else
    if c == 'X' && d == 'N' {
        (1, 1)
    } else
    if c == 'X' && d == 'O' {
        (0, 1)
    } else
    if c == 'X' && d == 'R' {
        (0, 1)
    } else
    if c == 'X' && d == 'S' {
        (0, 1)
    } else
    if c == 'X' && d == 'T' {
        (0, 1)
    } else
    if c == 'X' && d == 'U' {
        (2, 0)
    } else
    if c == 'X' && d == 'W' {
        (2, 0)
    } else
    if c == 'X' && d == ':' {
        (0, 0)
    } else
    if c == 'X' && d == '.' {
        (0, 0)
    } else
    if c == 'X' && d == ' ' {
        (0, 0)
    } else
    if c == ':' && d == '0' {
        (0, 0)
    } else
    if c == ':' && d == '1' {
        (0, 1)
    } else
    if c == ':' && d == '2' {
        (0, 0)
    } else
    if c == ':' && d == '3' {
        (0, 0)
    } else
    if c == ':' && d == '4' {
        (0, 0)
    } else
    if c == ':' && d == '5' {
        (0, 0)
    } else
    if c == ':' && d == '6' {
        (0, 0)
    } else
    if c == ':' && d == '7' {
        (0, 0)
    } else
    if c == ':' && d == '8' {
        (0, 0)
    } else
    if c == ':' && d == '9' {
        (0, 0)
    } else
    if c == ':' && d == 'A' {
        (0, 1)
    } else
    if c == ':' && d == 'D' {
        (0, 0)
    } else
    if c == ':' && d == 'F' {
        (0, 0)
    } else
    if c == ':' && d == 'M' {
        (0, 0)
    } else
    if c == ':' && d == 'N' {
        (0, 0)
    } else
    if c == ':' && d == 'O' {
        (0, 0)
    } else
    if c == ':' && d == 'R' {
        (0, 0)
    } else
    if c == ':' && d == 'S' {
        (0, 0)
    } else
    if c == ':' && d == 'T' {
        (0, 0)
    } else
    if c == ':' && d == 'U' {
        (0, 0)
    } else
    if c == ':' && d == 'W' {
        (0, 0)
    } else
    if c == ':' && d == 'X' {
        (0, 0)
    } else
    if c == ':' && d == '.' {
        (1, 1)
    } else
    if c == ':' && d == ' ' {
        (1, 1)
    } else
    if c == '.' && d == '0' {
        (0, 0)
    } else
    if c == '.' && d == '1' {
        (0, 1)
    } else
    if c == '.' && d == '2' {
        (0, 0)
    } else
    if c == '.' && d == '3' {
        (0, 0)
    } else
    if c == '.' && d == '4' {
        (0, 0)
    } else
    if c == '.' && d == '5' {
        (0, 0)
    } else
    if c == '.' && d == '6' {
        (0, 0)
    } else
    if c == '.' && d == '7' {
        (0, 0)
    } else
    if c == '.' && d == '8' {
        (0, 0)
    } else
    if c == '.' && d == '9' {
        (0, 0)
    } else
    if c == '.' && d == 'A' {
        (0, 1)
    } else
    if c == '.' && d == 'D' {
        (0, 0)
    } else
    if c == '.' && d == 'F' {
        (0, 0)
    } else
    if c == '.' && d == 'M' {
        (0, 0)
    } else
    if c == '.' && d == 'N' {
        (0, 0)
    } else
    if c == '.' && d == 'O' {
        (0, 0)
    } else
    if c == '.' && d == 'R' {
        (0, 0)
    } else
    if c == '.' && d == 'S' {
        (0, 0)
    } else
    if c == '.' && d == 'T' {
        (0, 0)
    } else
    if c == '.' && d == 'U' {
        (0, 0)
    } else
    if c == '.' && d == 'W' {
        (0, 0)
    } else
    if c == '.' && d == 'X' {
        (0, 0)
    } else
    if c == '.' && d == ':' {
        (1, 1)
    } else
    if c == '.' && d == ' ' {
        (4, 1)
    } else
    if c == ' ' && d == '0' {
        (0, 0)
    } else
    if c == ' ' && d == '1' {
        (0, 1)
    } else
    if c == ' ' && d == '2' {
        (0, 0)
    } else
    if c == ' ' && d == '3' {
        (0, 0)
    } else
    if c == ' ' && d == '4' {
        (0, 0)
    } else
    if c == ' ' && d == '5' {
        (0, 0)
    } else
    if c == ' ' && d == '6' {
        (0, 0)
    } else
    if c == ' ' && d == '7' {
        (0, 0)
    } else
    if c == ' ' && d == '8' {
        (0, 0)
    } else
    if c == ' ' && d == '9' {
        (0, 0)
    } else
    if c == ' ' && d == 'A' {
        (0, 1)
    } else
    if c == ' ' && d == 'D' {
        (0, 0)
    } else
    if c == ' ' && d == 'F' {
        (0, 0)
    } else
    if c == ' ' && d == 'M' {
        (0, 0)
    } else
    if c == ' ' && d == 'N' {
        (0, 0)
    } else
    if c == ' ' && d == 'O' {
        (0, 0)
    } else
    if c == ' ' && d == 'R' {
        (0, 0)
    } else
    if c == ' ' && d == 'S' {
        (0, 0)
    } else
    if c == ' ' && d == 'T' {
        (0, 0)
    } else
    if c == ' ' && d == 'U' {
        (0, 0)
    } else
    if c == ' ' && d == 'W' {
        (0, 0)
    } else
    if c == ' ' && d == 'X' {
        (0, 0)
    } else
    if c == ' ' && d == ':' {
        (1, 1)
    } else
    if c == ' ' && d == '.' {
        (4, 1)
    } else {
        (0, 0)
    }
}

/// The characters the font draws, and the space, which it draws blank.
pub open spec fn in_font(c: char) -> bool {
    ('0' <= c <= '9') || c == 'A' || c == 'D' || c == 'F' || c == 'M' || c == 'N' || c == 'O' || c == 'R'
        || c == 'S' || c == 'T' || c == 'U' || c == 'W' || c == 'X' || c == ':' || c == '.' || c == ' '
}

/// Characters of the font are drawn differently, so that text reads as it
/// is written, except for the pairs `0`/`O` and `5`/`S`, which the font
/// draws alike; and every character but the space lights some cell.
pub proof fn lemma_font_distinguishes(c: char, d: char)
    requires
        in_font(c),
        in_font(d),
        c != d,
        !(c == '0' && d == 'O') && !(c == 'O' && d == '0'),
        !(c == '5' && d == 'S') && !(c == 'S' && d == '5'),
    ensures
        glyph_rows(c) != glyph_rows(d),
        exists|row: int, col: int|
            0 <= row < FONT_H && 0 <= col < FONT_W && #[trigger] glyph_rows(c)[row][col]
                != glyph_rows(d)[row][col],
        c != ' ' ==> exists|row: int, col: int|
            0 <= row < FONT_H && 0 <= col < FONT_W && #[trigger] glyph_rows(c)[row][col] == '#',
{
    reveal_strlit("###");
    reveal_strlit("#.#");
    reveal_strlit("..#");
    reveal_strlit("#..");
    reveal_strlit(".#.");
    reveal_strlit("##.");
    reveal_strlit(".##");
    reveal_strlit("...");
    let (row, col) = glyph_difference(c, d);
    assert(glyph_rows(c)[row][col] != glyph_rows(d)[row][col]);
    if c != ' ' {
        let (r2, k2) = glyph_difference(c, ' ');
        assert(glyph_rows(' ')[r2][k2] == '.');
        assert(glyph_rows(c)[r2][k2] == '#');
    }
}

/// Different digits are drawn differently: some cell is lit in one and dark
/// in the other, so every timing reads as the number it is.
pub proof fn lemma_digits_distinct(c: char, d: char)
    requires
        '0' <= c <= '9',
        '0' <= d <= '9',
        c != d,
    ensures
        glyph_rows(c) != glyph_rows(d),
        exists|row: int, col: int|
            0 <= row < FONT_H && 0 <= col < FONT_W && #[trigger] glyph_rows(c)[row][col]
                != glyph_rows(d)[row][col],
{
    reveal_strlit("###");
    reveal_strlit("#.#");
    reveal_strlit("..#");
    reveal_strlit("#..");
    reveal_strlit(".#.");
    reveal_strlit("##.");
    reveal_strlit(".##");
    reveal_strlit("...");
    let (row, col) = glyph_difference(c, d);
    assert(glyph_rows(c)[row][col] != glyph_rows(d)[row][col]);
}

} // verus!
