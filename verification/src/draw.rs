//! The renderer: the circle mask, the magnifier fill, and the hex-label
//! text drawn onto the cursor canvas.

use crate::color::Argb;
use crate::glyph::spec_glyph;
use crate::glyph::get_large_char_bitmap;
use crate::pixel::PixelSquare;
use vstd::prelude::*;

verus! {

/// Strictly inside the circle of radius r centered at (r, r): points on
/// the boundary count as outside.
pub open spec fn in_circle(x: int, y: int, r: int) -> bool {
    (x - r) * (x - r) + (y - r) * (y - r) < r * r
}

/// Decides `in_circle` for machine integers. Callers keep the arguments
/// small enough that the squares cannot overflow.
pub fn is_inside_circle(x: isize, y: isize, r: isize) -> (inside: bool)
    requires
        -0x4000 <= x < 0x4000,
        -0x4000 <= y < 0x4000,
        -0x4000 <= r < 0x4000,
    ensures
        inside == in_circle(x as int, y as int, r as int),
{
    proof {
        let dx = x - r;
        let dy = y - r;
        assert(dx * dx < 0x4000_0000 && dx * dx >= 0) by (nonlinear_arith)
            requires
                -0x8000 < dx < 0x8000,
        ;
        assert(dy * dy < 0x4000_0000 && dy * dy >= 0) by (nonlinear_arith)
            requires
                -0x8000 < dy < 0x8000,
        ;
        assert(r * r < 0x4000_0000 && r * r >= 0) by (nonlinear_arith)
            requires
                -0x8000 < r < 0x8000,
        ;
    }
    (x - r) * (x - r) + (y - r) * (y - r) < r * r
}

/// The ring and center-cell highlight color: white over a dark sample,
/// black over a light one.
pub open spec fn spec_border_color(color: Argb) -> int {
    if color.spec_is_dark() {
        0xFFFF_FFFF
    } else {
        0xFF00_0000
    }
}

/// The packed border color contrasting with the given sample color.
pub fn border_color(color: Argb) -> (p: u32)
    ensures
        p as int == spec_border_color(color),
{
    if color.is_dark() {
        Argb::white().to_u32()
    } else {
        Argb::black().to_u32()
    }
}

/// The offset that maps a cursor coordinate to a magnified sample
/// coordinate, from the two widths and the zoom factor: it centers the
/// sample's middle pixel under the cursor's middle pixel.
pub open spec fn spec_offset(cursor_width: int, sample_width: int, pixel_size: int) -> int {
    (sample_width / 2) * pixel_size - (cursor_width / 2 - pixel_size / 2)
}

/// Every cursor pixel's sample coordinate lands inside the sample: the
/// mapping offset is non-negative, and the last cursor pixel still maps
/// below the sample width.
pub open spec fn sample_covers_cursor(
    cursor_width: int,
    sample_width: int,
    pixel_size: int,
) -> bool {
    let off = spec_offset(cursor_width, sample_width, pixel_size);
    off >= 0 && cursor_width + off <= sample_width * pixel_size
}

/// The cursor pixel lies on a magnified boundary between two source
/// pixels, in either axis.
pub open spec fn on_grid_line(
    cursor_width: int,
    sample_width: int,
    pixel_size: int,
    cx: int,
    cy: int,
) -> bool {
    let off = spec_offset(cursor_width, sample_width, pixel_size);
    (cx + off) % pixel_size == 0 || (cy + off) % pixel_size == 0
}

/// The cursor pixel lies in the single magnified cell directly under the
/// true pointer position.
pub open spec fn in_center_cell(cursor_width: int, pixel_size: int, cx: int, cy: int) -> bool {
    let cell = cursor_width / 2 - pixel_size / 2;
    cell <= cx <= cell + pixel_size && cell <= cy <= cell + pixel_size
}

/// The grid-line color over a sample color: lightened by 20% when the
/// sample is dark, darkened by 20% otherwise.
pub open spec fn spec_grid_color(sc: Argb) -> int {
    if sc.spec_is_dark() {
        sc.spec_lightened().packed()
    } else {
        sc.spec_darkened().packed()
    }
}

/// The packed color the magnifier writes at cursor pixel (cx, cy): the
/// sampled color inside the content circle (shaded on grid lines, and
/// replaced by the border color in the center cell), the border color in
/// the one-pixel ring, and transparent outside the ring.
pub open spec fn magnifier_color(
    shot: PixelSquare<Argb>,
    cursor_width: int,
    pixel_size: int,
    cx: int,
    cy: int,
) -> int {
    let border_radius = cursor_width / 2;
    let content_radius = border_radius - 1;
    let off = spec_offset(cursor_width, shot.spec_width(), pixel_size);
    let sc = shot.pix((cx + off) / pixel_size, (cy + off) / pixel_size);
    if in_circle(cx, cy, content_radius) {
        if on_grid_line(cursor_width, shot.spec_width(), pixel_size, cx, cy) {
            if in_center_cell(cursor_width, pixel_size, cx, cy) {
                spec_border_color(sc)
            } else {
                spec_grid_color(sc)
            }
        } else {
            sc.packed()
        }
    } else if in_circle(cx + 1, cy + 1, border_radius) {
        spec_border_color(sc)
    } else {
        0
    }
}

/// Fills the whole cursor canvas with the magnified, circle-masked view
/// of the screenshot sample: every pixel gets exactly the color that
/// `magnifier_color` assigns to its coordinates.
#[verifier::loop_isolation(false)]
pub fn draw_magnifying_glass(
    cursor: &mut PixelSquare<u32>,
    screenshot: &PixelSquare<Argb>,
    pixel_size: usize,
)
    requires
        old(cursor).wf(),
        screenshot.wf(),
        pixel_size % 2 == 1,
        pixel_size < 0x4000,
        old(cursor).spec_width() % 2 == 1,
        screenshot.spec_width() % 2 == 1,
        sample_covers_cursor(
            old(cursor).spec_width(),
            screenshot.spec_width(),
            pixel_size as int,
        ),
    ensures
        final(cursor).wf(),
        final(cursor).spec_width() == old(cursor).spec_width(),
        forall|cx: int, cy: int|
            0 <= cx < final(cursor).spec_width() && 0 <= cy < final(cursor).spec_width()
                ==> final(cursor).pix(cx, cy) as int == magnifier_color(
                *screenshot,
                old(cursor).spec_width(),
                pixel_size as int,
                cx,
                cy,
            ),
{
    let cursor_width = cursor.width();
    let screenshot_width = screenshot.width();
    let ghost cw = cursor_width as int;
    let ghost sw = screenshot_width as int;
    let ghost ps = pixel_size as int;

    let border_width: usize = 1;
    let border_radius: isize = (cursor_width / 2) as isize;
    let content_radius: isize = border_radius - 1;

    let half_cursor: usize = cursor_width / 2;
    let half_pixel: usize = pixel_size / 2;
    let sample_center: usize = screenshot_width / 2;
    proof {
        vstd::arithmetic::mul::lemma_mul_upper_bound(
            sample_center as int,
            0x1FFF,
            ps,
            0x3FFF,
        );
    }
    let scaled_center: usize = sample_center * pixel_size;
    let offset: usize = if half_pixel <= half_cursor {
        scaled_center - (half_cursor - half_pixel)
    } else {
        scaled_center + (half_pixel - half_cursor)
    };
    proof {
        assert(offset as int == spec_offset(cw, sw, ps));
    }

    let mut cx: usize = 0;
    while cx < cursor_width
        invariant
            cursor.wf(),
            cursor.spec_width() == cw,
            cx <= cursor_width,
            forall|x: int, y: int|
                0 <= x < cx && 0 <= y < cw ==> cursor.pix(x, y) as int == magnifier_color(
                    *screenshot,
                    cw,
                    ps,
                    x,
                    y,
                ),
        decreases cw - cx,
    {
        let mut cy: usize = 0;
        while cy < cursor_width
            invariant
                cursor.wf(),
                cursor.spec_width() == cw,
                cx < cursor_width,
                cy <= cursor_width,
                forall|x: int, y: int|
                    0 <= x < cx && 0 <= y < cw ==> cursor.pix(x, y) as int == magnifier_color(
                        *screenshot,
                        cw,
                        ps,
                        x,
                        y,
                    ),
                forall|y: int|
                    0 <= y < cy ==> cursor.pix(cx as int, y) as int == magnifier_color(
                        *screenshot,
                        cw,
                        ps,
                        cx as int,
                        y,
                    ),
            decreases cw - cy,
        {
            proof {
                vstd::arithmetic::div_mod::lemma_multiply_divide_lt(
                    cx + offset,
                    ps,
                    sw,
                );
                vstd::arithmetic::div_mod::lemma_multiply_divide_lt(
                    cy + offset,
                    ps,
                    sw,
                );
            }
            let sx: usize = (cx + offset) / pixel_size;
            let sy: usize = (cy + offset) / pixel_size;
            let screenshot_color = screenshot.get(sx, sy);

            let value: u32 = if is_inside_circle(cx as isize, cy as isize, content_radius) {
                let is_grid_line = (cx + offset) % pixel_size == 0 || (cy + offset) % pixel_size
                    == 0;
                if is_grid_line {
                    let is_center_x = cx + half_pixel >= half_cursor && cx + half_pixel
                        <= half_cursor + pixel_size;
                    let is_center_y = cy + half_pixel >= half_cursor && cy + half_pixel
                        <= half_cursor + pixel_size;
                    if is_center_x && is_center_y {
                        border_color(screenshot_color)
                    } else if screenshot_color.is_dark() {
                        screenshot_color.lighten().to_u32()
                    } else {
                        screenshot_color.darken().to_u32()
                    }
                } else {
                    screenshot_color.to_u32()
                }
            } else if is_inside_circle(
                (cx + border_width) as isize,
                (cy + border_width) as isize,
                border_radius,
            ) {
                border_color(screenshot_color)
            } else {
                Argb::transparent().to_u32()
            };
            cursor.set(cx, cy, value);
            proof {
                assert(value as int == magnifier_color(*screenshot, cw, ps, cx as int, cy as int));
            }
            cy = cy + 1;
        }
        cx = cx + 1;
    }
}

/// One glyph bit: row `row`, column `col` of the character's bitmap,
/// column 0 leftmost (bit 11 of the row mask).
pub open spec fn glyph_bit(ch: char, row: int, col: int) -> bool {
    (spec_glyph(ch)[row] >> ((11 - col) as u16)) & 1 == 1
}

/// Text drawing paints (x, y) from the character whose 12-wide, 16-tall
/// cell starts at column cell_x: inside the cell, clipped to the canvas,
/// where the glyph bit is set.
pub open spec fn char_paints(ch: char, cell_x: int, start_y: int, w: int, x: int, y: int) -> bool {
    &&& cell_x <= x < cell_x + 12
    &&& x < w
    &&& start_y <= y < start_y + 16
    &&& y < w
    &&& glyph_bit(ch, y - start_y, x - cell_x)
}

/// Painting by the first k characters alone, each drawn only if its whole
/// cell fits the canvas width.
pub open spec fn text_paints_upto(
    text: Seq<char>,
    start_x: int,
    start_y: int,
    w: int,
    k: int,
    x: int,
    y: int,
) -> bool {
    exists|i: int|
        0 <= i < k && start_x + i * 12 + 12 <= w && char_paints(
            #[trigger] text[i],
            start_x + i * 12,
            start_y,
            w,
            x,
            y,
        )
}

/// The rasterizer paints (x, y): some character of the text, whose cell
/// fits the canvas width, has a set glyph bit there. Characters are laid
/// out 12 columns apart; the first cell that would cross the right edge
/// stops the text.
pub open spec fn text_paints(
    text: Seq<char>,
    start_x: int,
    start_y: int,
    w: int,
    x: int,
    y: int,
) -> bool {
    text_paints_upto(text, start_x, start_y, w, text.len() as int, x, y)
}

/// Painting by the first row_k rows of one character's cell.
spec fn char_paints_rows_upto(
    ch: char,
    cell_x: int,
    start_y: int,
    w: int,
    row_k: int,
    x: int,
    y: int,
) -> bool {
    &&& cell_x <= x < cell_x + 12
    &&& x < w
    &&& start_y <= y < start_y + row_k
    &&& y < w
    &&& glyph_bit(ch, y - start_y, x - cell_x)
}

/// Painting by the first col_k columns of one row of a character's cell.
spec fn char_paints_row_partial(
    ch: char,
    cell_x: int,
    start_y: int,
    w: int,
    row: int,
    col_k: int,
    x: int,
    y: int,
) -> bool {
    &&& cell_x <= x < cell_x + col_k
    &&& x < w
    &&& y == start_y + row
    &&& y < w
    &&& glyph_bit(ch, row, x - cell_x)
}

/// Draws the text onto the canvas at (start_x, start_y) in the given
/// color, 12 columns per character: exactly the pixels that `text_paints`
/// selects are set to the color, and every other pixel keeps its value.
/// A character whose cell would cross the right edge stops the text;
/// rows and columns that fall outside the canvas are clipped.
#[verifier::loop_isolation(false)]
pub fn draw_large_text(
    cursor_pixels: &mut PixelSquare<u32>,
    text: &Vec<char>,
    start_x: usize,
    start_y: usize,
    color: u32,
)
    requires
        old(cursor_pixels).wf(),
        start_x <= 0x4000,
        start_y <= 0x4000,
        text@.len() <= 0x1000,
    ensures
        final(cursor_pixels).wf(),
        final(cursor_pixels).spec_width() == old(cursor_pixels).spec_width(),
        forall|x: int, y: int|
            0 <= x < old(cursor_pixels).spec_width() && 0 <= y < old(cursor_pixels).spec_width()
                ==> final(cursor_pixels).pix(x, y) == (if text_paints(
                text@,
                start_x as int,
                start_y as int,
                old(cursor_pixels).spec_width(),
                x,
                y,
            ) {
                color
            } else {
                old(cursor_pixels).pix(x, y)
            }),
{
    let width = cursor_pixels.width();
    let ghost w = width as int;
    let ghost sx = start_x as int;
    let ghost sy = start_y as int;

    let mut i: usize = 0;
    while i < text.len() && start_x + i * 12 + 12 <= width
        invariant
            cursor_pixels.wf(),
            cursor_pixels.spec_width() == w,
            i <= text@.len(),
            forall|x: int, y: int|
                0 <= x < w && 0 <= y < w ==> cursor_pixels.pix(x, y) == (if text_paints_upto(
                    text@,
                    sx,
                    sy,
                    w,
                    i as int,
                    x,
                    y,
                ) {
                    color
                } else {
                    old(cursor_pixels).pix(x, y)
                }),
        decreases text@.len() - i,
    {
        let x_offset = start_x + i * 12;
        let ch = text[i];
        let bitmap = get_large_char_bitmap(ch);
        let ghost cell_x = x_offset as int;

        let mut row: usize = 0;
        while row < 16 && start_y + row < width
            invariant
                cursor_pixels.wf(),
                cursor_pixels.spec_width() == w,
                row <= 16,
                forall|x: int, y: int|
                    0 <= x < w && 0 <= y < w ==> cursor_pixels.pix(x, y) == (if
                    text_paints_upto(text@, sx, sy, w, i as int, x, y) || char_paints_rows_upto(
                        ch,
                        cell_x,
                        sy,
                        w,
                        row as int,
                        x,
                        y,
                    ) {
                        color
                    } else {
                        old(cursor_pixels).pix(x, y)
                    }),
            decreases 16 - row,
        {
            let y = start_y + row;
            let line = bitmap[row];
            let mut col: usize = 0;
            while col < 12 && x_offset + col < width
                invariant
                    cursor_pixels.wf(),
                    cursor_pixels.spec_width() == w,
                    col <= 12,
                    forall|x: int, y2: int|
                        0 <= x < w && 0 <= y2 < w ==> cursor_pixels.pix(x, y2) == (if
                        text_paints_upto(text@, sx, sy, w, i as int, x, y2)
                            || char_paints_rows_upto(ch, cell_x, sy, w, row as int, x, y2)
                            || char_paints_row_partial(
                            ch,
                            cell_x,
                            sy,
                            w,
                            row as int,
                            col as int,
                            x,
                            y2,
                        ) {
                            color
                        } else {
                            old(cursor_pixels).pix(x, y2)
                        }),
                decreases 12 - col,
            {
                let x = x_offset + col;
                if (line >> (11 - col) as u16) & 1 == 1 {
                    cursor_pixels.set(x, y, color);
                }
                col = col + 1;
            }
            proof {
                assert forall|x: int, y2: int| 0 <= x < w && 0 <= y2 < w implies (
                char_paints_rows_upto(ch, cell_x, sy, w, row as int + 1, x, y2) <==> (
                char_paints_rows_upto(ch, cell_x, sy, w, row as int, x, y2)
                    || char_paints_row_partial(
                    ch,
                    cell_x,
                    sy,
                    w,
                    row as int,
                    col as int,
                    x,
                    y2,
                ))) by {}
            }
            row = row + 1;
        }
        proof {
            assert forall|x: int, y: int| 0 <= x < w && 0 <= y < w implies (text_paints_upto(
                text@,
                sx,
                sy,
                w,
                i as int + 1,
                x,
                y,
            ) <==> (text_paints_upto(text@, sx, sy, w, i as int, x, y) || char_paints_rows_upto(
                ch,
                cell_x,
                sy,
                w,
                row as int,
                x,
                y,
            ))) by {
                if text_paints_upto(text@, sx, sy, w, i as int + 1, x, y) {
                    let j = choose|j: int|
                        0 <= j < i as int + 1 && sx + j * 12 + 12 <= w && char_paints(
                            #[trigger] text@[j],
                            sx + j * 12,
                            sy,
                            w,
                            x,
                            y,
                        );
                    if j == i as int {
                        assert(char_paints_rows_upto(ch, cell_x, sy, w, row as int, x, y));
                    } else {
                        assert(text_paints_upto(text@, sx, sy, w, i as int, x, y));
                    }
                } else {
                    if char_paints_rows_upto(ch, cell_x, sy, w, row as int, x, y) {
                        assert(char_paints(text@[i as int], sx + i as int * 12, sy, w, x, y));
                        assert(text_paints_upto(text@, sx, sy, w, i as int + 1, x, y));
                    }
                }
            }
        }
        i = i + 1;
    }
    proof {
        assert forall|x: int, y: int| 0 <= x < w && 0 <= y < w implies (text_paints(
            text@,
            sx,
            sy,
            w,
            x,
            y,
        ) <==> text_paints_upto(text@, sx, sy, w, i as int, x, y)) by {
            if text_paints(text@, sx, sy, w, x, y) {
                let j = choose|j: int|
                    0 <= j < text@.len() && sx + j * 12 + 12 <= w && char_paints(
                        #[trigger] text@[j],
                        sx + j * 12,
                        sy,
                        w,
                        x,
                        y,
                    );
                assert(j < i as int);
            }
        }
    }
}

/// The uppercase hex character for a value below 16.
pub open spec fn hex_digit_char(n: int) -> char {
    if n == 0 {
        '0'
    } else if n == 1 {
        '1'
    } else if n == 2 {
        '2'
    } else if n == 3 {
        '3'
    } else if n == 4 {
        '4'
    } else if n == 5 {
        '5'
    } else if n == 6 {
        '6'
    } else if n == 7 {
        '7'
    } else if n == 8 {
        '8'
    } else if n == 9 {
        '9'
    } else if n == 10 {
        'A'
    } else if n == 11 {
        'B'
    } else if n == 12 {
        'C'
    } else if n == 13 {
        'D'
    } else if n == 14 {
        'E'
    } else {
        'F'
    }
}

/// The seven characters of the uppercase #RRGGBB label for a color: two
/// hex digits per channel, no alpha.
pub open spec fn hex_chars(c: Argb) -> Seq<char> {
    seq![
        '#',
        hex_digit_char(c.r as int / 16),
        hex_digit_char(c.r as int % 16),
        hex_digit_char(c.g as int / 16),
        hex_digit_char(c.g as int % 16),
        hex_digit_char(c.b as int / 16),
        hex_digit_char(c.b as int % 16),
    ]
}

fn hex_digit(n: u8) -> (ch: char)
    requires
        n < 16,
    ensures
        ch == hex_digit_char(n as int),
{
    if n == 0 {
        '0'
    } else if n == 1 {
        '1'
    } else if n == 2 {
        '2'
    } else if n == 3 {
        '3'
    } else if n == 4 {
        '4'
    } else if n == 5 {
        '5'
    } else if n == 6 {
        '6'
    } else if n == 7 {
        '7'
    } else if n == 8 {
        '8'
    } else if n == 9 {
        '9'
    } else if n == 10 {
        'A'
    } else if n == 11 {
        'B'
    } else if n == 12 {
        'C'
    } else if n == 13 {
        'D'
    } else if n == 14 {
        'E'
    } else {
        'F'
    }
}

/// The #RRGGBB text for a color, as the seven label characters.
pub fn color_hex_chars(color: Argb) -> (text: Vec<char>)
    ensures
        text@ == hex_chars(color),
        text@.len() == 7,
{
    let mut text: Vec<char> = Vec::new();
    text.push('#');
    text.push(hex_digit(color.r / 16));
    text.push(hex_digit(color.r % 16));
    text.push(hex_digit(color.g / 16));
    text.push(hex_digit(color.g % 16));
    text.push(hex_digit(color.b / 16));
    text.push(hex_digit(color.b % 16));
    proof {
        assert(text@ =~= hex_chars(color));
    }
    text
}

/// The pixel the label renderer leaves at (x, y): white where the hex
/// text paints, black inside the padded background rectangle at the
/// bottom of the canvas, and the previous pixel elsewhere.
pub open spec fn label_pixel(before: PixelSquare<u32>, color: Argb, x: int, y: int) -> int {
    let w = before.spec_width();
    let text_start_y = if w >= 24 {
        w - 24
    } else {
        0
    };
    let text_start_x = if w >= 84 {
        (w - 84) / 2
    } else {
        0
    };
    let bg_start_x = if text_start_x >= 4 {
        text_start_x - 4
    } else {
        0
    };
    let bg_end_x = if text_start_x + 88 <= w {
        text_start_x + 88
    } else {
        w
    };
    if text_paints(hex_chars(color), text_start_x, text_start_y + 4, w, x, y) {
        0xFFFF_FFFF
    } else if bg_start_x <= x < bg_end_x && text_start_y <= y < w {
        0xFF00_0000
    } else {
        before.pix(x, y) as int
    }
}

/// Burns the color's hex label into the bottom of the cursor canvas:
/// fills the padded background rectangle with opaque black, then draws
/// the centered #RRGGBB text in opaque white. Every pixel ends exactly
/// as `label_pixel` states.
#[verifier::loop_isolation(false)]
pub fn draw_color_text(cursor_pixels: &mut PixelSquare<u32>, color: Argb)
    requires
        old(cursor_pixels).wf(),
    ensures
        final(cursor_pixels).wf(),
        final(cursor_pixels).spec_width() == old(cursor_pixels).spec_width(),
        forall|x: int, y: int|
            0 <= x < old(cursor_pixels).spec_width() && 0 <= y < old(cursor_pixels).spec_width()
                ==> final(cursor_pixels).pix(x, y) as int == label_pixel(
                *old(cursor_pixels),
                color,
                x,
                y,
            ),
{
    let width = cursor_pixels.width();
    let height = width;
    let ghost w = width as int;

    let hex_text = color_hex_chars(color);

    let text_height: usize = 24;
    let text_width: usize = hex_text.len() * 12;
    let text_start_y: usize = if height >= text_height {
        height - text_height
    } else {
        0
    };
    let text_bg_color: u32 = Argb::black().to_u32();
    let text_color: u32 = Argb::white().to_u32();

    let text_start_x: usize = (if width >= text_width {
        width - text_width
    } else {
        0
    }) / 2;

    let padding: usize = 4;
    let bg_start_x: usize = if text_start_x >= padding {
        text_start_x - padding
    } else {
        0
    };
    let bg_end_x: usize = if text_start_x + text_width + padding <= width {
        text_start_x + text_width + padding
    } else {
        width
    };
    let ghost tsy = text_start_y as int;
    let ghost bgs = bg_start_x as int;
    let ghost bge = bg_end_x as int;

    let mut y: usize = text_start_y;
    while y < height
        invariant
            cursor_pixels.wf(),
            cursor_pixels.spec_width() == w,
            text_start_y <= y <= height,
            forall|x2: int, y2: int|
                0 <= x2 < w && 0 <= y2 < w ==> cursor_pixels.pix(x2, y2) == (if bgs <= x2 < bge
                    && tsy <= y2 < y {
                    text_bg_color
                } else {
                    old(cursor_pixels).pix(x2, y2)
                }),
        decreases w - y,
    {
        let mut x: usize = bg_start_x;
        while x < bg_end_x
            invariant
                cursor_pixels.wf(),
                cursor_pixels.spec_width() == w,
                bg_start_x <= x <= bg_end_x,
                forall|x2: int, y2: int|
                    0 <= x2 < w && 0 <= y2 < w ==> cursor_pixels.pix(x2, y2) == (if (bgs <= x2
                        < bge && tsy <= y2 < y) || (y2 == y && bgs <= x2 < x) {
                        text_bg_color
                    } else {
                        old(cursor_pixels).pix(x2, y2)
                    }),
            decreases bge - x,
        {
            cursor_pixels.set(x, y, text_bg_color);
            x = x + 1;
        }
        y = y + 1;
    }

    let ghost mid = *cursor_pixels;
    draw_large_text(
        cursor_pixels,
        &hex_text,
        text_start_x,
        text_start_y + padding,
        text_color,
    );
    proof {
        assert forall|x: int, y: int| 0 <= x < w && 0 <= y < w implies cursor_pixels.pix(x, y)
            as int == label_pixel(*old(cursor_pixels), color, x, y) by {}
    }
}

/// For an in-range cursor coordinate, the mapped sample coordinate lies
/// inside the sample.
pub proof fn lemma_sample_coord_in_range(cw: int, sw: int, ps: int, c: int)
    requires
        ps >= 1,
        0 <= c < cw,
        sample_covers_cursor(cw, sw, ps),
    ensures
        0 <= (c + spec_offset(cw, sw, ps)) / ps < sw,
{
    let off = spec_offset(cw, sw, ps);
    vstd::arithmetic::div_mod::lemma_div_pos_is_pos(c + off, ps);
    vstd::arithmetic::div_mod::lemma_multiply_divide_lt(c + off, ps, sw);
}

/// Over a uniform sample, a content-circle pixel off the grid lines shows
/// the sample color exactly, and a grid-line pixel outside the center
/// cell shows exactly the 20% lightened or darkened sample color, chosen
/// by the sample's darkness.
pub proof fn lemma_uniform_sample_interior(
    shot: PixelSquare<Argb>,
    cw: int,
    ps: int,
    c: Argb,
    cx: int,
    cy: int,
)
    requires
        ps >= 1,
        sample_covers_cursor(cw, shot.spec_width(), ps),
        forall|x: int, y: int|
            0 <= x < shot.spec_width() && 0 <= y < shot.spec_width() ==> shot.pix(x, y) == c,
        0 <= cx < cw,
        0 <= cy < cw,
        in_circle(cx, cy, cw / 2 - 1),
    ensures
        !on_grid_line(cw, shot.spec_width(), ps, cx, cy) ==> magnifier_color(shot, cw, ps, cx, cy)
            == c.packed(),
        on_grid_line(cw, shot.spec_width(), ps, cx, cy) && !in_center_cell(cw, ps, cx, cy)
            ==> magnifier_color(shot, cw, ps, cx, cy) == spec_grid_color(c),
{
    lemma_sample_coord_in_range(cw, shot.spec_width(), ps, cx);
    lemma_sample_coord_in_range(cw, shot.spec_width(), ps, cy);
}

/// Over a uniform sample, the grid-line pixels of the single center cell
/// show the border color: white over a dark sample, black over a light
/// one, unlike every other grid line.
pub proof fn lemma_uniform_sample_center_cell(
    shot: PixelSquare<Argb>,
    cw: int,
    ps: int,
    c: Argb,
    cx: int,
    cy: int,
)
    requires
        ps >= 1,
        sample_covers_cursor(cw, shot.spec_width(), ps),
        forall|x: int, y: int|
            0 <= x < shot.spec_width() && 0 <= y < shot.spec_width() ==> shot.pix(x, y) == c,
        0 <= cx < cw,
        0 <= cy < cw,
        in_circle(cx, cy, cw / 2 - 1),
        on_grid_line(cw, shot.spec_width(), ps, cx, cy),
        in_center_cell(cw, ps, cx, cy),
    ensures
        magnifier_color(shot, cw, ps, cx, cy) == spec_border_color(c),
{
    lemma_sample_coord_in_range(cw, shot.spec_width(), ps, cx);
    lemma_sample_coord_in_range(cw, shot.spec_width(), ps, cy);
}

/// A pixel that passes neither the content-circle test nor the
/// border-ring test is exactly transparent.
pub proof fn lemma_outside_ring_transparent(
    shot: PixelSquare<Argb>,
    cw: int,
    ps: int,
    cx: int,
    cy: int,
)
    requires
        !in_circle(cx, cy, cw / 2 - 1),
        !in_circle(cx + 1, cy + 1, cw / 2),
    ensures
        magnifier_color(shot, cw, ps, cx, cy) == 0,
{
}

/// An unrecognized character paints nothing: its glyph is blank, so no
/// pixel of its cell is drawn.
pub proof fn lemma_unrecognized_paints_nothing(
    ch: char,
    cell_x: int,
    start_y: int,
    w: int,
    x: int,
    y: int,
)
    requires
        !crate::glyph::recognized_char(ch),
    ensures
        !char_paints(ch, cell_x, start_y, w, x, y),
{
    crate::glyph::lemma_unrecognized_blank(ch);
    if char_paints(ch, cell_x, start_y, w, x, y) {
        let row = y - start_y;
        let col = x - cell_x;
        assert(spec_glyph(ch)[row] == 0u16);
        assert(forall|s: u16| s < 16 ==> ((0u16 >> s) & 1) != 1) by (bit_vector);
        assert(((11 - col) as u16) < 16);
    }
}

/// The rasterizer never paints a column at or beyond the canvas width.
pub proof fn lemma_no_paint_beyond_width(
    text: Seq<char>,
    start_x: int,
    start_y: int,
    w: int,
    x: int,
    y: int,
)
    requires
        x >= w,
    ensures
        !text_paints(text, start_x, start_y, w, x, y),
{
}

/// A text whose last character's cell would cross the right canvas edge
/// stops before that character: no pixel from its cell start onward is
/// painted.
pub proof fn lemma_truncated_text(
    text: Seq<char>,
    start_x: int,
    start_y: int,
    w: int,
    x: int,
    y: int,
)
    requires
        text.len() >= 1,
        start_x + text.len() * 12 > w,
        x >= start_x + (text.len() - 1) * 12,
    ensures
        !text_paints(text, start_x, start_y, w, x, y),
{
    if text_paints(text, start_x, start_y, w, x, y) {
        let j = choose|j: int|
            0 <= j < text.len() && start_x + j * 12 + 12 <= w && char_paints(
                #[trigger] text[j],
                start_x + j * 12,
                start_y,
                w,
                x,
                y,
            );
        assert(x < start_x + j * 12 + 12);
        assert(j == text.len() - 1);
    }
}

/// The circle test admits the center (r, r) and rejects the corner
/// (0, 0) for every positive radius.
pub proof fn lemma_circle_center_and_corner(r: int)
    requires
        r > 0,
    ensures
        in_circle(r, r, r),
        !in_circle(0, 0, r),
{
    assert(r * r > 0 && (0 - r) * (0 - r) == r * r && (r - r) * (r - r) == 0)
        by (nonlinear_arith)
        requires
            r > 0,
    ;
}

/// Points at distance exactly r from the center are excluded: the
/// comparison is strict, so the boundary is outside.
pub proof fn lemma_circle_boundary_excluded(r: int)
    requires
        r > 0,
    ensures
        !in_circle(2 * r, r, r),
        !in_circle(r, 2 * r, r),
        !in_circle(0, r, r),
        !in_circle(r, 0, r),
{
    assert((2 * r - r) * (2 * r - r) == r * r && (0 - r) * (0 - r) == r * r)
        by (nonlinear_arith);
}

} // verus!
