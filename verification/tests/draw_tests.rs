use magnifier::color::Argb;
use magnifier::draw::color_hex_chars;
use magnifier::draw::draw_color_text;
use magnifier::draw::draw_large_text;
use magnifier::draw::draw_magnifying_glass;
use magnifier::draw::is_inside_circle;
use magnifier::pixel::PixelSquare;

const WHITE: u32 = 0xFFFFFFFF;
const BLACK: u32 = 0xFF000000;

#[test]
fn circle_test_includes_center_and_excludes_corner() {
    for r in [1isize, 2, 5, 100] {
        assert!(is_inside_circle(r, r, r));
        assert!(!is_inside_circle(0, 0, r));
    }
}

#[test]
fn circle_test_excludes_the_boundary_strictly() {
    for r in [1isize, 2, 5, 100] {
        assert!(!is_inside_circle(2 * r, r, r));
        assert!(!is_inside_circle(r, 2 * r, r));
        assert!(!is_inside_circle(0, r, r));
        assert!(!is_inside_circle(r, 0, r));
    }
    // One step inside the rim still counts as inside.
    assert!(is_inside_circle(9, 5, 5));
}

fn uniform_render(fill: Argb) -> PixelSquare<u32> {
    let mut cursor: PixelSquare<u32> = PixelSquare::new(15, 0x12345678);
    let screenshot: PixelSquare<Argb> = PixelSquare::new(5, fill);
    draw_magnifying_glass(&mut cursor, &screenshot, 3);
    cursor
}

#[test]
fn uniform_light_sample_interior_pixels() {
    // cursor width 15, sample width 5, pixel size 3: offset is 0, the
    // content radius is 6 and the center cell spans columns 6..=9.
    let source = Argb::new(0xFF, 0xFF, 0xFF, 0xFF);
    let cursor = uniform_render(source);
    // Off the grid, inside the content circle: the sample color itself.
    assert_eq!(cursor.get(7, 7), WHITE);
    assert_eq!(cursor.get(7, 1), WHITE);
    // On a grid line outside the center cell: darkened by 20%.
    assert_eq!(cursor.get(3, 4), 0xFFCCCCCC);
    assert_eq!(cursor.get(4, 3), 0xFFCCCCCC);
    // On a grid line inside the center cell: the border color, black
    // over a light sample.
    assert_eq!(cursor.get(6, 7), BLACK);
    assert_eq!(cursor.get(7, 6), BLACK);
}

#[test]
fn uniform_dark_sample_interior_pixels() {
    let source = Argb::new(0xFF, 0x10, 0x10, 0x10);
    let cursor = uniform_render(source);
    // Plain interior pixel: unchanged.
    assert_eq!(cursor.get(7, 7), 0xFF101010);
    // Grid line outside the center cell: lightened by 20%.
    assert_eq!(cursor.get(3, 4), 0xFF3F3F3F);
    // Center-cell grid line: white border over a dark sample.
    assert_eq!(cursor.get(6, 7), WHITE);
}

#[test]
fn ring_and_corners() {
    let source = Argb::new(0xFF, 0xFF, 0xFF, 0xFF);
    let cursor = uniform_render(source);
    // In the one-pixel ring between content circle and outer edge.
    assert_eq!(cursor.get(7, 0), BLACK);
    assert_eq!(cursor.get(0, 7), BLACK);
    // Outside the ring: fully transparent, and the old canvas value is
    // overwritten, not kept.
    assert_eq!(cursor.get(0, 0), 0x00000000);
    assert_eq!(cursor.get(14, 14), 0x00000000);
    assert_eq!(cursor.get(1, 14), 0x00000000);
}

#[test]
fn hex_label_text_of_a_color() {
    let text = color_hex_chars(Argb::new(0xFF, 0xAB, 0xCD, 0xEF));
    assert_eq!(text, vec!['#', 'A', 'B', 'C', 'D', 'E', 'F']);
    let text = color_hex_chars(Argb::new(0x00, 0x00, 0x09, 0x1F));
    assert_eq!(text, vec!['#', '0', '0', '0', '9', '1', 'F']);
}

#[test]
fn color_label_background_and_text() {
    // Canvas width 101: the label text starts at (8, 77 + 4), the
    // background rectangle spans columns 4..96 and rows 77..101, which
    // is 7*12 + 8 columns wide and 24 rows tall.
    let mut canvas: PixelSquare<u32> = PixelSquare::new(101, 0);
    draw_color_text(&mut canvas, Argb::new(0xFF, 0xAB, 0xCD, 0xEF));
    // Background corners are black.
    assert_eq!(canvas.get(4, 77), BLACK);
    assert_eq!(canvas.get(95, 77), BLACK);
    assert_eq!(canvas.get(4, 100), BLACK);
    assert_eq!(canvas.get(95, 100), BLACK);
    // Just outside the rectangle nothing changed.
    assert_eq!(canvas.get(3, 77), 0);
    assert_eq!(canvas.get(96, 77), 0);
    assert_eq!(canvas.get(4, 76), 0);
    assert_eq!(canvas.get(95, 76), 0);
    // The '#' glyph row 1 has columns 1, 2, 5 and 6 set; its cell starts
    // at (8, 81).
    assert_eq!(canvas.get(9, 82), WHITE);
    assert_eq!(canvas.get(10, 82), WHITE);
    assert_eq!(canvas.get(13, 82), WHITE);
    assert_eq!(canvas.get(14, 82), WHITE);
    // A bit that is clear leaves the background visible underneath.
    assert_eq!(canvas.get(8, 82), BLACK);
}

#[test]
fn undersized_canvas_is_all_background() {
    // Width 5: no character cell fits, so only the background remains,
    // clamped to the whole canvas.
    let mut canvas: PixelSquare<u32> = PixelSquare::new(5, 0x11111111);
    draw_color_text(&mut canvas, Argb::new(0xFF, 0x00, 0x00, 0x00));
    for x in 0..5 {
        for y in 0..5 {
            assert_eq!(canvas.get(x, y), BLACK);
        }
    }
}

#[test]
fn unrecognized_character_paints_no_pixel() {
    let mut canvas: PixelSquare<u32> = PixelSquare::new(50, 0x12345678);
    let text = vec!['z'];
    draw_large_text(&mut canvas, &text, 0, 0, WHITE);
    for x in 0..50 {
        for y in 0..50 {
            assert_eq!(canvas.get(x, y), 0x12345678);
        }
    }
}

#[test]
fn text_truncates_before_a_cell_that_crosses_the_edge() {
    // Width 20: the first cell (columns 0..12) fits, the second would
    // need 24 columns and is dropped entirely.
    let mut canvas: PixelSquare<u32> = PixelSquare::new(20, 0);
    let text = vec!['8', '8'];
    draw_large_text(&mut canvas, &text, 0, 0, WHITE);
    // '8' row 1 is 0x03C0: columns 2..=5 are set.
    assert_eq!(canvas.get(2, 1), WHITE);
    assert_eq!(canvas.get(5, 1), WHITE);
    assert_eq!(canvas.get(1, 1), 0);
    // Nothing from the second character's cell.
    for x in 12..20 {
        for y in 0..20 {
            assert_eq!(canvas.get(x, y), 0);
        }
    }
}

#[test]
fn text_that_fits_nowhere_draws_nothing() {
    let mut canvas: PixelSquare<u32> = PixelSquare::new(11, 7);
    let text = vec!['0'];
    draw_large_text(&mut canvas, &text, 0, 0, WHITE);
    for x in 0..11 {
        for y in 0..11 {
            assert_eq!(canvas.get(x, y), 7);
        }
    }
}

#[test]
fn glyph_rows_clip_at_the_bottom() {
    // start_y 14 on a width-20 canvas: rows 14..20 take glyph rows 0..6,
    // the rest are clipped. '8' row 1 lands on canvas row 15.
    let mut canvas: PixelSquare<u32> = PixelSquare::new(20, 0);
    let text = vec!['8'];
    draw_large_text(&mut canvas, &text, 0, 14, WHITE);
    assert_eq!(canvas.get(2, 15), WHITE);
    // Row 0 of the glyph is empty, row 19 holds glyph row 5 (0x0660:
    // columns 1, 2, 9, 10).
    assert_eq!(canvas.get(1, 19), WHITE);
    assert_eq!(canvas.get(3, 19), 0);
}
