use magnifier::pixel::PixelSquare;

#[test]
fn new_fills_every_pixel() {
    let s: PixelSquare<u32> = PixelSquare::new(3, 7);
    assert_eq!(s.width(), 3);
    for x in 0..3 {
        for y in 0..3 {
            assert_eq!(s.get(x, y), 7);
        }
    }
}

#[test]
fn set_changes_one_pixel_and_keeps_the_rest() {
    let mut s: PixelSquare<u32> = PixelSquare::new(3, 0);
    s.set(1, 2, 99);
    for x in 0..3 {
        for y in 0..3 {
            if (x, y) == (1, 2) {
                assert_eq!(s.get(x, y), 99);
            } else {
                assert_eq!(s.get(x, y), 0);
            }
        }
    }
}
