use magnifier::color::Argb;

#[test]
fn packs_argb_channels_into_one_word() {
    let c = Argb::new(0xFF, 0xAB, 0xCD, 0xEF);
    assert_eq!(c.to_u32(), 0xFFABCDEF);
    assert_eq!(Argb::transparent().to_u32(), 0x00000000);
    assert_eq!(Argb::black().to_u32(), 0xFF000000);
    assert_eq!(Argb::white().to_u32(), 0xFFFFFFFF);
}

#[test]
fn darkness_threshold_is_channel_average_128() {
    assert!(!Argb::new(0xFF, 127, 128, 129).is_dark());
    assert!(Argb::new(0xFF, 127, 128, 128).is_dark());
    assert!(Argb::new(0xFF, 0, 0, 0).is_dark());
    assert!(!Argb::new(0xFF, 255, 255, 255).is_dark());
}

#[test]
fn darken_removes_a_fifth_of_each_channel() {
    let c = Argb::new(0xFF, 0xAB, 0xFF, 0x05).darken();
    assert_eq!(c.a, 0xFF);
    assert_eq!(c.r, 0xAB - 0xAB / 5);
    assert_eq!(c.r, 137);
    assert_eq!(c.g, 204);
    assert_eq!(c.b, 4);
}

#[test]
fn lighten_adds_a_fifth_of_the_headroom() {
    let c = Argb::new(0x80, 0x10, 0x00, 0xFF).lighten();
    assert_eq!(c.a, 0x80);
    assert_eq!(c.r, 0x10 + (255 - 0x10) / 5);
    assert_eq!(c.r, 63);
    assert_eq!(c.g, 51);
    assert_eq!(c.b, 0xFF);
}
