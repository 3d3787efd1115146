use magnifier::glyph::get_large_char_bitmap;

#[test]
fn known_characters_have_their_rows() {
    assert_eq!(get_large_char_bitmap('0')[1], 0x03C0);
    assert_eq!(get_large_char_bitmap('0')[0], 0x0000);
    assert_eq!(get_large_char_bitmap('#')[4], 0x0FF0);
    assert_eq!(get_large_char_bitmap('F')[13], 0x0C00);
    assert_eq!(get_large_char_bitmap('9')[13], 0x0380);
}

#[test]
fn unrecognized_characters_are_blank() {
    for ch in ['z', 'a', 'g', ' ', '!', '\u{1F600}'] {
        let rows = get_large_char_bitmap(ch);
        assert_eq!(rows, [0u16; 16]);
    }
}
