//! A fixed 12x16 bitmap font for the label alphabet: the hex digits and
//! `#`. Each glyph is 16 rows of a 16-bit mask whose low 12 bits are the
//! columns, most significant of the 12 first (bit 11 is the leftmost
//! column). Every other character maps to the all-blank glyph.

use vstd::prelude::*;

verus! {

/// The characters that have a non-blank glyph: the hex digits and `#`.
pub open spec fn recognized_char(ch: char) -> bool {
    ||| ('0' <= ch && ch <= '9')
    ||| ('A' <= ch && ch <= 'F')
    ||| ch == '#'
}

/// The all-zero glyph drawn for characters outside the alphabet.
pub open spec fn blank_glyph() -> Seq<u16> {
    seq![
        0x0000u16, 0x0000, 0x0000, 0x0000, 0x0000, 0x0000, 0x0000, 0x0000,
        0x0000, 0x0000, 0x0000, 0x0000, 0x0000, 0x0000, 0x0000, 0x0000,
    ]
}

/// The rows of the glyph for a character; blank for unrecognized ones.
pub open spec fn spec_glyph(ch: char) -> Seq<u16> {
    if ch == '0' {
        seq![
            0x0000u16, 0x03C0, 0x0660, 0x0C30, 0x0C30, 0x0CF0, 0x0DB0, 0x0DB0,
            0x0F30, 0x0E30, 0x0C30, 0x0C30, 0x0660, 0x03C0, 0x0000, 0x0000,
        ]
    } else if ch == '1' {
        seq![
            0x0000u16, 0x0180, 0x0380, 0x0780, 0x0180, 0x0180, 0x0180, 0x0180,
            0x0180, 0x0180, 0x0180, 0x0180, 0x0180, 0x07E0, 0x0000, 0x0000,
        ]
    } else if ch == '2' {
        seq![
            0x0000u16, 0x03C0, 0x0660, 0x0C30, 0x0030, 0x0030, 0x0060, 0x00C0,
            0x0180, 0x0300, 0x0600, 0x0C00, 0x0C00, 0x0FF0, 0x0000, 0x0000,
        ]
    } else if ch == '3' {
        seq![
            0x0000u16, 0x03C0, 0x0660, 0x0C30, 0x0030, 0x0030, 0x01C0, 0x01C0,
            0x0030, 0x0030, 0x0030, 0x0C30, 0x0660, 0x03C0, 0x0000, 0x0000,
        ]
    } else if ch == '4' {
        seq![
            0x0000u16, 0x0060, 0x00E0, 0x01E0, 0x0360, 0x0660, 0x0C60, 0x0C60,
            0x0FF0, 0x0FF0, 0x0060, 0x0060, 0x0060, 0x0060, 0x0000, 0x0000,
        ]
    } else if ch == '5' {
        seq![
            0x0000u16, 0x0FF0, 0x0C00, 0x0C00, 0x0C00, 0x0FC0, 0x0FE0, 0x0030,
            0x0030, 0x0030, 0x0030, 0x0C30, 0x0660, 0x03C0, 0x0000, 0x0000,
        ]
    } else if ch == '6' {
        seq![
            0x0000u16, 0x01C0, 0x0360, 0x0600, 0x0C00, 0x0C00, 0x0FC0, 0x0FE0,
            0x0C30, 0x0C30, 0x0C30, 0x0C30, 0x0660, 0x03C0, 0x0000, 0x0000,
        ]
    } else if ch == '7' {
        seq![
            0x0000u16, 0x0FF0, 0x0FF0, 0x0030, 0x0060, 0x0060, 0x00C0, 0x00C0,
            0x0180, 0x0180, 0x0300, 0x0300, 0x0300, 0x0300, 0x0000, 0x0000,
        ]
    } else if ch == '8' {
        seq![
            0x0000u16, 0x03C0, 0x0660, 0x0C30, 0x0C30, 0x0660, 0x03C0, 0x03C0,
            0x0660, 0x0C30, 0x0C30, 0x0C30, 0x0660, 0x03C0, 0x0000, 0x0000,
        ]
    } else if ch == '9' {
        seq![
            0x0000u16, 0x03C0, 0x0660, 0x0C30, 0x0C30, 0x0C30, 0x0C30, 0x07F0,
            0x03F0, 0x0030, 0x0030, 0x0060, 0x06C0, 0x0380, 0x0000, 0x0000,
        ]
    } else if ch == 'A' {
        seq![
            0x0000u16, 0x0180, 0x03C0, 0x03C0, 0x0660, 0x0660, 0x0C30, 0x0C30,
            0x0FF0, 0x0FF0, 0x0C30, 0x0C30, 0x0C30, 0x0C30, 0x0000, 0x0000,
        ]
    } else if ch == 'B' {
        seq![
            0x0000u16, 0x0FC0, 0x0C60, 0x0C30, 0x0C30, 0x0C60, 0x0FC0, 0x0FC0,
            0x0C60, 0x0C30, 0x0C30, 0x0C30, 0x0C60, 0x0FC0, 0x0000, 0x0000,
        ]
    } else if ch == 'C' {
        seq![
            0x0000u16, 0x03C0, 0x0660, 0x0C30, 0x0C00, 0x0C00, 0x0C00, 0x0C00,
            0x0C00, 0x0C00, 0x0C00, 0x0C30, 0x0660, 0x03C0, 0x0000, 0x0000,
        ]
    } else if ch == 'D' {
        seq![
            0x0000u16, 0x0FC0, 0x0C60, 0x0C30, 0x0C30, 0x0C30, 0x0C30, 0x0C30,
            0x0C30, 0x0C30, 0x0C30, 0x0C30, 0x0C60, 0x0FC0, 0x0000, 0x0000,
        ]
    } else if ch == 'E' {
        seq![
            0x0000u16, 0x0FF0, 0x0C00, 0x0C00, 0x0C00, 0x0C00, 0x0FE0, 0x0FE0,
            0x0C00, 0x0C00, 0x0C00, 0x0C00, 0x0C00, 0x0FF0, 0x0000, 0x0000,
        ]
    } else if ch == 'F' {
        seq![
            0x0000u16, 0x0FF0, 0x0C00, 0x0C00, 0x0C00, 0x0C00, 0x0FE0, 0x0FE0,
            0x0C00, 0x0C00, 0x0C00, 0x0C00, 0x0C00, 0x0C00, 0x0000, 0x0000,
        ]
    } else if ch == '#' {
        seq![
            0x0000u16, 0x0660, 0x0660, 0x0660, 0x0FF0, 0x0FF0, 0x0660, 0x0660,
            0x0FF0, 0x0FF0, 0x0660, 0x0660, 0x0660, 0x0660, 0x0000, 0x0000,
        ]
    } else {
        blank_glyph()
    }
}

/// The 16-row bitmap of the glyph for a character.
pub fn get_large_char_bitmap(ch: char) -> (rows: [u16; 16])
    ensures
        rows@ == spec_glyph(ch),
        rows@.len() == 16,
{
    let rows: [u16; 16] = match ch {
        '0' => [
            0x0000u16, 0x03C0, 0x0660, 0x0C30, 0x0C30, 0x0CF0, 0x0DB0, 0x0DB0,
            0x0F30, 0x0E30, 0x0C30, 0x0C30, 0x0660, 0x03C0, 0x0000, 0x0000,
        ],
        '1' => [
            0x0000u16, 0x0180, 0x0380, 0x0780, 0x0180, 0x0180, 0x0180, 0x0180,
            0x0180, 0x0180, 0x0180, 0x0180, 0x0180, 0x07E0, 0x0000, 0x0000,
        ],
        '2' => [
            0x0000u16, 0x03C0, 0x0660, 0x0C30, 0x0030, 0x0030, 0x0060, 0x00C0,
            0x0180, 0x0300, 0x0600, 0x0C00, 0x0C00, 0x0FF0, 0x0000, 0x0000,
        ],
        '3' => [
            0x0000u16, 0x03C0, 0x0660, 0x0C30, 0x0030, 0x0030, 0x01C0, 0x01C0,
            0x0030, 0x0030, 0x0030, 0x0C30, 0x0660, 0x03C0, 0x0000, 0x0000,
        ],
        '4' => [
            0x0000u16, 0x0060, 0x00E0, 0x01E0, 0x0360, 0x0660, 0x0C60, 0x0C60,
            0x0FF0, 0x0FF0, 0x0060, 0x0060, 0x0060, 0x0060, 0x0000, 0x0000,
        ],
        '5' => [
            0x0000u16, 0x0FF0, 0x0C00, 0x0C00, 0x0C00, 0x0FC0, 0x0FE0, 0x0030,
            0x0030, 0x0030, 0x0030, 0x0C30, 0x0660, 0x03C0, 0x0000, 0x0000,
        ],
        '6' => [
            0x0000u16, 0x01C0, 0x0360, 0x0600, 0x0C00, 0x0C00, 0x0FC0, 0x0FE0,
            0x0C30, 0x0C30, 0x0C30, 0x0C30, 0x0660, 0x03C0, 0x0000, 0x0000,
        ],
        '7' => [
            0x0000u16, 0x0FF0, 0x0FF0, 0x0030, 0x0060, 0x0060, 0x00C0, 0x00C0,
            0x0180, 0x0180, 0x0300, 0x0300, 0x0300, 0x0300, 0x0000, 0x0000,
        ],
        '8' => [
            0x0000u16, 0x03C0, 0x0660, 0x0C30, 0x0C30, 0x0660, 0x03C0, 0x03C0,
            0x0660, 0x0C30, 0x0C30, 0x0C30, 0x0660, 0x03C0, 0x0000, 0x0000,
        ],
        '9' => [
            0x0000u16, 0x03C0, 0x0660, 0x0C30, 0x0C30, 0x0C30, 0x0C30, 0x07F0,
            0x03F0, 0x0030, 0x0030, 0x0060, 0x06C0, 0x0380, 0x0000, 0x0000,
        ],
        'A' => [
            0x0000u16, 0x0180, 0x03C0, 0x03C0, 0x0660, 0x0660, 0x0C30, 0x0C30,
            0x0FF0, 0x0FF0, 0x0C30, 0x0C30, 0x0C30, 0x0C30, 0x0000, 0x0000,
        ],
        'B' => [
            0x0000u16, 0x0FC0, 0x0C60, 0x0C30, 0x0C30, 0x0C60, 0x0FC0, 0x0FC0,
            0x0C60, 0x0C30, 0x0C30, 0x0C30, 0x0C60, 0x0FC0, 0x0000, 0x0000,
        ],
        'C' => [
            0x0000u16, 0x03C0, 0x0660, 0x0C30, 0x0C00, 0x0C00, 0x0C00, 0x0C00,
            0x0C00, 0x0C00, 0x0C00, 0x0C30, 0x0660, 0x03C0, 0x0000, 0x0000,
        ],
        'D' => [
            0x0000u16, 0x0FC0, 0x0C60, 0x0C30, 0x0C30, 0x0C30, 0x0C30, 0x0C30,
            0x0C30, 0x0C30, 0x0C30, 0x0C30, 0x0C60, 0x0FC0, 0x0000, 0x0000,
        ],
        'E' => [
            0x0000u16, 0x0FF0, 0x0C00, 0x0C00, 0x0C00, 0x0C00, 0x0FE0, 0x0FE0,
            0x0C00, 0x0C00, 0x0C00, 0x0C00, 0x0C00, 0x0FF0, 0x0000, 0x0000,
        ],
        'F' => [
            0x0000u16, 0x0FF0, 0x0C00, 0x0C00, 0x0C00, 0x0C00, 0x0FE0, 0x0FE0,
            0x0C00, 0x0C00, 0x0C00, 0x0C00, 0x0C00, 0x0C00, 0x0000, 0x0000,
        ],
        '#' => [
            0x0000u16, 0x0660, 0x0660, 0x0660, 0x0FF0, 0x0FF0, 0x0660, 0x0660,
            0x0FF0, 0x0FF0, 0x0660, 0x0660, 0x0660, 0x0660, 0x0000, 0x0000,
        ],
        _ => [
            0x0000u16, 0x0000, 0x0000, 0x0000, 0x0000, 0x0000, 0x0000, 0x0000,
            0x0000, 0x0000, 0x0000, 0x0000, 0x0000, 0x0000, 0x0000, 0x0000,
        ],
    };
    proof {
        assert(rows@ =~= spec_glyph(ch));
    }
    rows
}

/// Every character of the recognized alphabet has a glyph that actually
/// paints something: its second row mask is non-zero.
pub proof fn lemma_recognized_not_blank(ch: char)
    requires
        recognized_char(ch),
    ensures
        spec_glyph(ch)[1] != 0u16,
{
}

/// Outside the recognized alphabet, the glyph is blank.
pub proof fn lemma_unrecognized_blank(ch: char)
    requires
        !recognized_char(ch),
    ensures
        spec_glyph(ch) == blank_glyph(),
{
}

} // verus!
