//! The typeface.

use graybox::font::{Font, GLYPHS, GLYPH_SIZE};

/// A typeface with one recognizable glyph: a solid block at 'A' -
/// and nothing anywhere else.
fn block_at_a() -> Font {
    let mut bytes = vec![0u8; GLYPHS * GLYPH_SIZE];
    let a = b'A' as usize * GLYPH_SIZE;
    bytes[a..a + GLYPH_SIZE].fill(0xFF);
    Font::from_bytes(bytes).unwrap()
}

#[test]
fn a_glyph_is_its_eight_rows() {
    let font = block_at_a();
    assert_eq!(font.glyph('A'), &[0xFF; 8]);
    assert_eq!(font.glyph('B'), &[0x00; 8]);
}

#[test]
fn characters_beyond_ascii_print_as_a_question_mark() {
    let mut bytes = vec![0u8; GLYPHS * GLYPH_SIZE];
    bytes[b'?' as usize * GLYPH_SIZE] = 0x3C;
    let font = Font::from_bytes(bytes).unwrap();
    assert_eq!(font.glyph('é')[0], 0x3C);
}

#[test]
fn a_font_of_the_wrong_size_is_refused() {
    assert!(Font::from_bytes(vec![0; 1000]).is_err());
}
