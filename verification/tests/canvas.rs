//! Painting.

use graybox::canvas::Canvas;
use graybox::font::{Font, GLYPH_SIZE};

/// A typeface whose 'A' is a single lit pixel in the top-left corner.
fn dot_at_a() -> Font {
    let mut bytes = vec![0u8; 128 * GLYPH_SIZE];
    bytes[b'A' as usize * GLYPH_SIZE] = 0b0000_0001;
    Font::from_bytes(bytes).unwrap()
}

#[test]
fn text_advances_one_glyph_per_character() {
    let mut canvas = Canvas::new(32, 8);
    canvas.text(&dot_at_a(), 4, 2, "AA", 0xFF_FFFF);
    assert_eq!(canvas.pixels[2 * 32 + 4], 0xFF_FFFF);
    assert_eq!(canvas.pixels[2 * 32 + 12], 0xFF_FFFF);
    assert_eq!(canvas.pixels.iter().filter(|&&p| p != 0).count(), 2);
}

#[test]
fn a_blit_lands_where_it_is_told() {
    let mut canvas = Canvas::new(4, 4);
    canvas.blit(1, 2, 2, &[1, 2, 3, 4]);
    assert_eq!(canvas.pixels[2 * 4 + 1], 1);
    assert_eq!(canvas.pixels[2 * 4 + 2], 2);
    assert_eq!(canvas.pixels[3 * 4 + 1], 3);
    assert_eq!(canvas.pixels[3 * 4 + 2], 4);
}

#[test]
fn painting_off_the_edge_is_ignored() {
    let mut canvas = Canvas::new(2, 2);
    canvas.pixel(2, 0, 7);
    canvas.fill(1, 1, 5, 5, 9);
    assert_eq!(canvas.pixels, [0, 0, 0, 9]);
}

#[test]
fn only_what_is_painted_needs_room() {
    let mut canvas = Canvas::new(8, 8);
    let font = dot_at_a();
    let far = usize::MAX;
    canvas.text(&font, far, far, " ", 1);
    canvas.text(&font, far, far, "A", 1);
    canvas.text(&font, far - 8, far, " A ", 1);
    canvas.blit(7, 1, far, &[5]);
    assert_eq!(canvas.pixels[8 + 7], 5);
    assert_eq!(canvas.pixels.iter().filter(|&&p| p != 0).count(), 1);
}
