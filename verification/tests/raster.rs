//! Drawing into a framebuffer.

use ignis::debug_window::font::{glyph_bytes, is_set};
use ignis::debug_window::raster::{Color, Framebuffer};

#[test]
fn clear_sets_all_pixels() {
    let mut fb = Framebuffer::new(4, 2);
    fb.clear(Color::rgb(255, 0, 0));
    for px in fb.bytes().chunks_exact(4) {
        assert_eq!(px[0], 0);
        assert_eq!(px[1], 0);
        assert_eq!(px[2], 255);
        assert_eq!(px[3], 255);
    }
}

#[test]
fn put_writes_one_pixel() {
    let mut fb = Framebuffer::new(2, 2);
    fb.put(1, 0, Color::rgb(10, 20, 30));
    let px = &fb.bytes()[4..8];
    assert_eq!(px, &[30, 20, 10, 255]);
}

#[test]
fn put_clips_out_of_bounds() {
    let mut fb = Framebuffer::new(2, 2);
    fb.put(-1, 0, Color::rgb(255, 0, 0));
    fb.put(2, 0, Color::rgb(255, 0, 0));
    fb.put(0, 5, Color::rgb(255, 0, 0));
    for byte in fb.bytes() {
        assert_eq!(*byte, 0);
    }
}

#[test]
fn rect_clips_to_bounds() {
    let mut fb = Framebuffer::new(4, 4);
    fb.rect(2, 2, 100, 100, Color::rgb(255, 0, 0));
    for &(x, y) in &[(2, 2), (3, 2), (2, 3), (3, 3)] {
        let i = (y * 4 + x) * 4;
        assert_eq!(fb.bytes()[i + 2], 255, "pixel ({x},{y}) not set");
    }
    for &(x, y) in &[(0, 0), (1, 1)] {
        let i = (y * 4 + x) * 4;
        assert_eq!(fb.bytes()[i + 2], 0);
    }
}

#[test]
fn rect_outline_only_borders() {
    let mut fb = Framebuffer::new(5, 5);
    fb.rect_outline(0, 0, 5, 5, Color::rgb(255, 0, 0));
    let i = (2 * 5 + 2) * 4;
    assert_eq!(fb.bytes()[i + 2], 0);
    assert_eq!(fb.bytes()[2], 255);
}

#[test]
fn text_advances_by_eight_per_char() {
    assert_eq!(Framebuffer::text_width(""), 0);
    assert_eq!(Framebuffer::text_width("A"), 8);
    assert_eq!(Framebuffer::text_width("Hello"), 40);
}

#[test]
fn resize_reallocates_buffer() {
    let mut fb = Framebuffer::new(2, 2);
    fb.clear(Color::rgb(255, 0, 0));
    fb.resize(4, 4);
    assert_eq!(fb.width(), 4);
    assert_eq!(fb.height(), 4);
    assert_eq!(fb.byte_len(), 4 * 4 * 4);
    assert_eq!(fb.bytes()[0], 0);
}

#[test]
fn glyph_renders_into_framebuffer() {
    let mut fb = Framebuffer::new(8, 8);
    fb.glyph(0, 0, 'A', Color::rgb(255, 0, 0));
    let any_set = fb.bytes().chunks_exact(4).any(|p| p[2] == 255);
    assert!(any_set, "glyph 'A' produced no red pixels");
}

#[test]
fn glyph_clips_when_partially_offscreen() {
    let mut fb = Framebuffer::new(4, 4);
    fb.glyph(-2, -2, 'A', Color::rgb(255, 0, 0));
    // Should not panic; some pixels may have been written.
    let _ = fb.bytes();
}

#[test]
fn rect_at_zero_size_is_noop() {
    let mut fb = Framebuffer::new(4, 4);
    fb.rect(0, 0, 0, 5, Color::rgb(255, 0, 0));
    fb.rect(0, 0, 5, 0, Color::rgb(255, 0, 0));
    for byte in fb.bytes() {
        assert_eq!(*byte, 0);
    }
}

#[test]
fn large_rect_fill_does_not_panic() {
    let mut fb = Framebuffer::new(2340, 1248);
    fb.clear(Color::rgb(0x1E, 0x1E, 0x1E));
    fb.rect(100, 100, 2000, 1000, Color::rgb(0xFF, 0x00, 0x00));
    let stride = 2340 * 4;
    let i = (200 * stride + 200 * 4) as usize;
    assert_eq!(fb.bytes()[i + 2], 0xFF);
}

#[test]
fn resize_to_the_same_size_forgets_the_picture() {
    let mut fb = Framebuffer::new(3, 3);
    fb.clear(Color::rgb(1, 2, 3));
    fb.resize(3, 3);
    assert!(fb.bytes().iter().all(|b| *b == 0));
}

#[test]
fn glyph_pixels_follow_the_font() {
    let mut fb = Framebuffer::new(8, 8);
    fb.glyph(0, 0, 'R', Color::rgb(255, 255, 255));
    for row in 0..8u8 {
        for col in 0..8u8 {
            let i = (row as usize * 8 + col as usize) * 4;
            assert_eq!(fb.bytes()[i] == 255, is_set('R', row, col), "({row},{col})");
        }
    }
    assert!(glyph_bytes('R').iter().any(|b| *b != 0));
    assert_eq!(glyph_bytes(' '), [0; 8]);
}

#[test]
fn text_places_characters_side_by_side() {
    let mut both = Framebuffer::new(16, 8);
    both.text(0, 0, "AB", Color::rgb(9, 9, 9));
    let mut apart = Framebuffer::new(16, 8);
    apart.glyph(0, 0, 'A', Color::rgb(9, 9, 9));
    apart.glyph(8, 0, 'B', Color::rgb(9, 9, 9));
    assert_eq!(both.bytes(), apart.bytes());
}

#[test]
fn extreme_coordinates_are_clipped() {
    let mut fb = Framebuffer::new(4, 4);
    fb.rect(i32::MAX, i32::MAX, i32::MAX, i32::MAX, Color::rgb(1, 1, 1));
    fb.rect(i32::MIN, i32::MIN, 10, 10, Color::rgb(1, 1, 1));
    fb.rect_outline(i32::MAX, 0, i32::MAX, 4, Color::rgb(1, 1, 1));
    fb.text(i32::MAX, 0, "far", Color::rgb(1, 1, 1));
    assert!(fb.bytes().iter().all(|b| *b == 0));
    fb.rect(i32::MIN, i32::MIN, i32::MAX, i32::MAX, Color::rgb(1, 1, 1));
    assert!(fb.bytes().iter().all(|b| *b == 0));
    fb.rect(-1, -1, i32::MAX, i32::MAX, Color::rgba(1, 2, 3, 4));
    assert!(fb.bytes().chunks_exact(4).all(|p| p == [3, 2, 1, 4]));
}

#[test]
fn packed_colour_has_blue_in_its_lowest_byte() {
    assert_eq!(Color::rgba(0x11, 0x22, 0x33, 0x44).packed(), 0x4411_2233);
}
