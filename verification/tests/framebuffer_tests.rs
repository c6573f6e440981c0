use neural_galaga::framebuffer::{dim_byte, Framebuffer};

/// The single-precision alpha blend used for translucent fills.
fn blend_f32(src: u8, alpha: f32, dst: u8) -> u8 {
    let inv_a = 1.0 - alpha;
    (src as f32 * alpha + dst as f32 * inv_a) as u8
}

#[test]
fn new_framebuffer_is_transparent_black() {
    let fb = Framebuffer::new(3, 2);
    assert_eq!(fb.width, 3);
    assert_eq!(fb.height, 2);
    assert_eq!(fb.pixels, vec![0u8; 24]);
}

#[test]
fn clear_sets_every_pixel() {
    let mut fb = Framebuffer::new(2, 2);
    fb.clear(1, 2, 3, 4);
    assert_eq!(fb.pixels, vec![1, 2, 3, 4, 1, 2, 3, 4, 1, 2, 3, 4, 1, 2, 3, 4]);
}

#[test]
fn clear_leaves_a_partial_pixel() {
    let mut fb = Framebuffer { pixels: vec![9; 6], width: 1, height: 1 };
    fb.clear(1, 2, 3, 4);
    assert_eq!(fb.pixels, vec![1, 2, 3, 4, 9, 9]);
}

#[test]
fn opaque_fill_is_clipped() {
    let mut fb = Framebuffer::new(4, 3);
    fb.fill_rect_opaque(-1, 1, 3, 5, 10, 20, 30);
    for y in 0..3u32 {
        for x in 0..4u32 {
            let i = ((y * 4 + x) * 4) as usize;
            let inside = x < 2 && y >= 1;
            let want: [u8; 4] = if inside { [10, 20, 30, 255] } else { [0, 0, 0, 0] };
            assert_eq!(&fb.pixels[i..i + 4], &want, "pixel {x},{y}");
        }
    }
}

#[test]
fn fill_wholly_off_screen_does_nothing() {
    let mut fb = Framebuffer::new(4, 4);
    fb.fill_rect_opaque(-5, 0, 5, 2, 1, 1, 1);
    fb.fill_rect_opaque(0, -3, 2, 3, 1, 1, 1);
    fb.fill_rect_opaque(10, 10, 2, 2, 1, 1, 1);
    assert_eq!(fb.pixels, vec![0u8; 64]);
}

#[test]
fn clip_rect_reports_the_covered_area() {
    let fb = Framebuffer::new(10, 8);
    assert_eq!(fb.clip_rect(2, 3, 4, 2), Some((2, 3, 6, 5)));
    assert_eq!(fb.clip_rect(-2, -3, 4, 20), Some((0, 0, 2, 8)));
    assert_eq!(fb.clip_rect(-4, 0, 4, 1), None);
    // A width past i32::MAX reads as negative.
    assert_eq!(fb.clip_rect(1, 1, u32::MAX, 3), None);
    assert_eq!(fb.clip_rect(12, 1, 3, 3), Some((12, 1, 10, 4)));
}

#[test]
fn dim_matches_single_precision_blend_of_black_at_sixty_percent() {
    for c in 0..=255u8 {
        assert_eq!(dim_byte(c), blend_f32(0, 0.6, c), "channel {c}");
    }
}

#[test]
fn dim_rect_blends_and_makes_opaque() {
    let mut fb = Framebuffer::new(2, 1);
    fb.pixels = vec![100, 200, 255, 0, 50, 60, 70, 80];
    fb.dim_rect(1, 0, 5, 5);
    assert_eq!(fb.pixels, vec![100, 200, 255, 0, 19, 23, 27, 255]);
    assert_eq!(blend_f32(0, 0.6, 50), 19);
}

#[test]
fn composite_copies_visible_pixels() {
    let mut fb = Framebuffer::new(3, 1);
    fb.clear(3, 3, 8, 255);
    let layer = vec![9, 9, 9, 0, 1, 2, 3, 4, 5, 6, 7, 200];
    fb.composite(&layer);
    assert_eq!(fb.pixels, vec![3, 3, 8, 255, 1, 2, 3, 255, 5, 6, 7, 255]);
}

#[test]
fn composite_stops_at_the_shorter_buffer() {
    let mut fb = Framebuffer::new(2, 1);
    fb.composite(&[1, 2, 3, 4, 5]);
    assert_eq!(fb.pixels, vec![1, 2, 3, 255, 0, 0, 0, 0]);
}
