use neural_galaga::credits::{draw_qr, render_credits_qr, QrGrid, SOURCE_URL};
use neural_galaga::framebuffer::Framebuffer;

fn pixel(fb: &Framebuffer, x: u32, y: u32) -> [u8; 4] {
    let i = ((y * fb.width + x) * 4) as usize;
    [fb.pixels[i], fb.pixels[i + 1], fb.pixels[i + 2], fb.pixels[i + 3]]
}

#[test]
fn credits_qr_matches_the_encoder() {
    let code = qrcode::QrCode::new(SOURCE_URL.as_bytes()).unwrap();
    let width = code.width() as u32;
    let colors = code.to_colors();
    let mut fb = Framebuffer::new(224, 288);
    let bottom = render_credits_qr(&mut fb).expect("the address encodes");
    let total = width * 3;
    assert_eq!(bottom, 104 + total + 6);
    let qr_x = (224 - total) / 2;
    for my in 0..width {
        for mx in 0..width {
            let dark = colors[(my * width + mx) as usize] == qrcode::Color::Dark;
            let v = if dark { 0 } else { 255 };
            for dy in 0..3 {
                for dx in 0..3 {
                    assert_eq!(pixel(&fb, qr_x + mx * 3 + dx, 104 + my * 3 + dy), [v, v, v, 255]);
                }
            }
        }
    }
    // The white margin and the untouched surroundings.
    assert_eq!(pixel(&fb, qr_x - 3, 101), [255, 255, 255, 255]);
    assert_eq!(pixel(&fb, qr_x + total + 2, 104 + total + 2), [255, 255, 255, 255]);
    assert_eq!(pixel(&fb, qr_x - 4, 101), [0, 0, 0, 0]);
    assert_eq!(pixel(&fb, qr_x, 100), [0, 0, 0, 0]);
    assert_eq!(pixel(&fb, qr_x, 104 + total + 6), [0, 0, 0, 0]);
}

#[test]
fn draw_small_grid() {
    let grid = QrGrid { width: 2, dark: vec![true, false, false, true] };
    let mut fb = Framebuffer::new(224, 288);
    assert_eq!(draw_qr(&mut fb, &grid), 104 + 6 + 6);
    let qr_x = (224 - 6) / 2; // 109
    assert_eq!(pixel(&fb, qr_x, 104), [0, 0, 0, 255]);
    assert_eq!(pixel(&fb, qr_x + 3, 104), [255, 255, 255, 255]);
    assert_eq!(pixel(&fb, qr_x + 2, 107), [255, 255, 255, 255]);
    assert_eq!(pixel(&fb, qr_x + 5, 109), [0, 0, 0, 255]);
    assert_eq!(pixel(&fb, qr_x - 3, 112), [255, 255, 255, 255]);
    assert_eq!(pixel(&fb, qr_x - 4, 112), [0, 0, 0, 0]);
}
