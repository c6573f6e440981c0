//! The QR code on the credits screen, which links to the source repository.
use vstd::prelude::*;

use vstd::string::StringSliceAdditionalSpecFns;
use crate::framebuffer::{covered, in_rect, paint, rect_clip, Framebuffer};

verus! {

/// The address the credits screen encodes.
pub const SOURCE_URL: &'static str = "https://github.com/magniff/neural-galaga";

/// Size, in screen pixels, of one QR module.
pub const QR_PIXEL_SIZE: u32 = 3;

/// Top edge of the QR code on the credits screen.
pub const QR_Y: u32 = 104;

/// A QR code symbol: `width` modules per side, row by row, `true` for dark.
#[derive(Clone, Debug)]
pub struct QrGrid {
    pub width: usize,
    pub dark: Vec<bool>,
}

/// The QR symbol (side in modules, dark modules row by row) that the `qrcode`
/// crate encodes `data` into at its default (medium) error correction, or
/// `None` when the data does not fit in a QR code.
pub uninterp spec fn qr_symbol(data: Seq<u8>) -> Option<(nat, Seq<bool>)>;

/// Encodes `data` with `qrcode::QrCode::new` and reads the symbol back with
/// `QrCode::width` and `QrCode::to_colors` (dark modules as `true`).
/// Trusted: the result is the crate's symbol for `data` (named
/// `qr_symbol`), and, as its source shows, an encoded symbol is a normal QR
/// code of version 1 to 40 — 21 to 177 modules per side, 17 plus a multiple
/// of 4 — whose module list holds `width * width` entries.
#[verifier::external_body]
fn encode_qr(data: &[u8]) -> (r: Option<QrGrid>)
    ensures
        match r {
            None => qr_symbol(data@) is None,
            Some(g) => {
                &&& qr_symbol(data@) == Some((g.width as nat, g.dark@))
                &&& 21 <= g.width <= 177
                &&& (g.width - 17) % 4 == 0
                &&& g.dark@.len() == g.width * g.width
            },
        },
{
    match qrcode::QrCode::new(data) {
        Ok(code) => Some(
            QrGrid {
                width: code.width(),
                dark: code.to_colors().iter().map(|c| match c {
                    qrcode::Color::Dark => true,
                    qrcode::Color::Light => false,
                }).collect(),
            },
        ),
        Err(_) => None,
    }
}

/// Left edge of a QR code of `side` modules centred in the 224 px screen.
pub open spec fn qr_left(side: int) -> int {
    (224 - 3 * side) / 2
}

/// Byte `p` of a `width`-wide surface lies on the module grid of a QR code
/// of `side` modules.
pub open spec fn on_grid(p: int, width: int, side: int) -> bool {
    let c = (p / 4) % width;
    let r = (p / 4) / width;
    &&& qr_left(side) <= c < qr_left(side) + 3 * side
    &&& 104 <= r < 104 + 3 * side
}

/// The module that byte `p` shows (when on the grid).
pub open spec fn module_at(p: int, width: int, side: int) -> int {
    let c = (p / 4) % width;
    let r = (p / 4) / width;
    ((r - 104) / 3) * side + (c - qr_left(side)) / 3
}

/// The white square behind the QR code: three pixels of margin around it.
pub open spec fn backdrop(side: int, width: u32, height: u32) -> Option<(int, int, int, int)> {
    rect_clip(
        (qr_left(side) - 3) as i32,
        101,
        (3 * side + 6) as u32,
        (3 * side + 6) as u32,
        width,
        height,
    )
}

/// The byte at `p` after drawing a QR code over `old` bytes: each module is a
/// 3 by 3 pixel square, black when dark and white when light, on a white
/// backdrop.
pub open spec fn qr_pixel(old_byte: u8, p: int, width: u32, height: u32, side: int, dark: Seq<bool>) -> u8 {
    if on_grid(p, width as int, side) {
        let v: u8 = if dark[module_at(p, width as int, side)] {
            0
        } else {
            255
        };
        paint(p, v, v, v)
    } else if covered(p, width, backdrop(side, width, height)) {
        paint(p, 255, 255, 255)
    } else {
        old_byte
    }
}

/// The pixel square of module `k` (`k = my * side + mx`) holds exactly the
/// bytes on the grid that show module `k`.
proof fn lemma_module_square(p: int, width: int, side: int, mx: int, my: int)
    requires
        width > 0,
        side > 0,
        0 <= qr_left(side),
        0 <= mx < side,
        0 <= my < side,
        p >= 0,
    ensures
        in_rect(p, width, qr_left(side) + 3 * mx, 104 + 3 * my, qr_left(side) + 3 * mx + 3, 104 + 3
            * my + 3) <==> (on_grid(p, width, side) && module_at(p, width, side) == my * side + mx),
{
    let c = (p / 4) % width;
    let r = (p / 4) / width;
    let cx = c - qr_left(side);
    let ry = r - 104;
    if on_grid(p, width, side) {
        let a = cx / 3;
        let b = ry / 3;
        vstd::arithmetic::div_mod::lemma_fundamental_div_mod(cx, 3);
        vstd::arithmetic::div_mod::lemma_fundamental_div_mod(ry, 3);
        assert(0 <= a < side) by {
            vstd::arithmetic::div_mod::lemma_div_is_ordered(cx, 3 * side - 1, 3);
            vstd::arithmetic::div_mod::lemma_div_multiples_vanish_fancy(side - 1, 2, 3);
        }
        assert(0 <= b < side) by {
            vstd::arithmetic::div_mod::lemma_div_is_ordered(ry, 3 * side - 1, 3);
            vstd::arithmetic::div_mod::lemma_div_multiples_vanish_fancy(side - 1, 2, 3);
        }
        if b * side + a == my * side + mx {
            vstd::arithmetic::div_mod::lemma_fundamental_div_mod_converse(b * side + a, side, b, a);
            vstd::arithmetic::div_mod::lemma_fundamental_div_mod_converse(my * side + mx, side, my, mx);
        }
        if a == mx && b == my {
            assert(b * side + a == my * side + mx);
        }
    }
    if qr_left(side) + 3 * mx <= c < qr_left(side) + 3 * mx + 3 && 104 + 3 * my <= r < 104 + 3 * my + 3 {
        vstd::arithmetic::div_mod::lemma_fundamental_div_mod_converse(cx, 3, mx, cx - 3 * mx);
        vstd::arithmetic::div_mod::lemma_fundamental_div_mod_converse(ry, 3, my, ry - 3 * my);
    }
}

/// Draw a QR code of `grid.width` modules per side, 3 px per module,
/// centred in the 224 px screen with its top at y = 104, on a white square
/// with a 3 px margin. Returns the y just below that square.
pub fn draw_qr(fb: &mut Framebuffer, grid: &QrGrid) -> (bottom: u32)
    requires
        old(fb).inv(),
        1 <= grid.width <= 74,
        grid.dark@.len() == grid.width * grid.width,
    ensures
        final(fb).inv(),
        final(fb).width == old(fb).width,
        final(fb).height == old(fb).height,
        bottom == 104 + 3 * grid.width + 6,
        forall|p: int|
            0 <= p < final(fb).pixels.len() ==> #[trigger] final(fb).pixels@[p] == qr_pixel(
                old(fb).pixels@[p],
                p,
                old(fb).width,
                old(fb).height,
                grid.width as int,
                grid.dark@,
            ),
{
    let side = grid.width;
    let qr_width = side as u32;
    let qr_total: u32 = qr_width * QR_PIXEL_SIZE;
    let qr_x: u32 = (224 - qr_total) / 2;
    let ghost w = fb.width as int;
    let ghost h = fb.height;
    let ghost old_pixels = fb.pixels@;
    let ghost s = side as int;
    // White background behind the QR code.
    fb.fill_rect_opaque(qr_x as i32 - 3, QR_Y as i32 - 3, qr_total + 6, qr_total + 6, 255, 255, 255);
    let ghost after_bg = fb.pixels@;
    assert(side * side <= 74 * 74) by (nonlinear_arith)
        requires
            side <= 74,
    ;
    let n = side * side;
    let mut i: usize = 0;
    while i < n
        invariant
            fb.inv(),
            fb.width == w,
            fb.height == h,
            w == old(fb).width,
            h == old(fb).height,
            old_pixels == old(fb).pixels@,
            fb.pixels.len() == old_pixels.len(),
            s == side,
            1 <= side <= 74,
            n == side * side,
            qr_width == side,
            qr_x == qr_left(s),
            grid.dark@.len() == n,
            0 <= i <= n,
            forall|p: int|
                0 <= p < fb.pixels.len() ==> #[trigger] fb.pixels@[p] == if on_grid(p, w, s)
                    && module_at(p, w, s) < i {
                    qr_pixel(old_pixels[p], p, w as u32, h, s, grid.dark@)
                } else if covered(p, w as u32, backdrop(s, w as u32, h)) {
                    paint(p, 255, 255, 255)
                } else {
                    old_pixels[p]
                },
        decreases n - i,
    {
        let mx = i % side;
        let my = i / side;
        proof {
            vstd::arithmetic::div_mod::lemma_fundamental_div_mod(i as int, s);
            let (mxi, myi) = (mx as int, my as int);
            assert(myi < s) by (nonlinear_arith)
                requires
                    i == s * myi + mxi,
                    0 <= mxi,
                    0 <= myi,
                    i < s * s,
                    s > 0,
            ;
            assert(i == myi * s + mxi) by (nonlinear_arith)
                requires
                    i == s * myi + mxi,
            ;
        }
        let v: u8 = if grid.dark[i] {
            0
        } else {
            255
        };
        let ghost before = fb.pixels@;
        let x = (qr_x + mx as u32 * QR_PIXEL_SIZE) as i32;
        let y = (QR_Y + my as u32 * QR_PIXEL_SIZE) as i32;
        fb.fill_rect_opaque(x, y, QR_PIXEL_SIZE, QR_PIXEL_SIZE, v, v, v);
        proof {
            assert forall|p: int| 0 <= p < fb.pixels.len() implies #[trigger] fb.pixels@[p] == if on_grid(
                p,
                w,
                s,
            ) && module_at(p, w, s) < i + 1 {
                qr_pixel(old_pixels[p], p, w as u32, h, s, grid.dark@)
            } else if covered(p, w as u32, backdrop(s, w as u32, h)) {
                paint(p, 255, 255, 255)
            } else {
                old_pixels[p]
            } by {
                lemma_module_square(p, w, s, mx as int, my as int);
                assert(i == my * s + mx);
                let q = p / 4;
                assert(q < w * h) by {
                    vstd::arithmetic::div_mod::lemma_div_is_ordered(p, w * h * 4 - 1, 4);
                    vstd::arithmetic::div_mod::lemma_div_multiples_vanish_fancy(w * h, 3, 4);
                }
                assert(q / w < h) by {
                    vstd::arithmetic::div_mod::lemma_fundamental_div_mod(q, w);
                    let d = q / w;
                    let m = q % w;
                    let hh = h as int;
                    vstd::arithmetic::div_mod::lemma_mod_bound(q, w);
                    assert(d < hh) by (nonlinear_arith)
                        requires
                            q == w * d + m,
                            0 <= m,
                            q < w * hh,
                            w > 0,
                    ;
                }
                assert(q % w < w) by {
                    vstd::arithmetic::div_mod::lemma_mod_bound(q, w);
                }
            }
        }
        i += 1;
    }
    proof {
        assert forall|p: int| 0 <= p < fb.pixels.len() implies #[trigger] fb.pixels@[p] == qr_pixel(
            old_pixels[p],
            p,
            w as u32,
            h,
            s,
            grid.dark@,
        ) by {
            if on_grid(p, w, s) {
                let c = (p / 4) % w;
                let r = (p / 4) / w;
                let a = (c - qr_left(s)) / 3;
                let b = (r - 104) / 3;
                assert(0 <= a < s) by {
                    vstd::arithmetic::div_mod::lemma_div_is_ordered(c - qr_left(s), 3 * s - 1, 3);
                    vstd::arithmetic::div_mod::lemma_div_multiples_vanish_fancy(s - 1, 2, 3);
                }
                assert(0 <= b < s) by {
                    vstd::arithmetic::div_mod::lemma_div_is_ordered(r - 104, 3 * s - 1, 3);
                    vstd::arithmetic::div_mod::lemma_div_multiples_vanish_fancy(s - 1, 2, 3);
                }
                assert(module_at(p, w, s) < n) by {
                    assert(b * s + a < s * s) by (nonlinear_arith)
                        requires
                            0 <= a < s,
                            0 <= b < s,
                    ;
                }
            }
        }
    }
    QR_Y + qr_total + 6
}

/// Draw the QR code of [`SOURCE_URL`] for the credits screen. Returns the y
/// just below it, or `None` when the address cannot be encoded (the credits
/// screen then cannot be drawn).
pub fn render_credits_qr(fb: &mut Framebuffer) -> (bottom: Option<u32>)
    requires
        old(fb).inv(),
    ensures
        final(fb).inv(),
        final(fb).width == old(fb).width,
        final(fb).height == old(fb).height,
        match qr_symbol(SOURCE_URL.spec_bytes()) {
            Some((side, dark)) if side <= 74 => {
                &&& bottom == Some((104 + 3 * side + 6) as u32)
                &&& forall|p: int|
                    0 <= p < final(fb).pixels.len() ==> #[trigger] final(fb).pixels@[p] == qr_pixel(
                        old(fb).pixels@[p],
                        p,
                        old(fb).width,
                        old(fb).height,
                        side as int,
                        dark,
                    )
            },
            _ => bottom is None && *final(fb) == *old(fb),
        },
{
    let url = SOURCE_URL;
    let grid = encode_qr(url.as_bytes());
    match grid {
        Some(g) => {
            if g.width <= 74 {
                Some(draw_qr(fb, &g))
            } else {
                None
            }
        },
        None => None,
    }
}

} // verus!
