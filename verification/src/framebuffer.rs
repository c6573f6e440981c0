//! Software RGBA framebuffer for headless rendering.
use vstd::prelude::*;

verus! {

/// Software RGBA framebuffer for headless rendering: `width * height`
/// pixels, row-major, four bytes (r, g, b, a) each.
#[derive(Clone, Debug)]
pub struct Framebuffer {
    pub pixels: Vec<u8>,
    pub width: u32,
    pub height: u32,
}

/// `w` read as an `i32`, as the two's complement cast does.
pub open spec fn wrap_i32(w: u32) -> int {
    if w <= i32::MAX {
        w as int
    } else {
        w - 0x1_0000_0000
    }
}

pub open spec fn max0(a: int) -> int {
    if a < 0 {
        0
    } else {
        a
    }
}

pub open spec fn min_int(a: int, b: int) -> int {
    if a < b {
        a
    } else {
        b
    }
}

/// The pixel columns `[x0, x1)` and rows `[y0, y1)` that a rectangle at
/// `(x, y)` of size `w` by `h` covers on a `width` by `height` surface, or
/// `None` when it lies wholly left of or above the surface.
pub open spec fn rect_clip(x: i32, y: i32, w: u32, h: u32, width: u32, height: u32) -> Option<
    (int, int, int, int),
> {
    let x_end = x + wrap_i32(w);
    let y_end = y + wrap_i32(h);
    if x_end <= 0 || y_end <= 0 {
        None
    } else {
        Some((max0(x as int), max0(y as int), min_int(x_end, width as int), min_int(y_end, height as int)))
    }
}

/// The rectangle's corners stay in the `i32` range (outside it the
/// computation of its far corner overflows).
pub open spec fn rect_in_range(x: i32, y: i32, w: u32, h: u32) -> bool {
    &&& i32::MIN <= x + wrap_i32(w) <= i32::MAX
    &&& i32::MIN <= y + wrap_i32(h) <= i32::MAX
}

/// Byte `p` of a `width`-wide surface belongs to a pixel in columns
/// `[x0, x1)` and rows `[y0, y1)`.
pub open spec fn in_rect(p: int, width: int, x0: int, y0: int, x1: int, y1: int) -> bool {
    let q = p / 4;
    &&& x0 <= q % width < x1
    &&& y0 <= q / width < y1
}

/// Byte `p` is covered by the clipped rectangle.
pub open spec fn covered(p: int, width: u32, clip: Option<(int, int, int, int)>) -> bool {
    match clip {
        None => false,
        Some((x0, y0, x1, y1)) => in_rect(p, width as int, x0, y0, x1, y1),
    }
}

/// A pixel channel after blending black over it at 60% opacity, as the
/// single-precision blend of the game computes it (the result is truncated,
/// and the opacity left over is slightly under 0.4).
pub open spec fn dim_channel(c: u8) -> u8 {
    if c == 0 {
        0
    } else {
        ((2 * c - 1) / 5) as u8
    }
}

/// The byte at `p` of a surface painted with `r, g, b` and an opaque alpha.
pub open spec fn paint(p: int, r: u8, g: u8, b: u8) -> u8 {
    if p % 4 == 0 {
        r
    } else if p % 4 == 1 {
        g
    } else if p % 4 == 2 {
        b
    } else {
        255
    }
}

/// Facts on the byte offset of a pixel of a `width`-wide surface.
pub proof fn lemma_pixel_offset(px: int, py: int, width: int, c: int)
    requires
        0 <= px < width,
        0 <= py,
        0 <= c < 4,
    ensures
        ((py * width + px) * 4 + c) / 4 == py * width + px,
        ((py * width + px) * 4 + c) % 4 == c,
        (py * width + px) % width == px,
        (py * width + px) / width == py,
{
    vstd::arithmetic::div_mod::lemma_fundamental_div_mod_converse(
        (py * width + px) * 4 + c,
        4,
        py * width + px,
        c,
    );
    vstd::arithmetic::div_mod::lemma_fundamental_div_mod_converse(
        py * width + px,
        width,
        py,
        px,
    );
}

impl Framebuffer {
    /// The layout holds: four bytes per pixel, and the byte count fits in `u32`.
    pub open spec fn inv(&self) -> bool {
        &&& self.pixels.len() == self.width * self.height * 4
        &&& self.width * self.height * 4 <= u32::MAX
    }

    /// A transparent black framebuffer of `width` by `height` pixels.
    pub fn new(width: u32, height: u32) -> (fb: Self)
        requires
            width * height * 4 <= u32::MAX,
        ensures
            fb.inv(),
            fb.width == width,
            fb.height == height,
            forall|p: int| 0 <= p < fb.pixels.len() ==> fb.pixels@[p] == 0,
    {
        proof {
            vstd::arithmetic::mul::lemma_mul_nonnegative(width as int, height as int);
        }
        let n = (width * height * 4) as usize;
        let pixels = vec![0u8; n];
        Self { pixels, width, height }
    }

    /// Set every whole pixel to `(r, g, b, a)`; bytes past the last whole
    /// pixel are left alone.
    pub fn clear(&mut self, r: u8, g: u8, b: u8, a: u8)
        ensures
            final(self).width == old(self).width,
            final(self).height == old(self).height,
            final(self).pixels.len() == old(self).pixels.len(),
            forall|p: int|
                0 <= p < final(self).pixels.len() ==> #[trigger] final(self).pixels@[p] == if p
                    < old(self).pixels.len() / 4 * 4 {
                    if p % 4 == 0 {
                        r
                    } else if p % 4 == 1 {
                        g
                    } else if p % 4 == 2 {
                        b
                    } else {
                        a
                    }
                } else {
                    old(self).pixels@[p]
                },
    {
        let n = self.pixels.len() / 4;
        let ghost old_pixels = self.pixels@;
        let mut i: usize = 0;
        while i < n
            invariant
                n == old_pixels.len() / 4,
                0 <= i <= n,
                self.width == old(self).width,
                self.height == old(self).height,
                old_pixels == old(self).pixels@,
                self.pixels.len() == old_pixels.len(),
                forall|p: int|
                    0 <= p < self.pixels.len() ==> #[trigger] self.pixels@[p] == if p < i * 4 {
                        if p % 4 == 0 {
                            r
                        } else if p % 4 == 1 {
                            g
                        } else if p % 4 == 2 {
                            b
                        } else {
                            a
                        }
                    } else {
                        old_pixels[p]
                    },
            decreases n - i,
        {
            let base = i * 4;
            self.pixels.set(base, r);
            self.pixels.set(base + 1, g);
            self.pixels.set(base + 2, b);
            self.pixels.set(base + 3, a);
            i += 1;
        }
    }

    /// The columns and rows `[x0, x1) x [y0, y1)` that a rectangle covers on
    /// this framebuffer, or `None` when it lies wholly left of or above it.
    pub fn clip_rect(&self, x: i32, y: i32, w: u32, h: u32) -> (c: Option<(u32, u32, u32, u32)>)
        requires
            rect_in_range(x, y, w, h),
        ensures
            match c {
                None => rect_clip(x, y, w, h, self.width, self.height) is None,
                Some((x0, y0, x1, y1)) => rect_clip(x, y, w, h, self.width, self.height) == Some(
                    (x0 as int, y0 as int, x1 as int, y1 as int),
                ),
            },
    {
        let wi: i64 = if w <= 0x7fff_ffff {
            w as i64
        } else {
            w as i64 - 0x1_0000_0000
        };
        let hi: i64 = if h <= 0x7fff_ffff {
            h as i64
        } else {
            h as i64 - 0x1_0000_0000
        };
        let x_end: i64 = x as i64 + wi;
        let y_end: i64 = y as i64 + hi;
        if x_end <= 0 || y_end <= 0 {
            return None;
        }
        let x0: u32 = if x < 0 {
            0
        } else {
            x as u32
        };
        let y0: u32 = if y < 0 {
            0
        } else {
            y as u32
        };
        let xe = x_end as u32;
        let ye = y_end as u32;
        let x1 = if xe < self.width {
            xe
        } else {
            self.width
        };
        let y1 = if ye < self.height {
            ye
        } else {
            self.height
        };
        Some((x0, y0, x1, y1))
    }

    /// Fill a rectangle with an opaque color (alpha 255), clipped to the
    /// framebuffer; every byte outside it is left alone.
    pub fn fill_rect_opaque(&mut self, x: i32, y: i32, w: u32, h: u32, r: u8, g: u8, b: u8)
        requires
            old(self).inv(),
            rect_in_range(x, y, w, h),
        ensures
            final(self).inv(),
            final(self).width == old(self).width,
            final(self).height == old(self).height,
            forall|p: int|
                0 <= p < final(self).pixels.len() ==> #[trigger] final(self).pixels@[p] == if covered(
                    p,
                    old(self).width,
                    rect_clip(x, y, w, h, old(self).width, old(self).height),
                ) {
                    paint(p, r, g, b)
                } else {
                    old(self).pixels@[p]
                },
    {
        let clip = self.clip_rect(x, y, w, h);
        match clip {
            None => {},
            Some((x0, y0, x1, y1)) => {
                self.paint_region(x0, y0, x1, y1, r, g, b, false);
            },
        }
    }

    /// Blend black at 60% opacity over a rectangle, clipped to the
    /// framebuffer, and make it opaque; every byte outside it is left alone.
    pub fn dim_rect(&mut self, x: i32, y: i32, w: u32, h: u32)
        requires
            old(self).inv(),
            rect_in_range(x, y, w, h),
        ensures
            final(self).inv(),
            final(self).width == old(self).width,
            final(self).height == old(self).height,
            forall|p: int|
                0 <= p < final(self).pixels.len() ==> #[trigger] final(self).pixels@[p] == if covered(
                    p,
                    old(self).width,
                    rect_clip(x, y, w, h, old(self).width, old(self).height),
                ) {
                    if p % 4 == 3 {
                        255u8
                    } else {
                        dim_channel(old(self).pixels@[p])
                    }
                } else {
                    old(self).pixels@[p]
                },
    {
        let clip = self.clip_rect(x, y, w, h);
        match clip {
            None => {},
            Some((x0, y0, x1, y1)) => {
                self.paint_region(x0, y0, x1, y1, 0, 0, 0, true);
            },
        }
    }

    /// The byte a region operation leaves at `p`: the painted color, or the
    /// dimmed old value.
    pub open spec fn region_value(old_byte: u8, p: int, r: u8, g: u8, b: u8, dim: bool) -> u8 {
        if dim {
            if p % 4 == 3 {
                255u8
            } else {
                dim_channel(old_byte)
            }
        } else {
            paint(p, r, g, b)
        }
    }

    /// Paint (or dim, when `dim`) the pixels in columns `[x0, x1)` and rows
    /// `[y0, y1)`, where `x1` and `y1` are within the framebuffer.
    fn paint_region(&mut self, x0: u32, y0: u32, x1: u32, y1: u32, r: u8, g: u8, b: u8, dim: bool)
        requires
            old(self).inv(),
            x1 <= old(self).width,
            y1 <= old(self).height,
        ensures
            final(self).inv(),
            final(self).width == old(self).width,
            final(self).height == old(self).height,
            forall|p: int|
                0 <= p < final(self).pixels.len() ==> #[trigger] final(self).pixels@[p] == if in_rect(
                    p,
                    old(self).width as int,
                    x0 as int,
                    y0 as int,
                    x1 as int,
                    y1 as int,
                ) {
                    Self::region_value(old(self).pixels@[p], p, r, g, b, dim)
                } else {
                    old(self).pixels@[p]
                },
    {
        let ghost old_pixels = self.pixels@;
        let width = self.width;
        let ghost wi = width as int;
        let mut py: u32 = y0;
        if x0 >= x1 || y0 >= y1 {
            assert forall|p: int| 0 <= p < self.pixels.len() implies !in_rect(
                p,
                wi,
                x0 as int,
                y0 as int,
                x1 as int,
                y1 as int,
            ) by {}
            return ;
        }
        while py < y1
            invariant
                self.inv(),
                self.width == width,
                self.height == old(self).height,
                old_pixels == old(self).pixels@,
                self.pixels.len() == old_pixels.len(),
                wi == width as int,
                x0 < x1 <= width,
                y0 <= py <= y1 <= self.height,
                forall|p: int|
                    0 <= p < self.pixels.len() ==> #[trigger] self.pixels@[p] == if in_rect(
                        p,
                        wi,
                        x0 as int,
                        y0 as int,
                        x1 as int,
                        py as int,
                    ) {
                        Self::region_value(old_pixels[p], p, r, g, b, dim)
                    } else {
                        old_pixels[p]
                    },
            decreases y1 - py,
        {
            let mut px: u32 = x0;
            while px < x1
                invariant
                    self.inv(),
                    self.width == width,
                    self.height == old(self).height,
                    self.pixels.len() == old_pixels.len(),
                    wi == width as int,
                    x0 <= px <= x1 <= width,
                    y0 <= py < y1 <= self.height,
                    forall|p: int|
                        0 <= p < self.pixels.len() ==> #[trigger] self.pixels@[p] == if in_rect(
                            p,
                            wi,
                            x0 as int,
                            y0 as int,
                            x1 as int,
                            py as int,
                        ) || in_rect(p, wi, x0 as int, py as int, px as int, py + 1) {
                            Self::region_value(old_pixels[p], p, r, g, b, dim)
                        } else {
                            old_pixels[p]
                        },
                decreases x1 - px,
            {
                proof {
                    vstd::arithmetic::mul::lemma_mul_inequality(
                        py as int + 1,
                        self.height as int,
                        wi,
                    );
                    vstd::arithmetic::mul::lemma_mul_is_distributive_add_other_way(
                        wi,
                        py as int,
                        1,
                    );
                    vstd::arithmetic::mul::lemma_mul_is_commutative(wi, self.height as int);
                    assert(py * wi + px < wi * self.height);
                }
                let q: u32 = py * width + px;
                let idx: usize = (q * 4) as usize;
                proof {
                    lemma_pixel_offset(px as int, py as int, wi, 0);
                }
                let ghost before = self.pixels@;
                if dim {
                    let c0 = self.pixels[idx];
                    let c1 = self.pixels[idx + 1];
                    let c2 = self.pixels[idx + 2];
                    self.pixels.set(idx, dim_byte(c0));
                    self.pixels.set(idx + 1, dim_byte(c1));
                    self.pixels.set(idx + 2, dim_byte(c2));
                } else {
                    self.pixels.set(idx, r);
                    self.pixels.set(idx + 1, g);
                    self.pixels.set(idx + 2, b);
                }
                self.pixels.set(idx + 3, 255);
                proof {
                    assert forall|p: int| 0 <= p < self.pixels.len() implies #[trigger] self.pixels@[p]
                        == if in_rect(p, wi, x0 as int, y0 as int, x1 as int, py as int) || in_rect(
                        p,
                        wi,
                        x0 as int,
                        py as int,
                        px + 1,
                        py + 1,
                    ) {
                        Self::region_value(old_pixels[p], p, r, g, b, dim)
                    } else {
                        old_pixels[p]
                    } by {
                        if idx <= p < idx + 4 {
                            lemma_pixel_offset(px as int, py as int, wi, p - idx);
                        } else {
                            assert(self.pixels@[p] == before[p]);
                            let qq = p / 4;
                            vstd::arithmetic::div_mod::lemma_fundamental_div_mod(qq, wi);
                            vstd::arithmetic::div_mod::lemma_fundamental_div_mod(p, 4);
                            if qq % wi == px && qq / wi == py {
                                vstd::arithmetic::mul::lemma_mul_is_commutative(wi, py as int);
                                assert(qq == q);
                                assert(false);
                            }
                        }
                    }
                }
                px += 1;
            }
            proof {
                assert forall|p: int| 0 <= p < self.pixels.len() implies #[trigger] self.pixels@[p]
                    == if in_rect(p, wi, x0 as int, y0 as int, x1 as int, py + 1) {
                    Self::region_value(old_pixels[p], p, r, g, b, dim)
                } else {
                    old_pixels[p]
                } by {}
            }
            py += 1;
        }
    }

    /// Copy every pixel of `layer` whose alpha is not zero onto this
    /// framebuffer, as an opaque pixel; pixels are paired in order, up to the
    /// whole pixels of the shorter of the two.
    pub fn composite(&mut self, layer: &[u8])
        ensures
            final(self).width == old(self).width,
            final(self).height == old(self).height,
            final(self).pixels.len() == old(self).pixels.len(),
            forall|p: int|
                0 <= p < final(self).pixels.len() ==> #[trigger] final(self).pixels@[p] == if p / 4
                    < old(self).pixels.len() / 4 && p / 4 < layer.len() / 4 && layer@[(p / 4) * 4
                    + 3] != 0 {
                    if p % 4 == 3 {
                        255u8
                    } else {
                        layer@[p]
                    }
                } else {
                    old(self).pixels@[p]
                },
    {
        let n_dst = self.pixels.len() / 4;
        let n_src = layer.len() / 4;
        let n = if n_dst < n_src {
            n_dst
        } else {
            n_src
        };
        let ghost old_pixels = self.pixels@;
        let mut i: usize = 0;
        while i < n
            invariant
                n <= old_pixels.len() / 4,
                n <= layer.len() / 4,
                n as int == min_int(old_pixels.len() as int / 4, layer.len() as int / 4),
                0 <= i <= n,
                self.width == old(self).width,
                self.height == old(self).height,
                old_pixels == old(self).pixels@,
                self.pixels.len() == old_pixels.len(),
                forall|p: int|
                    0 <= p < self.pixels.len() ==> #[trigger] self.pixels@[p] == if p / 4 < i
                        && layer@[(p / 4) * 4 + 3] != 0 {
                        if p % 4 == 3 {
                            255u8
                        } else {
                            layer@[p]
                        }
                    } else {
                        old_pixels[p]
                    },
            decreases n - i,
        {
            let base = i * 4;
            if layer[base + 3] != 0 {
                self.pixels.set(base, layer[base]);
                self.pixels.set(base + 1, layer[base + 1]);
                self.pixels.set(base + 2, layer[base + 2]);
                self.pixels.set(base + 3, 255);
            }
            i += 1;
        }
    }
}

/// A channel blended under black at 60% opacity.
pub fn dim_byte(c: u8) -> (d: u8)
    ensures
        d == dim_channel(c),
{
    if c == 0 {
        0
    } else {
        ((2 * (c as u32) - 1) / 5) as u8
    }
}

} // verus!
