use vstd::prelude::*;

verus! {

/// `v` limited to `[0, hi]`.
pub open spec fn clamp_to(v: int, hi: int) -> int {
    if v < 0 {
        0
    } else if v > hi {
        hi
    } else {
        v
    }
}

/// The position of the red byte of pixel `(x, y)` in a row-major RGB buffer
/// that is `nx` pixels wide.
pub open spec fn texel_offset(nx: int, x: int, y: int) -> int {
    3 * (y * nx + x)
}

/// A bitmap texture: `nx` by `ny` pixels, three bytes (red, green, blue)
/// each, row by row from the top.
pub struct Image {
    pixels: Vec<u8>,
    nx: u32,
    ny: u32,
}

/// What an image holds: its width, height and bytes.
pub struct ImageView {
    pub nx: nat,
    pub ny: nat,
    pub pixels: Seq<u8>,
}

impl View for Image {
    type V = ImageView;

    closed spec fn view(&self) -> ImageView {
        ImageView { nx: self.nx as nat, ny: self.ny as nat, pixels: self.pixels@ }
    }
}

impl Image {
    /// Both sides are positive and the buffer holds exactly three bytes for
    /// each pixel.
    pub open spec fn wf(&self) -> bool {
        &&& self@.nx > 0
        &&& self@.ny > 0
        &&& self@.pixels.len() == 3 * self@.nx * self@.ny
    }

    /// The texture over an `nx` by `ny` RGB bitmap, or `None` when a side is
    /// zero or `pixels` does not hold three bytes per pixel.
    pub fn new(pixels: Vec<u8>, nx: u32, ny: u32) -> (r: Option<Image>)
        ensures
            r is Some <==> (nx > 0 && ny > 0 && pixels@.len() == 3 * nx * ny),
            r matches Some(im) ==> im.wf() && im@ == (ImageView {
                nx: nx as nat,
                ny: ny as nat,
                pixels: pixels@,
            }),
    {
        if nx == 0 || ny == 0 {
            return None;
        }
        let w = nx as u64;
        let h = ny as u64;
        proof {
            assert(w * h <= 0xffff_ffffu64 * 0xffff_ffffu64) by (nonlinear_arith)
                requires
                    w <= 0xffff_ffffu64,
                    h <= 0xffff_ffffu64,
            ;
        }
        let area = w * h;
        let len = pixels.len() as u64;
        proof {
            assert((len % 3 == 0 && len / 3 == area) <==> len == 3 * area) by (nonlinear_arith);
            assert(3 * area == 3 * nx * ny) by (nonlinear_arith)
                requires
                    area == w * h,
                    w == nx,
                    h == ny,
            ;
        }
        if len % 3 != 0 || len / 3 != area {
            return None;
        }
        Some(Image { pixels, nx, ny })
    }

    /// Width in pixels.
    pub fn width(&self) -> (r: u32)
        ensures
            r == self@.nx,
    {
        self.nx
    }

    /// Height in pixels.
    pub fn height(&self) -> (r: u32)
        ensures
            r == self@.ny,
    {
        self.ny
    }

    /// The colour bytes of pixel `(x, y)`, each coordinate first clamped to
    /// the bitmap's bounds.
    pub fn texel(&self, x: i64, y: i64) -> (r: (u8, u8, u8))
        requires
            self.wf(),
        ensures
            ({
                let o = texel_offset(
                    self@.nx as int,
                    clamp_to(x as int, self@.nx - 1),
                    clamp_to(y as int, self@.ny - 1),
                );
                r == (self@.pixels[o], self@.pixels[o + 1], self@.pixels[o + 2])
            }),
    {
        let cx: u32 = if x < 0 {
            0
        } else if x > (self.nx - 1) as i64 {
            self.nx - 1
        } else {
            x as u32
        };
        let cy: u32 = if y < 0 {
            0
        } else if y > (self.ny - 1) as i64 {
            self.ny - 1
        } else {
            y as u32
        };
        let w = self.nx as usize;
        let h = self.ny as usize;
        let px = cx as usize;
        let py = cy as usize;
        let len = self.pixels.len();
        proof {
            assert(py * w + px < w * h) by (nonlinear_arith)
                requires
                    px < w,
                    py < h,
            ;
            assert(3 * (py * w + px) + 2 < 3 * (w * h)) by (nonlinear_arith)
                requires
                    py * w + px < w * h,
            ;
            assert(self.pixels@.len() == 3 * (w * h)) by (nonlinear_arith)
                requires
                    self.pixels@.len() == 3 * w * h,
            ;
            assert(3 * (py * w + px) + 2 < len);
            assert(py * w <= py * w + px);
        }
        let o = 3 * (py * w + px);
        (self.pixels[o], self.pixels[o + 1], self.pixels[o + 2])
    }
}

} // verus!
