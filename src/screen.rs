use vstd::prelude::*;

verus! {

/// Largest texture side in pixels.
pub const MAX_TEXTURE: usize = 1024;

/// A set of equally sized textures, row-major, `bytes_per_pixel` bytes each
/// (3 for RGB, 4 for RGBA).
pub struct Atlas {
    pub textures: Vec<Vec<u8>>,
    pub width: usize,
    pub height: usize,
    pub bytes_per_pixel: usize,
}

impl Atlas {
    pub open spec fn wf(&self) -> bool {
        &&& 1 <= self.width <= MAX_TEXTURE
        &&& 1 <= self.height <= MAX_TEXTURE
        &&& (self.bytes_per_pixel == 3 || self.bytes_per_pixel == 4)
        &&& forall|i: int| 0 <= i < self.textures@.len()
            ==> (#[trigger] self.textures@[i])@.len() >= self.width * self.height * self.bytes_per_pixel
    }

    pub open spec fn texel(&self, t: int, i: int) -> u32 {
        texel_at(self.textures@[t]@, i, self.bytes_per_pixel as int)
    }

    pub open spec fn alpha(&self, t: int, i: int) -> u8 {
        self.textures@[t]@[i * self.bytes_per_pixel + 3]
    }

    /// Whether the atlas is valid (`wf`), for textures that come from outside.
    pub fn check(&self) -> (r: bool)
        ensures
            r == self.wf(),
    {
        if !(1 <= self.width && self.width <= MAX_TEXTURE && 1 <= self.height && self.height <= MAX_TEXTURE) {
            return false;
        }
        if !(self.bytes_per_pixel == 3 || self.bytes_per_pixel == 4) {
            return false;
        }
        assert(self.width * self.height * self.bytes_per_pixel <= 1024 * 1024 * 4) by (nonlinear_arith)
            requires
                self.width <= 1024,
                self.height <= 1024,
                self.bytes_per_pixel <= 4;
        let need = self.width * self.height * self.bytes_per_pixel;
        let mut i: usize = 0;
        while i < self.textures.len()
            invariant
                need == self.width * self.height * self.bytes_per_pixel,
                i <= self.textures@.len(),
                forall|k: int| 0 <= k < i ==> (#[trigger] self.textures@[k])@.len() >= need,
            decreases self.textures@.len() - i,
        {
            if self.textures[i].len() < need {
                return false;
            }
            i += 1;
        }
        true
    }

    /// The packed colour of texel `i` of texture `t`.
    pub fn read_texel(&self, t: usize, i: usize) -> (r: u32)
        requires
            self.wf(),
            t < self.textures@.len(),
            i < self.width * self.height,
        ensures
            r == self.texel(t as int, i as int),
    {
        let tex = &self.textures[t];
        proof {
            assert(i * self.bytes_per_pixel + 3 <= self.width * self.height * self.bytes_per_pixel)
                by (nonlinear_arith)
                requires
                    i < self.width * self.height,
                    self.bytes_per_pixel >= 3;
            assert(self.width * self.height * self.bytes_per_pixel <= 1024 * 1024 * 4)
                by (nonlinear_arith)
                requires
                    self.width <= 1024,
                    self.height <= 1024,
                    self.bytes_per_pixel <= 4;
        }
        let base = i * self.bytes_per_pixel;
        rgb(tex[base], tex[base + 1], tex[base + 2])
    }

    /// The alpha byte of texel `i` of texture `t` (an RGBA atlas).
    pub fn read_alpha(&self, t: usize, i: usize) -> (r: u8)
        requires
            self.wf(),
            self.bytes_per_pixel == 4,
            t < self.textures@.len(),
            i < self.width * self.height,
        ensures
            r == self.alpha(t as int, i as int),
    {
        proof {
            assert(i * 4 + 4 <= self.width * self.height * 4) by (nonlinear_arith)
                requires
                    i < self.width * self.height;
            assert(self.width * self.height * 4 <= 1024 * 1024 * 4) by (nonlinear_arith)
                requires
                    self.width <= 1024,
                    self.height <= 1024;
        }
        self.textures[t][i * self.bytes_per_pixel + 3]
    }
}

/// Red, green and blue packed as `r | g << 8 | b << 16`.
pub open spec fn pack(r: u8, g: u8, b: u8) -> u32 {
    (r + 256 * g + 65536 * b) as u32
}

pub open spec fn texel_at(tex: Seq<u8>, i: int, bpp: int) -> u32 {
    pack(tex[i * bpp], tex[i * bpp + 1], tex[i * bpp + 2])
}

pub fn rgb(r: u8, g: u8, b: u8) -> (c: u32)
    ensures
        c == pack(r, g, b),
        c < 0x1000000,
{
    r as u32 + 256 * (g as u32) + 65536 * (b as u32)
}

/// Index of pixel `(x, y)` in a row-major buffer `w` pixels wide.
pub open spec fn pixel(w: int, x: int, y: int) -> int {
    y * w + x
}

pub proof fn lemma_pixel_in(w: int, h: int, x: int, y: int)
    requires
        0 <= x < w,
        0 <= y < h,
    ensures
        0 <= pixel(w, x, y) < w * h,
{
    assert(0 <= y * w + x < w * h) by (nonlinear_arith)
        requires
            0 <= x < w,
            0 <= y < h;
}

pub proof fn lemma_pixel_distinct(w: int, x1: int, y1: int, x2: int, y2: int)
    requires
        0 <= x1 < w,
        0 <= x2 < w,
        x1 != x2 || y1 != y2,
    ensures
        pixel(w, x1, y1) != pixel(w, x2, y2),
{
    if y1 == y2 {
    } else if y1 < y2 {
        assert(y1 * w + w <= y2 * w) by (nonlinear_arith)
            requires
                y1 < y2,
                w > 0;
    } else {
        assert(y2 * w + w <= y1 * w) by (nonlinear_arith)
            requires
                y2 < y1,
                w > 0;
    }
}

/// Draws an overlay (a text line, say) into the top left corner: each
/// covered pixel keeps its bits and gains the overlay's.
pub fn overlay(color: &mut Vec<u32>, w: usize, h: usize, over: &Vec<u32>, ow: usize, oh: usize)
    requires
        old(color)@.len() == w * h,
        over@.len() == ow * oh,
        ow <= w,
        oh <= h,
    ensures
        final(color)@.len() == w * h,
        forall|x: int, y: int|
            0 <= x < w && 0 <= y < h ==> #[trigger] final(color)@[pixel(w as int, x, y)] == if x < ow && y < oh {
                old(color)@[pixel(w as int, x, y)] | over@[pixel(ow as int, x, y)]
            } else {
                old(color)@[pixel(w as int, x, y)]
            },
{
    let ghost c0 = color@;
    let n = color.len();
    let m = over.len();
    let mut y: usize = 0;
    while y < oh
        invariant
            n == w * h,
            m == ow * oh,
            color@.len() == w * h,
            over@.len() == ow * oh,
            ow <= w,
            oh <= h,
            y <= oh,
            forall|cx: int, cy: int|
                0 <= cx < w && 0 <= cy < h ==> #[trigger] color@[pixel(w as int, cx, cy)] == if cx < ow && cy < y {
                    c0[pixel(w as int, cx, cy)] | over@[pixel(ow as int, cx, cy)]
                } else {
                    c0[pixel(w as int, cx, cy)]
                },
        decreases oh - y,
    {
        let mut x: usize = 0;
        while x < ow
            invariant
                n == w * h,
                m == ow * oh,
                color@.len() == w * h,
                over@.len() == ow * oh,
                ow <= w,
                oh <= h,
                y < oh,
                x <= ow,
                forall|cx: int, cy: int|
                    0 <= cx < w && 0 <= cy < h ==> #[trigger] color@[pixel(w as int, cx, cy)] == if cx < ow && (cy < y || (
                    cy == y && cx < x)) {
                        c0[pixel(w as int, cx, cy)] | over@[pixel(ow as int, cx, cy)]
                    } else {
                        c0[pixel(w as int, cx, cy)]
                    },
            decreases ow - x,
        {
            proof {
                lemma_pixel_in(w as int, h as int, x as int, y as int);
                lemma_pixel_in(ow as int, oh as int, x as int, y as int);
            }
            let i = y * w + x;
            let v = color[i] | over[y * ow + x];
            let ghost prev = color@;
            color.set(i, v);
            proof {
                assert forall|cx: int, cy: int| 0 <= cx < w && 0 <= cy < h implies #[trigger] color@[pixel(w as int, cx, cy)]
                    == if cx < ow && (cy < y || (cy == y && cx < x + 1)) {
                        c0[pixel(w as int, cx, cy)] | over@[pixel(ow as int, cx, cy)]
                    } else {
                        c0[pixel(w as int, cx, cy)]
                    } by {
                    lemma_pixel_in(w as int, h as int, cx, cy);
                    if cx != x || cy != y {
                        lemma_pixel_distinct(w as int, cx, cy, x as int, y as int);
                        assert(color@[pixel(w as int, cx, cy)] == prev[pixel(w as int, cx, cy)]);
                    }
                }
            }
            x += 1;
        }
        y += 1;
    }
}

} // verus!
