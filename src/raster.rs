use vstd::prelude::*;

verus! {

/// One RGBA8 pixel.
#[derive(Clone, Copy, Debug, PartialEq, Eq, Structural)]
pub struct Rgba {
    pub r: u8,
    pub g: u8,
    pub b: u8,
    pub a: u8,
}

/// The fully transparent black pixel.
pub open spec fn transparent() -> Rgba {
    Rgba { r: 0, g: 0, b: 0, a: 0 }
}

/// One colour channel of `src` laid over `dst` with opacity `a`:
/// `floor(dst * (1 - a/255)) + floor(src * a/255)`, each term truncated.
pub open spec fn blend_channel_spec(dst: u8, src: u8, a: u8) -> int {
    (dst as int * (255 - a as int)) / 255 + (src as int * a as int) / 255
}

/// `src` laid over `dst` by its own alpha; the result is always opaque.
pub open spec fn blend_spec(dst: Rgba, src: Rgba) -> Rgba {
    Rgba {
        r: blend_channel_spec(dst.r, src.r, src.a) as u8,
        g: blend_channel_spec(dst.g, src.g, src.a) as u8,
        b: blend_channel_spec(dst.b, src.b, src.a) as u8,
        a: 255,
    }
}

proof fn lemma_blend_channel_bounded(dst: u8, src: u8, a: u8)
    ensures
        0 <= blend_channel_spec(dst, src, a) <= 255,
{
    let d = dst as int;
    let s = src as int;
    let k = a as int;
    assert(0 <= (d * (255 - k)) / 255 <= 255 - k) by (nonlinear_arith)
        requires 0 <= d <= 255, 0 <= k <= 255;
    assert(0 <= (s * k) / 255 <= k) by (nonlinear_arith)
        requires 0 <= s <= 255, 0 <= k <= 255;
}

/// One channel of the blend, computed without rounding the sum.
pub fn blend_channel(dst: u8, src: u8, a: u8) -> (r: u8)
    ensures
        r as int == blend_channel_spec(dst, src, a),
{
    proof {
        lemma_blend_channel_bounded(dst, src, a);
    }
    let back: u32 = (dst as u32) * (255 - a as u32) / 255;
    let front: u32 = (src as u32) * (a as u32) / 255;
    (back + front) as u8
}

/// Lays `src` over `dst` using the alpha of `src`; the output is opaque.
pub fn blend(dst: Rgba, src: Rgba) -> (r: Rgba)
    ensures
        r == blend_spec(dst, src),
{
    Rgba {
        r: blend_channel(dst.r, src.r, src.a),
        g: blend_channel(dst.g, src.g, src.a),
        b: blend_channel(dst.b, src.b, src.a),
        a: 255,
    }
}

/// A decoded RGBA8 image: `width * height` pixels, row-major, four bytes each.
pub struct Image {
    pub width: u16,
    pub height: u16,
    pub data: Vec<u8>,
}

impl Image {
    pub open spec fn wf(&self) -> bool {
        self.data@.len() == self.width as int * self.height as int * 4
    }

    /// The pixel at `(x, y)`; outside the image it reads as transparent.
    pub open spec fn pixel_spec(&self, x: int, y: int) -> Rgba {
        if 0 <= x < self.width && 0 <= y < self.height {
            let i = (y * self.width + x) * 4;
            Rgba {
                r: self.data@[i],
                g: self.data@[i + 1],
                b: self.data@[i + 2],
                a: self.data@[i + 3],
            }
        } else {
            transparent()
        }
    }

    /// Wraps raw RGBA8 bytes; `None` when their count is not `width * height * 4`.
    pub fn from_rgba(width: u16, height: u16, data: Vec<u8>) -> (r: Option<Image>)
        ensures
            r.is_some() <==> data@.len() == width as int * height as int * 4,
            r matches Some(img) ==> img.wf() && img.width == width && img.height == height
                && img.data@ == data@,
    {
        proof {
            assert(width as int * height as int * 4 <= 65535 * 65535 * 4) by (nonlinear_arith)
                requires width <= 65535, height <= 65535;
        }
        let expected: u64 = (width as u64) * (height as u64) * 4;
        if data.len() as u64 == expected {
            Some(Image { width, height, data })
        } else {
            None
        }
    }

    /// The pixel at `(x, y)`, or transparent black outside the image.
    pub fn get_pixel(&self, x: u32, y: u32) -> (r: Rgba)
        requires
            self.wf(),
        ensures
            r == self.pixel_spec(x as int, y as int),
    {
        if x < self.width as u32 && y < self.height as u32 {
            let w = self.width as u64;
            let h = self.height as u64;
            let xi = x as u64;
            let yi = y as u64;
            proof {
                assert((yi * w + xi) * 4 + 3 < w * h * 4) by (nonlinear_arith)
                    requires xi < w, yi < h;
                assert(w * h * 4 <= 65535 * 65535 * 4) by (nonlinear_arith)
                    requires w <= 65535, h <= 65535;
            }
            let n = self.data.len();
            assert(n == w * h * 4);
            let i = ((yi * w + xi) * 4) as usize;
            assert(i + 3 < n);
            Rgba { r: self.data[i], g: self.data[i + 1], b: self.data[i + 2], a: self.data[i + 3] }
        } else {
            Rgba { r: 0, g: 0, b: 0, a: 0 }
        }
    }
}

} // verus!
