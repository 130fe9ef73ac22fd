//! Raster model: the pixel buffers the pipeline works on.
//!
//! A raster is a row-major pixel buffer together with its dimensions; the
//! well-formedness predicate ties the buffer length to the dimensions.  The
//! color raster keeps three bytes per pixel in blue-green-red order, as the
//! drawing routines take them.  Binary thresholding is implemented and proved
//! here: it is the one raster transform of the pipeline whose whole behaviour
//! is a one-line function of each pixel.

use vstd::prelude::*;

verus! {

/// A blue-green-red color triple.
#[derive(Clone, Copy, PartialEq, Eq, Structural, Debug)]
pub struct Bgr {
    pub blue: u8,
    pub green: u8,
    pub red: u8,
}

/// A single-channel 8-bit raster, row-major.
pub struct GrayImage {
    width: usize,
    height: usize,
    pixels: Vec<u8>,
}

/// A three-channel 8-bit raster, row-major, blue-green-red per pixel.
pub struct ColorImage {
    width: usize,
    height: usize,
    pixels: Vec<u8>,
}

/// What binary thresholding makes of one pixel: pixels strictly above the
/// threshold saturate to `maxval`, all others go to zero.
pub open spec fn spec_threshold_pixel(p: u8, thresh: u8, maxval: u8) -> u8 {
    if p > thresh {
        maxval
    } else {
        0
    }
}

/// A pixel buffer is uniform when all its entries agree.
pub open spec fn uniform(s: Seq<u8>) -> bool {
    forall|i: int, j: int| 0 <= i < s.len() && 0 <= j < s.len() ==> s[i] == s[j]
}

/// Thresholding a uniform buffer yields a uniform buffer: every pixel of a
/// blank raster falls on the same side of the threshold, so the thresholded
/// raster is blank as well.
pub proof fn lemma_threshold_preserves_uniformity(
    src: Seq<u8>,
    dst: Seq<u8>,
    thresh: u8,
    maxval: u8,
)
    requires
        uniform(src),
        dst.len() == src.len(),
        forall|i: int| 0 <= i < src.len() ==> dst[i] == spec_threshold_pixel(src[i], thresh, maxval),
    ensures
        uniform(dst),
{
    assert forall|i: int, j: int|
        0 <= i < dst.len() && 0 <= j < dst.len() implies dst[i] == dst[j] by {
        assert(src[i] == src[j]);
    }
}

impl GrayImage {
    /// Width in pixels.
    pub closed spec fn spec_width(self) -> int {
        self.width as int
    }

    /// Height in pixels.
    pub closed spec fn spec_height(self) -> int {
        self.height as int
    }

    /// The pixel buffer, row-major.
    pub closed spec fn pixel_seq(self) -> Seq<u8> {
        self.pixels@
    }

    /// The buffer holds exactly one byte per pixel.
    pub open spec fn wf(self) -> bool {
        self.pixel_seq().len() == self.spec_width() * self.spec_height()
    }

    /// A raster is empty when it has no pixels in one of its dimensions.
    pub open spec fn is_empty(self) -> bool {
        self.spec_width() == 0 || self.spec_height() == 0
    }

    /// Builds a raster from its dimensions and buffer; refuses a buffer whose
    /// length does not match the dimensions.
    pub fn new(width: usize, height: usize, pixels: Vec<u8>) -> (r: Option<GrayImage>)
        ensures
            match r {
                Some(img) => {
                    &&& img.wf()
                    &&& img.spec_width() == width
                    &&& img.spec_height() == height
                    &&& img.pixel_seq() == pixels@
                },
                None => pixels@.len() != width * height,
            },
    {
        let len: usize = pixels.len();
        match width.checked_mul(height) {
            Some(n) => {
                if n == len {
                    Some(GrayImage { width, height, pixels })
                } else {
                    None
                }
            },
            None => None,
        }
    }

    pub fn width(&self) -> (w: usize)
        ensures
            w == self.spec_width(),
    {
        self.width
    }

    pub fn height(&self) -> (h: usize)
        ensures
            h == self.spec_height(),
    {
        self.height
    }

    /// The raw pixel buffer, row-major.
    pub fn bytes(&self) -> (b: &Vec<u8>)
        ensures
            b@ == self.pixel_seq(),
    {
        &self.pixels
    }

    /// The pixel at column `x` of row `y`.
    pub fn pixel(&self, x: usize, y: usize) -> (p: u8)
        requires
            self.wf(),
            x < self.spec_width(),
            y < self.spec_height(),
        ensures
            p == self.pixel_seq()[y * self.spec_width() + x],
    {
        let len: usize = self.pixels.len();
        proof {
            assert(y * self.spec_width() + x < self.spec_width() * self.spec_height())
                by (nonlinear_arith)
                requires
                    x < self.spec_width(),
                    y < self.spec_height(),
                    0 <= self.spec_width(),
            ;
            assert(y * self.spec_width() + x < len);
        }
        self.pixels[y * self.width + x]
    }

    /// Binary thresholding with the exact per-pixel rule of
    /// [`spec_threshold_pixel`]: same dimensions, each output pixel is
    /// `maxval` where the input pixel exceeds `thresh` and zero elsewhere.
    pub fn threshold(&self, thresh: u8, maxval: u8) -> (r: GrayImage)
        ensures
            r.spec_width() == self.spec_width(),
            r.spec_height() == self.spec_height(),
            r.pixel_seq().len() == self.pixel_seq().len(),
            forall|i: int|
                0 <= i < self.pixel_seq().len() ==> r.pixel_seq()[i] == spec_threshold_pixel(
                    self.pixel_seq()[i],
                    thresh,
                    maxval,
                ),
            self.wf() ==> r.wf(),
    {
        let n: usize = self.pixels.len();
        let mut out: Vec<u8> = Vec::new();
        for idx in 0..n
            invariant
                n == self.pixel_seq().len(),
                out@.len() == idx,
                forall|i: int|
                    0 <= i < idx ==> out@[i] == spec_threshold_pixel(
                        self.pixel_seq()[i],
                        thresh,
                        maxval,
                    ),
        {
            let p: u8 = self.pixels[idx];
            let q: u8 = if p > thresh {
                maxval
            } else {
                0
            };
            out.push(q);
        }
        GrayImage { width: self.width, height: self.height, pixels: out }
    }
}

impl ColorImage {
    /// Width in pixels.
    pub closed spec fn spec_width(self) -> int {
        self.width as int
    }

    /// Height in pixels.
    pub closed spec fn spec_height(self) -> int {
        self.height as int
    }

    /// The pixel buffer, row-major, three bytes per pixel.
    pub closed spec fn pixel_seq(self) -> Seq<u8> {
        self.pixels@
    }

    /// The buffer holds exactly three bytes per pixel.
    pub open spec fn wf(self) -> bool {
        self.pixel_seq().len() == self.spec_width() * self.spec_height() * 3
    }

    /// A raster is empty when it has no pixels in one of its dimensions.
    /// Loading a missing or undecodable file yields an empty raster.
    pub open spec fn is_empty(self) -> bool {
        self.spec_width() == 0 || self.spec_height() == 0
    }

    /// Builds a raster from its dimensions and buffer; refuses a buffer whose
    /// length does not match the dimensions.
    pub fn new(width: usize, height: usize, pixels: Vec<u8>) -> (r: Option<ColorImage>)
        ensures
            match r {
                Some(img) => {
                    &&& img.wf()
                    &&& img.spec_width() == width
                    &&& img.spec_height() == height
                    &&& img.pixel_seq() == pixels@
                },
                None => pixels@.len() != width * height * 3,
            },
    {
        let len: usize = pixels.len();
        match width.checked_mul(height) {
            Some(n) => match n.checked_mul(3) {
                Some(m) => {
                    if m == len {
                        Some(ColorImage { width, height, pixels })
                    } else {
                        None
                    }
                },
                None => None,
            },
            None => None,
        }
    }

    pub fn width(&self) -> (w: usize)
        ensures
            w == self.spec_width(),
    {
        self.width
    }

    pub fn height(&self) -> (h: usize)
        ensures
            h == self.spec_height(),
    {
        self.height
    }

    /// Whether the raster is empty, as [`is_empty`](Self::is_empty) says.
    pub fn check_empty(&self) -> (e: bool)
        ensures
            e == self.is_empty(),
    {
        self.width == 0 || self.height == 0
    }

    /// The raw pixel buffer, row-major, three bytes per pixel.
    pub fn bytes(&self) -> (b: &Vec<u8>)
        ensures
            b@ == self.pixel_seq(),
    {
        &self.pixels
    }

    /// The color at column `x` of row `y`.
    pub fn pixel(&self, x: usize, y: usize) -> (c: Bgr)
        requires
            self.wf(),
            x < self.spec_width(),
            y < self.spec_height(),
        ensures
            c.blue == self.pixel_seq()[(y * self.spec_width() + x) * 3],
            c.green == self.pixel_seq()[(y * self.spec_width() + x) * 3 + 1],
            c.red == self.pixel_seq()[(y * self.spec_width() + x) * 3 + 2],
    {
        let len: usize = self.pixels.len();
        proof {
            assert((y * self.spec_width() + x) * 3 + 2 < self.spec_width() * self.spec_height()
                * 3) by (nonlinear_arith)
                requires
                    x < self.spec_width(),
                    y < self.spec_height(),
                    0 <= self.spec_width(),
            ;
            assert((y * self.spec_width() + x) * 3 + 2 < len);
        }
        let base: usize = (y * self.width + x) * 3;
        Bgr { blue: self.pixels[base], green: self.pixels[base + 1], red: self.pixels[base + 2] }
    }
}

} // verus!
