//! Decoded frames as the library sees them: plain RGBA samples.

use vstd::prelude::*;
use vstd::arithmetic::div_mod::lemma_div_by_multiple;

verus! {

/// One decoded picture element: four 8-bit channels.
#[derive(Clone, Copy, PartialEq, Eq, Structural, Debug)]
pub struct Pixel {
    /// Red channel.
    pub r: u8,
    /// Green channel.
    pub g: u8,
    /// Blue channel.
    pub b: u8,
    /// Alpha channel; zero means fully transparent.
    pub a: u8,
}

/// The pixel that row-major RGBA samples describe at linear index `i`.
pub open spec fn rgba_pixel(raw: Seq<u8>, i: int) -> Pixel {
    Pixel { r: raw[4 * i], g: raw[4 * i + 1], b: raw[4 * i + 2], a: raw[4 * i + 3] }
}

/// A decoded two-dimensional grid of pixels, stored row-major.  Never
/// mutated once built; the rest of the pipeline only reads it.
pub struct Frame {
    width: u32,
    height: u32,
    pixels: Vec<Pixel>,
}

impl Frame {
    #[verifier::type_invariant]
    spec fn wf(self) -> bool {
        self.pixels@.len() == self.width as int * self.height as int
    }

    /// Width in pixels.
    pub closed spec fn spec_width(self) -> u32 {
        self.width
    }

    /// Height in pixels.
    pub closed spec fn spec_height(self) -> u32 {
        self.height
    }

    /// The pixel in column `x` of row `y`.
    pub closed spec fn pixel_at(self, x: int, y: int) -> Pixel {
        self.pixels@[y * self.width as int + x]
    }

    /// Builds a frame from row-major RGBA samples, four bytes per pixel.
    pub fn from_rgba(width: u32, height: u32, raw: &Vec<u8>) -> (f: Frame)
        requires
            raw@.len() == 4 * (width as int) * (height as int),
        ensures
            f.spec_width() == width,
            f.spec_height() == height,
            forall|x: int, y: int|
                0 <= x < width && 0 <= y < height ==> f.pixel_at(x, y) == rgba_pixel(
                    raw@,
                    y * width + x,
                ),
    {
        let count: usize = raw.len() / 4;
        proof {
            lemma_div_by_multiple(width as int * height as int, 4);
            assert((width as int * height as int) * 4 == 4 * (width as int) * (height as int))
                by (nonlinear_arith);
            assert(count == width as int * height as int);
            assert(raw@.len() == 4 * count);
        }
        let mut pixels: Vec<Pixel> = Vec::new();
        let mut i: usize = 0;
        while i < count
            invariant
                i <= count,
                4 * count <= usize::MAX,
                raw@.len() == 4 * count,
                pixels@.len() == i,
                forall|j: int| 0 <= j < i ==> pixels@[j] == rgba_pixel(raw@, j),
            decreases count - i,
        {
            let p = Pixel { r: raw[4 * i], g: raw[4 * i + 1], b: raw[4 * i + 2], a: raw[4 * i + 3] };
            pixels.push(p);
            i = i + 1;
        }
        let f = Frame { width, height, pixels };
        proof {
            assert forall|x: int, y: int| 0 <= x < width && 0 <= y < height implies f.pixel_at(x, y)
                == rgba_pixel(raw@, y * width + x) by {
                lemma_row_major_bound(x, y, width as int, height as int);
            }
        }
        f
    }

    /// Width in pixels.
    pub fn width(&self) -> (w: u32)
        ensures
            w == self.spec_width(),
    {
        self.width
    }

    /// Height in pixels.
    pub fn height(&self) -> (h: u32)
        ensures
            h == self.spec_height(),
    {
        self.height
    }

    /// Reads the pixel in column `x` of row `y`.
    pub fn get_pixel(&self, x: u32, y: u32) -> (p: Pixel)
        requires
            x < self.spec_width(),
            y < self.spec_height(),
        ensures
            p == self.pixel_at(x as int, y as int),
    {
        proof {
            use_type_invariant(self);
            lemma_row_major_bound(x as int, y as int, self.width as int, self.height as int);
        }
        let n = self.pixels.len();
        let idx: usize = (y as usize) * (self.width as usize) + (x as usize);
        self.pixels[idx]
    }
}

/// In a row-major grid, the linear index of an in-bounds coordinate is below
/// the grid's area.
proof fn lemma_row_major_bound(x: int, y: int, width: int, height: int)
    requires
        0 <= x < width,
        0 <= y < height,
    ensures
        0 <= y * width + x < width * height,
{
    assert(0 <= y * width + x < width * height) by (nonlinear_arith)
        requires
            0 <= x < width,
            0 <= y < height,
    ;
}

} // verus!
