//! The data carried between the producer and the consumer: decoded images on
//! the way in, fully rendered frames on the way out.
use vstd::prelude::*;

verus! {

/// One pixel of a decoded image, in 8-bit RGBA.
#[derive(Clone, Copy, PartialEq, Eq, Structural, Debug)]
pub struct Pixel {
    pub r: u8,
    pub g: u8,
    pub b: u8,
    pub a: u8,
}

/// A decoded still image: a row-major grid of pixels.
pub struct Image {
    pub width: u32,
    pub height: u32,
    pub pixels: Vec<Pixel>,
}

impl Image {
    /// The pixel grid holds exactly one pixel per coordinate.
    pub open spec fn wf(self) -> bool {
        self.pixels@.len() == self.width as int * self.height as int
    }

    /// The pixel at column `x`, row `y` of the row-major grid.
    pub open spec fn pixel_at(self, x: int, y: int) -> Pixel {
        self.pixels@[y * self.width as int + x]
    }

    pub fn new(width: u32, height: u32, pixels: Vec<Pixel>) -> (img: Option<Image>)
        ensures
            match img {
                Some(i) => {
                    &&& i.wf()
                    &&& i.width == width
                    &&& i.height == height
                    &&& i.pixels == pixels
                    &&& pixels@.len() == width as int * height as int
                },
                None => pixels@.len() != width as int * height as int,
            },
    {
        let n = pixels.len();
        proof {
            let w = width as int;
            let h = height as int;
            assert(w * h <= 0xffff_ffff * 0xffff_ffff) by (nonlinear_arith)
                requires
                    0 <= w && w <= 0xffff_ffff,
                    0 <= h && h <= 0xffff_ffff,
            ;
        }
        if width as u64 * height as u64 == n as u64 {
            assert(n as int == width as int * height as int) by (nonlinear_arith)
                requires
                    width as u64 * height as u64 == n as u64,
            ;
            Some(Image { width, height, pixels })
        } else {
            assert(n as int != width as int * height as int) by (nonlinear_arith)
                requires
                    width as u64 * height as u64 != n as u64,
                    n <= usize::MAX,
            ;
            None
        }
    }

    /// Reads one pixel of the grid.
    pub fn get(&self, x: u32, y: u32) -> (p: Pixel)
        requires
            self.wf(),
            x < self.width,
            y < self.height,
        ensures
            p == self.pixel_at(x as int, y as int),
    {
        let n = self.pixels.len();
        proof {
            let xx = x as int;
            let yy = y as int;
            let w = self.width as int;
            let h = self.height as int;
            assert(0 <= yy * w + xx && yy * w + xx < w * h) by (nonlinear_arith)
                requires
                    0 <= xx && xx < w,
                    0 <= yy && yy < h,
            ;
            assert(yy * w + xx < n as int);
        }
        let idx: usize = y as usize * self.width as usize + x as usize;
        self.pixels[idx]
    }
}

/// One fully rendered frame: the grid size it was rendered for, a sequence
/// stamp that increases with every frame the producer completes, and the
/// pre-serialized terminal escape-sequence bytes for the whole grid.
pub struct Frame {
    pub width: u32,
    pub height: u32,
    pub stamp: u64,
    pub data: Vec<u8>,
}

impl Frame {
    /// A freshly allocated frame: the fixed grid size, no bytes yet, stamp 0
    /// (no encoded frame has ever been stored in it).
    pub open spec fn is_blank(self, width: u32, height: u32) -> bool {
        &&& self.width == width
        &&& self.height == height
        &&& self.stamp == 0
        &&& self.data@ == Seq::<u8>::empty()
    }
}

} // verus!
