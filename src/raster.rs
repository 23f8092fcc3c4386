//! A row-major grid of pixels whose size is fixed when it is made.
use vstd::prelude::*;

verus! {

/// Why a raster of the requested size cannot be made.
#[derive(Debug, Clone, Copy, PartialEq, Eq, Structural)]
pub enum DimensionError {
    /// The size cannot be addressed: `width * height * 3` channel values do
    /// not fit in `usize`, or, for a cross layout, `4 * size` does not fit in
    /// `u32`.
    Overflow,
    /// The buffer holds fewer values than the dimensions need.
    ShortBuffer { expected: usize, found: usize },
}

/// Channels per pixel: every pixel is an RGB triple.
pub const CHANNELS: usize = 3;

/// Whether a `width` by `height` raster of RGB triples can be addressed:
/// its channel count fits in `usize`.
pub open spec fn dims_fit(width: int, height: int) -> bool {
    width * height * 3 <= usize::MAX
}

/// What a raster holds: its size and its pixels, row after row.
pub struct RasterView<P> {
    pub width: nat,
    pub height: nat,
    pub pixels: Seq<P>,
}

impl<P> RasterView<P> {
    /// The pixel in column `x` of row `y`.
    pub open spec fn pixel(self, x: int, y: int) -> P {
        self.pixels[y * self.width + x]
    }

    pub open spec fn wf(self) -> bool {
        &&& self.pixels.len() == self.width * self.height
        &&& dims_fit(self.width as int, self.height as int)
    }
}

/// A `width` by `height` grid of pixels, stored row after row.
pub struct Raster<P> {
    width: u32,
    height: u32,
    pixels: Vec<P>,
}

impl<P> View for Raster<P> {
    type V = RasterView<P>;

    closed spec fn view(&self) -> RasterView<P> {
        RasterView { width: self.width as nat, height: self.height as nat, pixels: self.pixels@ }
    }
}

/// `width * height` when the raster's channel values fit in `usize`.
pub fn pixel_count(width: u32, height: u32) -> (r: Result<usize, DimensionError>)
    ensures
        match r {
            Ok(n) => dims_fit(width as int, height as int) && n == width * height,
            Err(e) => !dims_fit(width as int, height as int) && e == DimensionError::Overflow,
        },
{
    match (width as usize).checked_mul(height as usize) {
        Some(n) => match n.checked_mul(CHANNELS) {
            Some(_) => Ok(n),
            None => Err(DimensionError::Overflow),
        },
        None => {
            assert((width as int) * (height as int) * 3 > usize::MAX) by (nonlinear_arith)
                requires
                    (width as int) * (height as int) > usize::MAX,
            ;
            Err(DimensionError::Overflow)
        },
    }
}

impl<P: Copy> Raster<P> {
    pub open spec fn wf(&self) -> bool {
        self@.wf()
    }

    /// A raster with every pixel set to `fill`.
    pub fn new(width: u32, height: u32, fill: P) -> (r: Result<Self, DimensionError>)
        ensures
            match r {
                Ok(ras) => {
                    &&& dims_fit(width as int, height as int)
                    &&& ras.wf()
                    &&& ras@.width == width
                    &&& ras@.height == height
                    &&& forall|i: int| 0 <= i < ras@.pixels.len() ==> ras@.pixels[i] == fill
                },
                Err(e) => !dims_fit(width as int, height as int) && e == DimensionError::Overflow,
            },
    {
        let n = pixel_count(width, height)?;
        let mut pixels: Vec<P> = Vec::new();
        while pixels.len() < n
            invariant
                pixels@.len() <= n,
                forall|i: int| 0 <= i < pixels@.len() ==> pixels@[i] == fill,
            decreases n - pixels@.len(),
        {
            pixels.push(fill);
        }
        Ok(Raster { width, height, pixels })
    }

    /// A raster over the first `width * height` pixels of `pixels`.
    pub fn from_pixels(width: u32, height: u32, pixels: Vec<P>) -> (r: Result<Self, DimensionError>)
        ensures
            match r {
                Ok(ras) => {
                    &&& dims_fit(width as int, height as int)
                    &&& width * height <= pixels@.len()
                    &&& ras.wf()
                    &&& ras@.width == width
                    &&& ras@.height == height
                    &&& ras@.pixels == pixels@.take(width * height)
                },
                Err(DimensionError::Overflow) => !dims_fit(width as int, height as int),
                Err(DimensionError::ShortBuffer { expected, found }) => {
                    &&& dims_fit(width as int, height as int)
                    &&& expected == width * height
                    &&& found == pixels@.len()
                    &&& found < expected
                },
            },
    {
        let n = pixel_count(width, height)?;
        if pixels.len() < n {
            return Err(DimensionError::ShortBuffer { expected: n, found: pixels.len() });
        }
        let mut pixels = pixels;
        pixels.truncate(n);
        Ok(Raster { width, height, pixels })
    }

    pub fn width(&self) -> (r: u32)
        ensures
            r == self@.width,
    {
        self.width
    }

    pub fn height(&self) -> (r: u32)
        ensures
            r == self@.height,
    {
        self.height
    }

    /// The pixels, row after row.
    pub fn as_pixels(&self) -> (r: &Vec<P>)
        ensures
            r@ == self@.pixels,
    {
        &self.pixels
    }

    /// The pixel in column `x` of row `y`.
    pub fn get_pixel(&self, x: u32, y: u32) -> (r: P)
        requires
            self.wf(),
            x < self@.width,
            y < self@.height,
        ensures
            r == self@.pixel(x as int, y as int),
    {
        proof {
            lemma_index_in_bounds(x as int, y as int, self@.width as int, self@.height as int);
        }
        let i = y as usize * self.width as usize + x as usize;
        self.pixels[i]
    }

    /// Sets the pixel in column `x` of row `y`, leaving every other pixel as it was.
    pub fn put_pixel(&mut self, x: u32, y: u32, p: P)
        requires
            old(self).wf(),
            x < old(self)@.width,
            y < old(self)@.height,
        ensures
            final(self).wf(),
            final(self)@.width == old(self)@.width,
            final(self)@.height == old(self)@.height,
            final(self)@.pixels == old(self)@.pixels.update(y * old(self)@.width + x, p),
    {
        proof {
            lemma_index_in_bounds(x as int, y as int, self@.width as int, self@.height as int);
        }
        let i = y as usize * self.width as usize + x as usize;
        self.pixels.set(i, p);
    }
}

/// The row-major index of a pixel inside the grid lies inside the grid, and
/// is itself within the channel bound.
pub proof fn lemma_index_in_bounds(x: int, y: int, width: int, height: int)
    requires
        0 <= x < width,
        0 <= y < height,
    ensures
        0 <= y * width + x < width * height,
        0 <= y * width,
{
    assert(0 <= y * width + x < width * height) by (nonlinear_arith)
        requires
            0 <= x < width,
            0 <= y < height,
    ;
    assert(0 <= y * width) by (nonlinear_arith)
        requires
            0 <= y,
            0 <= width,
    ;
}

/// A pixel index, split back into its column and row.
pub proof fn lemma_index_split(x: int, y: int, width: int)
    requires
        0 <= x < width,
        0 <= y,
    ensures
        (y * width + x) % width == x,
        (y * width + x) / width == y,
{
    vstd::arithmetic::div_mod::lemma_fundamental_div_mod_converse(y * width + x, width, y, x);
}

} // verus!
