//! The boundary rules of the bilinear sampler: which four source pixels a
//! sample blends. Columns wrap around, since longitude is cyclic; rows clamp to
//! the first and last row, since the poles are edges.
use vstd::prelude::*;
use crate::raster::{Raster, RasterView};

verus! {

/// Column `ix` taken modulo `width`.
pub open spec fn wrapped(ix: int, width: int) -> int {
    ix % width
}

/// Row `iy` clamped to `[0, height - 1]`.
pub open spec fn clamped(iy: int, height: int) -> int {
    if iy < 0 {
        0
    } else if iy >= height {
        height - 1
    } else {
        iy
    }
}

/// The four pixels that a bilinear sample blends.
#[derive(Debug, PartialEq, Eq)]
pub struct Taps<P> {
    pub top_left: P,
    pub top_right: P,
    pub bottom_left: P,
    pub bottom_right: P,
}

/// The taps around the continuous position whose floor is `(x0, y0)`.
pub open spec fn taps<P>(src: RasterView<P>, x0: int, y0: int) -> Taps<P> {
    let w = src.width as int;
    let h = src.height as int;
    Taps {
        top_left: src.pixel(wrapped(x0, w), clamped(y0, h)),
        top_right: src.pixel(wrapped(x0 + 1, w), clamped(y0, h)),
        bottom_left: src.pixel(wrapped(x0, w), clamped(y0 + 1, h)),
        bottom_right: src.pixel(wrapped(x0 + 1, w), clamped(y0 + 1, h)),
    }
}

/// Column `ix` wrapped into `[0, width)`: the Euclidean remainder.
pub fn wrap_x(ix: i64, width: u32) -> (r: u32)
    requires
        width > 0,
    ensures
        r == wrapped(ix as int, width as int),
        r < width,
{
    let w = width as u64;
    if ix >= 0 {
        ((ix as u64) % w) as u32
    } else {
        // -(ix + 1) cannot overflow, and it is the mirror image of ix around -1/2.
        let m = ((-(ix + 1)) as u64) % w;
        proof {
            let q = (-(ix + 1)) as int / (w as int);
            vstd::arithmetic::div_mod::lemma_fundamental_div_mod((-(ix + 1)) as int, w as int);
            assert((-q - 1) * (w as int) == -(q * (w as int)) - w) by (nonlinear_arith);
            vstd::arithmetic::div_mod::lemma_fundamental_div_mod_converse(
                ix as int,
                w as int,
                -q - 1,
                (w - 1 - m) as int,
            );
        }
        (w - 1 - m) as u32
    }
}

/// Row `iy` clamped to `[0, height - 1]`.
pub fn clamp_y(iy: i64, height: u32) -> (r: u32)
    requires
        height > 0,
    ensures
        r == clamped(iy as int, height as int),
        r < height,
{
    if iy < 0 {
        0
    } else if iy >= height as i64 {
        height - 1
    } else {
        iy as u32
    }
}

/// The four source pixels around the continuous position whose floor is
/// `(x0, y0)`: columns `x0` and `x0 + 1` wrapped, rows `y0` and `y0 + 1` clamped.
pub fn bilinear_taps<P: Copy>(source: &Raster<P>, x0: i64, y0: i64) -> (r: Taps<P>)
    requires
        source.wf(),
        source@.width > 0,
        source@.height > 0,
        x0 < i64::MAX,
        y0 < i64::MAX,
    ensures
        r == taps(source@, x0 as int, y0 as int),
{
    let w = source.width();
    let h = source.height();
    let xa = wrap_x(x0, w);
    let xb = wrap_x(x0 + 1, w);
    let ya = clamp_y(y0, h);
    let yb = clamp_y(y0 + 1, h);
    Taps {
        top_left: source.get_pixel(xa, ya),
        top_right: source.get_pixel(xb, ya),
        bottom_left: source.get_pixel(xa, yb),
        bottom_right: source.get_pixel(xb, yb),
    }
}

/// At a pixel of the source, the top-left tap, the one that a sample at that
/// pixel's centre weighs fully, is that pixel itself.
pub proof fn lemma_taps_at_pixel<P>(src: RasterView<P>, x: int, y: int)
    requires
        0 <= x < src.width,
        0 <= y < src.height,
    ensures
        taps(src, x, y).top_left == src.pixel(x, y),
{
    vstd::arithmetic::div_mod::lemma_small_mod(x as nat, src.width);
}

/// Moving a whole panorama width left or right gives the same taps.
pub proof fn lemma_taps_wrap_horizontally<P>(src: RasterView<P>, x0: int, y0: int)
    requires
        src.width > 0,
    ensures
        taps(src, x0 + src.width, y0) == taps(src, x0, y0),
        taps(src, x0 - src.width, y0) == taps(src, x0, y0),
{
    let w = src.width as int;
    vstd::arithmetic::div_mod::lemma_mod_add_multiples_vanish(x0, w);
    vstd::arithmetic::div_mod::lemma_mod_add_multiples_vanish(x0 + 1, w);
    vstd::arithmetic::div_mod::lemma_mod_sub_multiples_vanish(x0, w);
    vstd::arithmetic::div_mod::lemma_mod_sub_multiples_vanish(x0 + 1, w);
    assert(x0 + w + 1 == x0 + 1 + w);
    assert(x0 - w + 1 == x0 + 1 - w);
}

/// Above the first row and below the last, every sample reads the edge row:
/// the taps equal those at the edge, and the upper and lower taps agree.
pub proof fn lemma_taps_clamp_vertically<P>(src: RasterView<P>, x0: int, y0: int)
    requires
        src.height > 0,
    ensures
        y0 <= -1 ==> taps(src, x0, y0) == taps(src, x0, -1),
        y0 >= src.height - 1 ==> taps(src, x0, y0) == taps(src, x0, src.height - 1),
        y0 <= -1 || y0 >= src.height - 1 ==> taps(src, x0, y0).top_left == taps(
            src,
            x0,
            y0,
        ).bottom_left && taps(src, x0, y0).top_right == taps(src, x0, y0).bottom_right,
{
}

/// Over a source of one colour every tap is that colour.
pub proof fn lemma_taps_of_uniform_source<P>(src: RasterView<P>, c: P, x0: int, y0: int)
    requires
        src.wf(),
        src.width > 0,
        src.height > 0,
        forall|i: int| 0 <= i < src.pixels.len() ==> src.pixels[i] == c,
    ensures
        taps(src, x0, y0) == (Taps { top_left: c, top_right: c, bottom_left: c, bottom_right: c }),
{
    let w = src.width as int;
    let h = src.height as int;
    assert forall|x: int, y: int| 0 <= x < w && 0 <= y < h implies src.pixel(x, y) == c by {
        crate::raster::lemma_index_in_bounds(x, y, w, h);
    }
    vstd::arithmetic::div_mod::lemma_mod_bound(x0, w);
    vstd::arithmetic::div_mod::lemma_mod_bound(x0 + 1, w);
}

} // verus!
