//! The 4x3 cross layout: where each face goes, and the compositor that lays
//! six rendered faces out on one canvas.
//!
//! ```text
//!       [Top]
//! [Left][Front][Right][Back]
//!       [Bottom]
//! ```
use vstd::prelude::*;
use crate::face::{CubeFace, face_index};
use crate::raster::{DimensionError, Raster, RasterView, dims_fit, lemma_index_in_bounds, lemma_index_split};

verus! {

/// The grid cell `(column, row)` of a face, in face-size units.
pub open spec fn cell(face: CubeFace) -> (int, int) {
    match face {
        CubeFace::Left => (0, 1),
        CubeFace::Front => (1, 1),
        CubeFace::Right => (2, 1),
        CubeFace::Back => (3, 1),
        CubeFace::Top => (1, 0),
        CubeFace::Bottom => (1, 2),
    }
}

/// The face whose cell is `(col, row)`, if any: the six cells of `cell`, and
/// nothing in the six other cells of the 4x3 grid.
pub open spec fn face_at_cell(col: int, row: int) -> Option<CubeFace> {
    if row == 1 && col == 0 {
        Some(CubeFace::Left)
    } else if row == 1 && col == 1 {
        Some(CubeFace::Front)
    } else if row == 1 && col == 2 {
        Some(CubeFace::Right)
    } else if row == 1 && col == 3 {
        Some(CubeFace::Back)
    } else if row == 0 && col == 1 {
        Some(CubeFace::Top)
    } else if row == 2 && col == 1 {
        Some(CubeFace::Bottom)
    } else {
        None
    }
}

/// Canvas pixel `(x, y)` of the cross built from `faces` (indexed by
/// `face_index`) with faces of edge `size` and `background` in the empty cells.
pub open spec fn cross_pixel<P>(
    faces: Seq<Raster<P>>,
    size: int,
    background: P,
    x: int,
    y: int,
) -> P {
    match face_at_cell(x / size, y / size) {
        Some(f) => faces[face_index(f)]@.pixel(x % size, y % size),
        None => background,
    }
}

/// Six rasters, in the order of `face_index`, each `size` by `size`.
pub open spec fn faces_fit<P>(faces: Seq<Raster<P>>, size: int) -> bool {
    &&& faces.len() == 6
    &&& forall|i: int|
        0 <= i < 6 ==> {
            &&& (#[trigger] faces[i])@.wf()
            &&& faces[i]@.width == size
            &&& faces[i]@.height == size
        }
}

/// Whether a `4 * size` by `3 * size` canvas can be made.
pub open spec fn cross_fits(size: int) -> bool {
    &&& 4 * size <= u32::MAX
    &&& dims_fit(4 * size, 3 * size)
}

/// The grid cell `(column, row)` of a face.
pub fn cross_cell(face: CubeFace) -> (r: (u32, u32))
    ensures
        (r.0 as int, r.1 as int) == cell(face),
        face_at_cell(r.0 as int, r.1 as int) == Some(face),
{
    match face {
        CubeFace::Left => (0, 1),
        CubeFace::Front => (1, 1),
        CubeFace::Right => (2, 1),
        CubeFace::Back => (3, 1),
        CubeFace::Top => (1, 0),
        CubeFace::Bottom => (1, 2),
    }
}

/// The canvas pixel at which the face's top-left pixel goes.
pub fn get_cross_offset(face: CubeFace, size: u32) -> (r: (u32, u32))
    requires
        3 * size <= u32::MAX,
    ensures
        r.0 == cell(face).0 * size,
        r.1 == cell(face).1 * size,
{
    let (col, row) = cross_cell(face);
    (col * size, row * size)
}

/// The canvas size `(4 * size, 3 * size)`, when a canvas of RGB triples of
/// that size can be addressed.
pub fn cross_dimensions(size: u32) -> (r: Result<(u32, u32), DimensionError>)
    ensures
        match r {
            Ok((w, h)) => cross_fits(size as int) && w == 4 * size && h == 3 * size,
            Err(e) => !cross_fits(size as int) && e == DimensionError::Overflow,
        },
{
    if size > u32::MAX / 4 {
        return Err(DimensionError::Overflow);
    }
    let w = 4 * size;
    let h = 3 * size;
    match crate::raster::pixel_count(w, h) {
        Ok(_) => Ok((w, h)),
        Err(e) => Err(e),
    }
}

/// Lays the six faces out on a `4 * size` by `3 * size` canvas. Each face is
/// copied pixel for pixel into its cell; the six cells with no face hold
/// `background`. Fails with `Overflow` when the canvas cannot be addressed.
pub fn compose_cross<P: Copy>(faces: &Vec<Raster<P>>, size: u32, background: P) -> (r: Result<
    Raster<P>,
    DimensionError,
>)
    requires
        faces_fit(faces@, size as int),
    ensures
        match r {
            Ok(canvas) => {
                &&& cross_fits(size as int)
                &&& canvas.wf()
                &&& canvas@.width == 4 * size
                &&& canvas@.height == 3 * size
                &&& forall|x: int, y: int|
                    0 <= x < canvas@.width && 0 <= y < canvas@.height ==> #[trigger] canvas@.pixel(
                        x,
                        y,
                    ) == cross_pixel(faces@, size as int, background, x, y)
            },
            Err(e) => !cross_fits(size as int) && e == DimensionError::Overflow,
        },
{
    let (w, h) = cross_dimensions(size)?;
    let mut pixels: Vec<P> = Vec::new();
    let mut y: u32 = 0;
    while y < h
        invariant
            faces_fit(faces@, size as int),
            w == 4 * size,
            h == 3 * size,
            y <= h,
            pixels@.len() == y * w,
            forall|k: int|
                0 <= k < pixels@.len() ==> #[trigger] pixels@[k] == cross_pixel(
                    faces@,
                    size as int,
                    background,
                    k % (w as int),
                    k / (w as int),
                ),
        decreases h - y,
    {
        let row = y / size;
        let ly = y % size;
        let mut x: u32 = 0;
        while x < w
            invariant
                faces_fit(faces@, size as int),
                w == 4 * size,
                h == 3 * size,
                y < h,
                size > 0,
                row == y / size,
                ly == y % size,
                x <= w,
                pixels@.len() == y * w + x,
                forall|k: int|
                    0 <= k < pixels@.len() ==> #[trigger] pixels@[k] == cross_pixel(
                        faces@,
                        size as int,
                        background,
                        k % (w as int),
                        k / (w as int),
                    ),
            decreases w - x,
        {
            let col = x / size;
            let lx = x % size;
            let p = if row == 1 && col < 4 {
                let f = if col == 0 {
                    CubeFace::Left
                } else if col == 1 {
                    CubeFace::Front
                } else if col == 2 {
                    CubeFace::Right
                } else {
                    CubeFace::Back
                };
                faces[f.index()].get_pixel(lx, ly)
            } else if row == 0 && col == 1 {
                faces[CubeFace::Top.index()].get_pixel(lx, ly)
            } else if row == 2 && col == 1 {
                faces[CubeFace::Bottom.index()].get_pixel(lx, ly)
            } else {
                background
            };
            proof {
                lemma_index_split(x as int, y as int, w as int);
            }
            pixels.push(p);
            x = x + 1;
        }
        proof {
            assert((y + 1) * w == y * w + w) by (nonlinear_arith);
        }
        y = y + 1;
    }
    let ghost old_pixels = pixels@;
    proof {
        assert((h as int) * (w as int) == (w as int) * (h as int)) by (nonlinear_arith);
    }
    let canvas = match Raster::from_pixels(w, h, pixels) {
        Ok(c) => c,
        Err(e) => {
            return Err(e);
        },
    };
    proof {
        assert(old_pixels.take(w * h) =~= old_pixels);
        assert forall|x: int, y: int|
            0 <= x < canvas@.width && 0 <= y < canvas@.height implies #[trigger] canvas@.pixel(
                x,
                y,
            ) == cross_pixel(faces@, size as int, background, x, y) by {
            lemma_index_in_bounds(x, y, w as int, h as int);
            lemma_index_split(x, y, w as int);
            assert(old_pixels[y * w + x] == cross_pixel(
                faces@,
                size as int,
                background,
                (y * w + x) % (w as int),
                (y * w + x) / (w as int),
            ));
        }
    }
    Ok(canvas)
}

/// Each face lands in its own cell pixel for pixel, and the six cells of the
/// grid that hold no face show the background.
pub proof fn lemma_cross_cells<P>(
    faces: Seq<Raster<P>>,
    size: int,
    background: P,
    col: int,
    row: int,
    x: int,
    y: int,
)
    requires
        0 <= col < 4,
        0 <= row < 3,
        0 <= x < size,
        0 <= y < size,
    ensures
        face_at_cell(col, row) matches Some(f) ==> cell(f) == (col, row) && cross_pixel(
            faces,
            size,
            background,
            col * size + x,
            row * size + y,
        ) == faces[face_index(f)]@.pixel(x, y),
        face_at_cell(col, row) is None ==> cross_pixel(
            faces,
            size,
            background,
            col * size + x,
            row * size + y,
        ) == background,
{
    lemma_index_split(x, col, size);
    lemma_index_split(y, row, size);
}

/// Distinct faces have distinct cells, and every cell lies inside the 4x3 grid,
/// so the `size` by `size` blocks at their offsets are disjoint and inside the
/// canvas.
pub proof fn lemma_cells_distinct(f: CubeFace, g: CubeFace)
    ensures
        0 <= cell(f).0 < 4,
        0 <= cell(f).1 < 3,
        f != g ==> cell(f) != cell(g),
{
}

/// Faces of one colour give a cross whose face cells all have that colour.
pub proof fn lemma_uniform_faces<P>(faces: Seq<Raster<P>>, size: int, background: P, c: P, x: int, y: int)
    requires
        faces_fit(faces, size),
        size > 0,
        forall|i: int, k: int|
            0 <= i < 6 && 0 <= k < faces[i]@.pixels.len() ==> #[trigger] faces[i]@.pixels[k] == c,
        0 <= x,
        0 <= y,
        face_at_cell(x / size, y / size) is Some,
    ensures
        cross_pixel(faces, size, background, x, y) == c,
{
    let f = face_at_cell(x / size, y / size)->Some_0;
    let i = face_index(f);
    vstd::arithmetic::div_mod::lemma_mod_bound(x, size);
    vstd::arithmetic::div_mod::lemma_mod_bound(y, size);
    assert(faces[i]@.wf());
    lemma_index_in_bounds(x % size, y % size, size, size);
}

} // verus!
