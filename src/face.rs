//! Cube faces and the per-face basis that maps face coordinates to directions.
//!
//! Directions live in the panorama frame: `x` points to the right of the
//! `Front` face, `y` points up, `z` points forward through `Front`.
//! A point of a face is written `(a, b)` on a grid of half-width `n`:
//! `a = -n` is the face's left edge, `a = n` its right edge, `b = -n` its top
//! edge and `b = n` its bottom edge, as the face is seen in an image.
use vstd::prelude::*;

verus! {

/// One face of the cube, named after the direction a viewer at its centre looks.
#[derive(Debug, Clone, Copy, PartialEq, Eq, Structural)]
pub enum CubeFace {
    Right,
    Left,
    Top,
    Bottom,
    Front,
    Back,
}

/// An exact direction in the panorama frame, `(x, y, z)`.
pub type Dir = (int, int, int);

/// The direction that the centre of the face looks at.
pub open spec fn forward(face: CubeFace) -> Dir {
    match face {
        CubeFace::Right => (1, 0, 0),
        CubeFace::Left => (-1, 0, 0),
        CubeFace::Top => (0, 1, 0),
        CubeFace::Bottom => (0, -1, 0),
        CubeFace::Front => (0, 0, 1),
        CubeFace::Back => (0, 0, -1),
    }
}

/// The direction in which the face's image coordinate `a` grows.
pub open spec fn rightward(face: CubeFace) -> Dir {
    match face {
        CubeFace::Right => (0, 0, -1),
        CubeFace::Left => (0, 0, 1),
        CubeFace::Top => (1, 0, 0),
        CubeFace::Bottom => (1, 0, 0),
        CubeFace::Front => (1, 0, 0),
        CubeFace::Back => (-1, 0, 0),
    }
}

/// The direction in which the face's image coordinate `b` grows.
pub open spec fn downward(face: CubeFace) -> Dir {
    match face {
        CubeFace::Top => (0, 0, 1),
        CubeFace::Bottom => (0, 0, -1),
        _ => (0, -1, 0),
    }
}

/// `c * v` for a basis component `c` in `{-1, 0, 1}`.
pub open spec fn signed(c: int, v: int) -> int {
    if c > 0 {
        v
    } else if c < 0 {
        -v
    } else {
        0
    }
}

/// `n * forward + a * rightward + b * downward`: the direction through the point
/// `(a, b)` of the face on a grid of half-width `n`, up to a positive scale.
pub open spec fn direction(face: CubeFace, a: int, b: int, n: int) -> Dir {
    let f = forward(face);
    let r = rightward(face);
    let d = downward(face);
    (
        signed(f.0, n) + signed(r.0, a) + signed(d.0, b),
        signed(f.1, n) + signed(r.1, a) + signed(d.1, b),
        signed(f.2, n) + signed(r.2, a) + signed(d.2, b),
    )
}

/// The corner of a face: `right` picks the right edge, `bottom` the bottom edge.
pub open spec fn corner(face: CubeFace, right: bool, bottom: bool) -> Dir {
    direction(face, if right { 1 } else { -1 }, if bottom { 1 } else { -1 }, 1)
}

/// The component of `p` along a basis vector `axis` (components in `{-1, 0, 1}`).
pub open spec fn along(p: Dir, axis: Dir) -> int {
    signed(axis.0, p.0) + signed(axis.1, p.1) + signed(axis.2, p.2)
}

pub open spec fn is_unit_sign(v: int) -> bool {
    v == 1 || v == -1
}

/// The position of a face in `all_faces`.
pub open spec fn face_index(face: CubeFace) -> int {
    match face {
        CubeFace::Right => 0,
        CubeFace::Left => 1,
        CubeFace::Top => 2,
        CubeFace::Bottom => 3,
        CubeFace::Front => 4,
        CubeFace::Back => 5,
    }
}

impl CubeFace {
    /// The position of this face in `all_faces`.
    pub fn index(self) -> (r: usize)
        ensures
            r == face_index(self),
    {
        match self {
            CubeFace::Right => 0,
            CubeFace::Left => 1,
            CubeFace::Top => 2,
            CubeFace::Bottom => 3,
            CubeFace::Front => 4,
            CubeFace::Back => 5,
        }
    }

    /// The face's basis as `(forward, rightward, downward)`, each a vector of
    /// components in `{-1, 0, 1}`.
    pub fn basis(self) -> (r: ((i8, i8, i8), (i8, i8, i8), (i8, i8, i8)))
        ensures
            (r.0.0 as int, r.0.1 as int, r.0.2 as int) == forward(self),
            (r.1.0 as int, r.1.1 as int, r.1.2 as int) == rightward(self),
            (r.2.0 as int, r.2.1 as int, r.2.2 as int) == downward(self),
    {
        match self {
            CubeFace::Right => ((1, 0, 0), (0, 0, -1), (0, -1, 0)),
            CubeFace::Left => ((-1, 0, 0), (0, 0, 1), (0, -1, 0)),
            CubeFace::Top => ((0, 1, 0), (1, 0, 0), (0, 0, 1)),
            CubeFace::Bottom => ((0, -1, 0), (1, 0, 0), (0, 0, -1)),
            CubeFace::Front => ((0, 0, 1), (1, 0, 0), (0, -1, 0)),
            CubeFace::Back => ((0, 0, -1), (-1, 0, 0), (0, -1, 0)),
        }
    }
}

/// The six faces, in the order of `face_index`.
pub fn all_faces() -> (r: Vec<CubeFace>)
    ensures
        r@.len() == 6,
        forall|i: int| 0 <= i < 6 ==> face_index(#[trigger] r@[i]) == i,
{
    vec![
        CubeFace::Right,
        CubeFace::Left,
        CubeFace::Top,
        CubeFace::Bottom,
        CubeFace::Front,
        CubeFace::Back,
    ]
}

/// The direction through the point `(a, b)` of `face` on a grid of half-width `n`.
/// Every component is one of `n`, `a`, `b` or its negation, so it is exact.
pub fn face_direction(face: CubeFace, a: i64, b: i64, n: i64) -> (r: (i64, i64, i64))
    requires
        a > i64::MIN,
        b > i64::MIN,
        n > i64::MIN,
    ensures
        (r.0 as int, r.1 as int, r.2 as int) == direction(face, a as int, b as int, n as int),
{
    match face {
        CubeFace::Right => (n, -b, -a),
        CubeFace::Left => (-n, -b, a),
        CubeFace::Top => (a, n, b),
        CubeFace::Bottom => (a, -n, -b),
        CubeFace::Front => (a, -b, n),
        CubeFace::Back => (-a, -b, -n),
    }
}

/// The direction through the centre of pixel `(x, y)` of a `size` by `size`
/// face. The centre sits at `u = (x + 0.5) / size`, so `2u - 1` is
/// `(2x + 1 - size) / size`; the result is the face direction scaled by `size`.
pub fn pixel_direction(face: CubeFace, x: u32, y: u32, size: u32) -> (r: (i64, i64, i64))
    requires
        x < size,
        y < size,
    ensures
        (r.0 as int, r.1 as int, r.2 as int) == direction(
            face,
            2 * x + 1 - size,
            2 * y + 1 - size,
            size as int,
        ),
{
    let a: i64 = 2 * (x as i64) + 1 - (size as i64);
    let b: i64 = 2 * (y as i64) + 1 - (size as i64);
    face_direction(face, a, b, size as i64)
}

/// Each corner of each face is a vertex of the cube `[-1, 1]^3` that lies on
/// the face's own plane, and the four corners of a face are four distinct
/// vertices.
pub proof fn lemma_corners_are_face_vertices(face: CubeFace, right: bool, bottom: bool)
    ensures
        is_unit_sign(corner(face, right, bottom).0),
        is_unit_sign(corner(face, right, bottom).1),
        is_unit_sign(corner(face, right, bottom).2),
        along(corner(face, right, bottom), forward(face)) == 1,
        corner(face, right, bottom) == corner(face, false, false) ==> !right && !bottom,
        corner(face, right, bottom) == corner(face, true, false) ==> right && !bottom,
        corner(face, right, bottom) == corner(face, false, true) ==> !right && bottom,
        corner(face, right, bottom) == corner(face, true, true) ==> right && bottom,
{
}

/// Each of the twelve edges of the cube is shared by two faces, and the two
/// faces map every point of that edge to the same direction. The first six
/// are the seams between neighbours in the cross layout; the other six close
/// the cube when the cross is folded.
pub proof fn lemma_shared_edges(t: int, n: int)
    ensures
        direction(CubeFace::Left, n, t, n) == direction(CubeFace::Front, -n, t, n),
        direction(CubeFace::Front, n, t, n) == direction(CubeFace::Right, -n, t, n),
        direction(CubeFace::Right, n, t, n) == direction(CubeFace::Back, -n, t, n),
        direction(CubeFace::Back, n, t, n) == direction(CubeFace::Left, -n, t, n),
        direction(CubeFace::Top, t, n, n) == direction(CubeFace::Front, t, -n, n),
        direction(CubeFace::Bottom, t, -n, n) == direction(CubeFace::Front, t, n, n),
        direction(CubeFace::Top, n, t, n) == direction(CubeFace::Right, -t, -n, n),
        direction(CubeFace::Top, t, -n, n) == direction(CubeFace::Back, -t, -n, n),
        direction(CubeFace::Top, -n, t, n) == direction(CubeFace::Left, t, -n, n),
        direction(CubeFace::Bottom, n, t, n) == direction(CubeFace::Right, t, n, n),
        direction(CubeFace::Bottom, t, n, n) == direction(CubeFace::Back, -t, n, n),
        direction(CubeFace::Bottom, -n, t, n) == direction(CubeFace::Left, -t, n, n),
{
}

} // verus!
