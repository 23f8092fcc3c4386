use skybox_cubemap::cross::{compose_cross, cross_cell, cross_dimensions, get_cross_offset};
use skybox_cubemap::face::{all_faces, face_direction, pixel_direction, CubeFace};
use skybox_cubemap::options::{ldr_buffer_len, OutputFormat};
use skybox_cubemap::raster::{pixel_count, DimensionError, Raster};
use skybox_cubemap::sampler::{bilinear_taps, clamp_y, wrap_x, Taps};

fn corner(face: CubeFace, right: bool, bottom: bool) -> (i64, i64, i64) {
    face_direction(face, if right { 1 } else { -1 }, if bottom { 1 } else { -1 }, 1)
}

fn numbered(width: u32, height: u32) -> Raster<u32> {
    let pixels: Vec<u32> = (0..width * height).collect();
    Raster::from_pixels(width, height, pixels).unwrap()
}

#[test]
fn face_centres_look_along_their_axes() {
    assert_eq!(face_direction(CubeFace::Front, 0, 0, 1), (0, 0, 1));
    assert_eq!(face_direction(CubeFace::Back, 0, 0, 1), (0, 0, -1));
    assert_eq!(face_direction(CubeFace::Right, 0, 0, 1), (1, 0, 0));
    assert_eq!(face_direction(CubeFace::Left, 0, 0, 1), (-1, 0, 0));
    assert_eq!(face_direction(CubeFace::Top, 0, 0, 1), (0, 1, 0));
    assert_eq!(face_direction(CubeFace::Bottom, 0, 0, 1), (0, -1, 0));
}

#[test]
fn face_corners_are_cube_vertices() {
    for face in all_faces() {
        let mut seen = Vec::new();
        for right in [false, true] {
            for bottom in [false, true] {
                let c = corner(face, right, bottom);
                assert!(c.0.abs() == 1 && c.1.abs() == 1 && c.2.abs() == 1);
                assert!(!seen.contains(&c));
                seen.push(c);
            }
        }
    }
    // Front's top-left corner is up, left and forward.
    assert_eq!(corner(CubeFace::Front, false, false), (-1, 1, 1));
}

#[test]
fn adjacent_faces_share_edges() {
    // Right's top-left corner is shared with Front (top-right) and Top (bottom-right).
    let c = corner(CubeFace::Right, false, false);
    assert_eq!(c, corner(CubeFace::Front, true, false));
    assert_eq!(c, corner(CubeFace::Top, true, true));
    // Right's top-right corner is shared with Back's top-left and Top's top-right.
    let c = corner(CubeFace::Right, true, false);
    assert_eq!(c, corner(CubeFace::Back, false, false));
    assert_eq!(c, corner(CubeFace::Top, true, false));
    // Along the Front/Bottom seam every point agrees.
    for t in -4..=4 {
        assert_eq!(face_direction(CubeFace::Front, t, 4, 4), face_direction(CubeFace::Bottom, t, -4, 4));
    }
}

#[test]
fn pixel_direction_uses_pixel_centres() {
    // In a 2x2 face the first pixel centre is at u = v = 0.25, i.e. (-1/2, -1/2).
    assert_eq!(pixel_direction(CubeFace::Front, 0, 0, 2), (-1, 1, 2));
    assert_eq!(pixel_direction(CubeFace::Front, 1, 1, 2), (1, -1, 2));
    // A 1x1 face has its only centre in the middle of the face.
    assert_eq!(pixel_direction(CubeFace::Left, 0, 0, 1), (-1, 0, 0));
}

#[test]
fn wrap_and_clamp_indices() {
    assert_eq!(wrap_x(-1, 4), 3);
    assert_eq!(wrap_x(-4, 4), 0);
    assert_eq!(wrap_x(-5, 4), 3);
    assert_eq!(wrap_x(4, 4), 0);
    assert_eq!(wrap_x(9, 4), 1);
    assert_eq!(wrap_x(i64::MIN, 3), ((i64::MIN % 3 + 3) % 3) as u32);
    assert_eq!(clamp_y(-7, 3), 0);
    assert_eq!(clamp_y(1, 3), 1);
    assert_eq!(clamp_y(3, 3), 2);
    assert_eq!(clamp_y(100, 3), 2);
}

#[test]
fn taps_at_pixel_centre_start_at_that_pixel() {
    let src = numbered(4, 3);
    let t = bilinear_taps(&src, 1, 1);
    assert_eq!(t, Taps { top_left: 5, top_right: 6, bottom_left: 9, bottom_right: 10 });
}

#[test]
fn taps_wrap_horizontally() {
    let src = numbered(4, 3);
    let left = bilinear_taps(&src, -1, 0);
    assert_eq!(left, Taps { top_left: 3, top_right: 0, bottom_left: 7, bottom_right: 4 });
    assert_eq!(left, bilinear_taps(&src, 3, 0));
    assert_eq!(bilinear_taps(&src, 3, 1), bilinear_taps(&src, 7, 1));
}

#[test]
fn taps_clamp_vertically() {
    let src = numbered(4, 3);
    let above = bilinear_taps(&src, 1, -5);
    assert_eq!(above, Taps { top_left: 1, top_right: 2, bottom_left: 1, bottom_right: 2 });
    assert_eq!(above, bilinear_taps(&src, 1, -1));
    let below = bilinear_taps(&src, 1, 9);
    assert_eq!(below, Taps { top_left: 9, top_right: 10, bottom_left: 9, bottom_right: 10 });
    assert_eq!(below, bilinear_taps(&src, 1, 2));
}

#[test]
fn uniform_source_gives_uniform_taps() {
    let c = [0.5f32, 0.5, 0.5];
    let src = Raster::new(2, 1, c).unwrap();
    for (x, y) in [(-1, -1), (0, 0), (1, 0), (5, 3)] {
        let t = bilinear_taps(&src, x, y);
        assert_eq!(t, Taps { top_left: c, top_right: c, bottom_left: c, bottom_right: c });
    }
}

#[test]
fn cross_offsets_follow_the_layout() {
    assert_eq!(get_cross_offset(CubeFace::Left, 10), (0, 10));
    assert_eq!(get_cross_offset(CubeFace::Front, 10), (10, 10));
    assert_eq!(get_cross_offset(CubeFace::Right, 10), (20, 10));
    assert_eq!(get_cross_offset(CubeFace::Back, 10), (30, 10));
    assert_eq!(get_cross_offset(CubeFace::Top, 10), (10, 0));
    assert_eq!(get_cross_offset(CubeFace::Bottom, 10), (10, 20));
    assert_eq!(cross_cell(CubeFace::Back), (3, 1));
    // Offsets fit in u32 whenever 3 * size does, even where 4 * size does not.
    let size = u32::MAX / 3;
    assert!(size > u32::MAX / 4);
    assert_eq!(get_cross_offset(CubeFace::Back, size), (3 * size, size));
    assert_eq!(get_cross_offset(CubeFace::Bottom, size), (size, 2 * size));
}

#[test]
fn compose_places_every_face_in_its_cell() {
    let size = 2u32;
    let faces: Vec<Raster<u32>> = all_faces()
        .iter()
        .map(|f| {
            let base = 100 * (f.index() as u32 + 1);
            Raster::from_pixels(size, size, (0..4).map(|k| base + k).collect()).unwrap()
        })
        .collect();
    let canvas = compose_cross(&faces, size, 0).unwrap();
    assert_eq!(canvas.width(), 8);
    assert_eq!(canvas.height(), 6);
    for face in all_faces() {
        let (ox, oy) = get_cross_offset(face, size);
        for y in 0..size {
            for x in 0..size {
                assert_eq!(canvas.get_pixel(ox + x, oy + y), faces[face.index()].get_pixel(x, y));
            }
        }
    }
    for (col, row) in [(0, 0), (2, 0), (3, 0), (0, 2), (2, 2), (3, 2)] {
        for y in 0..size {
            for x in 0..size {
                assert_eq!(canvas.get_pixel(col * size + x, row * size + y), 0);
            }
        }
    }
}

#[test]
fn uniform_faces_give_uniform_cross() {
    let c = [0.5f32, 0.5, 0.5];
    let bg = [0.0f32, 0.0, 0.0];
    let faces: Vec<Raster<[f32; 3]>> = (0..6).map(|_| Raster::new(3, 3, c).unwrap()).collect();
    let canvas = compose_cross(&faces, 3, bg).unwrap();
    for face in all_faces() {
        let (ox, oy) = get_cross_offset(face, 3);
        for y in 0..3 {
            for x in 0..3 {
                assert_eq!(canvas.get_pixel(ox + x, oy + y), c);
            }
        }
    }
    assert_eq!(canvas.get_pixel(0, 0), bg);
}

#[test]
fn zero_size_cross_is_empty() {
    let faces: Vec<Raster<u8>> = (0..6).map(|_| Raster::new(0, 0, 0u8).unwrap()).collect();
    let canvas = compose_cross(&faces, 0, 0).unwrap();
    assert_eq!((canvas.width(), canvas.height()), (0, 0));
    assert!(canvas.as_pixels().is_empty());
}

#[test]
fn cross_dimension_overflow_is_reported() {
    assert_eq!(cross_dimensions(512), Ok((2048, 1536)));
    // 4 * size no longer fits in u32.
    assert_eq!(cross_dimensions(1 << 30), Err(DimensionError::Overflow));
    // 4 * size fits, but 4s * 3s * 3 channel values do not fit in usize.
    assert_eq!(cross_dimensions(1_000_000_000), Err(DimensionError::Overflow));
    // Just under the channel limit the canvas is still addressable.
    assert_eq!(cross_dimensions(1 << 29), Ok((1 << 31, 3 << 29)));
    assert!(matches!(cross_dimensions(u32::MAX), Err(DimensionError::Overflow)));
    assert_eq!(pixel_count(u32::MAX, u32::MAX), Err(DimensionError::Overflow));
}

#[test]
fn raster_from_short_buffer_is_rejected() {
    let r = Raster::from_pixels(2, 2, vec![1u8, 2, 3]);
    assert!(matches!(r, Err(DimensionError::ShortBuffer { expected: 4, found: 3 })));
    let r = Raster::from_pixels(2, 1, vec![1u8, 2, 3]).unwrap();
    assert_eq!(r.as_pixels(), &vec![1u8, 2]);
}

#[test]
fn put_pixel_changes_one_pixel() {
    let mut r = Raster::new(3, 2, 0u8).unwrap();
    r.put_pixel(2, 1, 9);
    assert_eq!(r.as_pixels(), &vec![0u8, 0, 0, 0, 0, 9]);
    assert_eq!(r.get_pixel(2, 1), 9);
}

#[test]
fn ldr_buffer_checks() {
    assert_eq!(ldr_buffer_len(4, 3, 36), Ok(36));
    assert_eq!(ldr_buffer_len(4, 3, 40), Ok(36));
    assert_eq!(
        ldr_buffer_len(4, 3, 35),
        Err(DimensionError::ShortBuffer { expected: 36, found: 35 })
    );
    assert_eq!(ldr_buffer_len(u32::MAX, u32::MAX, 0), Err(DimensionError::Overflow));
}

#[test]
fn only_png_is_quantized() {
    assert!(OutputFormat::Png.quantizes());
    assert!(!OutputFormat::Exr.quantizes());
}
