//! Scanline rasterization: exact fills, overwrite order, degenerate
//! triangles, and saturated coordinates.

use term3d::fixed::Fx;
use term3d::linalg::{FxVec2, FxVec4};
use term3d::pipeline::{Pipeline, Triangle};
use term3d::rasterizer::{draw_triangle, glyph_for, FrameBuffer, ScreenSpaceTriangle, BACKGROUND_GLYPH};

/// A screen point at whole pixel coordinates.
fn pt(x: i32, y: i32) -> FxVec2 {
    FxVec2::new(Fx::from_int(x), Fx::from_int(y))
}

/// The first covered column/row at or past `v`, as the rasterizer rounds.
fn ceil_half(v: f64) -> i64 {
    (v - 0.5).ceil() as i64
}

#[test]
fn fresh_frame_is_all_background() {
    let fb = FrameBuffer::new(80, 32);
    assert_eq!(fb.width(), 80);
    assert_eq!(fb.height(), 32);
    for y in 0..32 {
        for x in 0..80 {
            assert_eq!(fb.glyph_at(x, y), BACKGROUND_GLYPH);
        }
    }
}

#[test]
fn put_overwrites_one_cell_only() {
    let mut fb = FrameBuffer::new(10, 5);
    fb.put(3, 2, b'Z');
    for y in 0..5 {
        for x in 0..10 {
            let want = if (x, y) == (3, 2) { b'Z' } else { BACKGROUND_GLYPH };
            assert_eq!(fb.glyph_at(x, y), want);
        }
    }
    let row = fb.row_bytes(2);
    assert_eq!(row.len(), 10);
    assert_eq!(row[3], b'Z');
    assert_eq!(row[0], BACKGROUND_GLYPH);
}

#[test]
fn flat_bottom_triangle_fills_the_interpolated_span() {
    // The triangle (40,10), (35,20), (45,20) into an 80 x 32 frame:
    // rows 10..20, each row bounded by the two edges from the apex.
    let mut fb = FrameBuffer::new(80, 32);
    let tri = ScreenSpaceTriangle::new(pt(40, 10), pt(35, 20), pt(45, 20));
    draw_triangle(&mut fb, &tri, 0);
    let glyph = glyph_for(0);
    for y in 0..32i64 {
        for x in 0..80i64 {
            let covered = if (10..20).contains(&y) {
                let dy = y as f64 + 0.5 - 10.0;
                let left = 40.0 - 0.5 * dy;
                let right = 40.0 + 0.5 * dy;
                ceil_half(left) <= x && x < ceil_half(right)
            } else {
                false
            };
            let want = if covered { glyph } else { BACKGROUND_GLYPH };
            assert_eq!(
                fb.glyph_at(x as usize, y as usize),
                want,
                "cell ({}, {})",
                x,
                y
            );
        }
    }
}

#[test]
fn flat_top_triangle_fills_the_interpolated_span() {
    // The triangle (35,10), (45,10), (40,20): rows 10..20, edges running
    // from the two top vertices down to the apex.
    let mut fb = FrameBuffer::new(80, 32);
    let tri = ScreenSpaceTriangle::new(pt(45, 10), pt(40, 20), pt(35, 10));
    draw_triangle(&mut fb, &tri, 0);
    let glyph = glyph_for(0);
    for y in 0..32i64 {
        for x in 0..80i64 {
            let covered = if (10..20).contains(&y) {
                let dy = y as f64 + 0.5 - 10.0;
                let left = 35.0 + 0.5 * dy;
                let right = 45.0 - 0.5 * dy;
                ceil_half(left) <= x && x < ceil_half(right)
            } else {
                false
            };
            let want = if covered { glyph } else { BACKGROUND_GLYPH };
            assert_eq!(
                fb.glyph_at(x as usize, y as usize),
                want,
                "cell ({}, {})",
                x,
                y
            );
        }
    }
}

#[test]
fn later_triangle_overwrites_earlier_where_they_overlap() {
    let mut fb = FrameBuffer::new(80, 32);
    let a = ScreenSpaceTriangle::new(pt(10, 5), pt(5, 15), pt(15, 15));
    let b = ScreenSpaceTriangle::new(pt(12, 5), pt(7, 15), pt(17, 15));
    draw_triangle(&mut fb, &a, 0);
    draw_triangle(&mut fb, &b, 1);
    // row 10: a covers columns 7..13, b covers 9..15
    assert_eq!(fb.glyph_at(10, 10), glyph_for(1));
    assert_eq!(fb.glyph_at(12, 10), glyph_for(1));
    // covered by a alone: keeps a's glyph
    assert_eq!(fb.glyph_at(7, 10), glyph_for(0));
    assert_eq!(fb.glyph_at(8, 10), glyph_for(0));
    // covered by b alone
    assert_eq!(fb.glyph_at(14, 10), glyph_for(1));
    // covered by neither
    assert_eq!(fb.glyph_at(30, 10), BACKGROUND_GLYPH);
}

#[test]
fn zero_height_triangle_fills_nothing() {
    let mut fb = FrameBuffer::new(80, 32);
    let tri = ScreenSpaceTriangle::new(pt(10, 7), pt(20, 7), pt(15, 7));
    draw_triangle(&mut fb, &tri, 0);
    for y in 0..32 {
        for x in 0..80 {
            assert_eq!(fb.glyph_at(x, y), BACKGROUND_GLYPH);
        }
    }
}

#[test]
fn triangle_far_outside_the_frame_is_clamped_away() {
    let mut fb = FrameBuffer::new(20, 10);
    let tri = ScreenSpaceTriangle::new(pt(100, -50), pt(90, 200), pt(300, 200));
    draw_triangle(&mut fb, &tri, 0);
    for y in 0..10 {
        for x in 0..20 {
            assert_eq!(fb.glyph_at(x, y), BACKGROUND_GLYPH);
        }
    }
}

#[test]
fn zero_depth_vertex_saturates_and_stays_in_bounds() {
    // A clip-space vertex at z = 0 makes 1/z saturate; the fill must
    // clamp the huge coordinates and not touch anything out of range.
    let pipeline = Pipeline::new(80, 32);
    let t = Triangle::new(
        FxVec4::new(Fx::one(), Fx::one(), Fx::zero(), Fx::one()),
        FxVec4::new(Fx::from_int(2), Fx::one(), Fx::one(), Fx::one()),
        FxVec4::new(Fx::one(), Fx::from_int(2), Fx::one(), Fx::one()),
    );
    let fb = pipeline.triangle_resterizer(vec![t]);
    assert_eq!(fb.width(), 80);
    assert_eq!(fb.height(), 32);
    // reading every cell exercises the whole grid
    let mut filled = 0u32;
    for y in 0..32 {
        for x in 0..80 {
            if fb.glyph_at(x, y) != BACKGROUND_GLYPH {
                filled += 1;
            }
        }
    }
    assert!(filled <= 80 * 32);
}

#[test]
fn palette_glyphs_cycle_in_draw_order() {
    assert_eq!(glyph_for(0), b'X');
    assert_eq!(glyph_for(1), b'A');
    assert_eq!(glyph_for(2), b'@');
    assert_eq!(glyph_for(3), b'#');
    assert_eq!(glyph_for(4), b'$');
    assert_eq!(glyph_for(5), b'%');
    assert_eq!(glyph_for(6), b'X');
    assert_eq!(glyph_for(13), b'A');
}
