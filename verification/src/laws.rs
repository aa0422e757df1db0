//! Laws of the pipeline: properties that relate its stages, stated and
//! proved over the same spec functions the stage contracts use.

use vstd::prelude::*;

use crate::camera::projection_spec;
use crate::fixed::{fx_div, fx_mul, fx_sub, FX_MAX_BITS};
use crate::linalg::{mat_apply, point_of, Vec3V, Vec4V};
use crate::model::model_view_spec;
use crate::model::TransformV;
use crate::pipeline::{det3, paint_spec, raster_spec, screen_tri, TriangleV};
use crate::rasterizer::{covered_tri, glyph_spec, lemma_cell_in_grid, ScreenTriV};

verus! {

/// The projection matrix's depth entries satisfy the standard form
/// exactly: row 2, column 2 holds `far / (far - near)`, and row 3,
/// column 2 holds `-(far * near) / (far - near)`, in fixed-point
/// arithmetic, for every valid parameter set.
pub proof fn lemma_projection_depth_entries(fovy: int, aspect_ratio: int, near: int, far: int)
    requires
        0 < near < far,
    ensures
        projection_spec(fovy, aspect_ratio, near, far).m22 == fx_div(far, fx_sub(far, near)),
        projection_spec(fovy, aspect_ratio, near, far).m32 == -fx_div(
            fx_mul(far, near),
            fx_sub(far, near),
        ),
        projection_spec(fovy, aspect_ratio, near, far).m23 == 65536,
{
}

/// The screen-space winding of a triangle's projected vertices, as the
/// 2D cross product of its edges after perspective division, scaled by
/// the positive factor `z0 * z0 * z1 * z2`: positive means the projected
/// vertices run counter-clockwise with x right and y up.
pub open spec fn winding2(t: TriangleV) -> int {
    (t.v1.x * t.v0.z - t.v0.x * t.v1.z) * (t.v2.y * t.v0.z - t.v0.y * t.v2.z) - (t.v1.y * t.v0.z
        - t.v0.y * t.v1.z) * (t.v2.x * t.v0.z - t.v0.x * t.v2.z)
}

/// The triangle with its winding reversed: the second and third vertices
/// exchanged.
pub open spec fn reversed(t: TriangleV) -> TriangleV {
    TriangleV { v0: t.v0, v1: t.v2, v2: t.v1 }
}

/// A product of two differences, expanded.
proof fn lemma_binomial(a: int, b: int, c: int, d: int)
    ensures
        (a - b) * (c - d) == a * c - a * d - (b * c - b * d),
{
    vstd::arithmetic::mul::lemma_mul_is_distributive_sub_other_way(c - d, a, b);
    vstd::arithmetic::mul::lemma_mul_is_distributive_sub(a, c, d);
    vstd::arithmetic::mul::lemma_mul_is_distributive_sub(b, c, d);
}

/// A product of two pair-products, brought to one canonical bracketing.
proof fn lemma_prod4(a: int, b: int, c: int, d: int)
    ensures
        (a * c) * (b * d) == ((a * b) * c) * d,
{
    vstd::arithmetic::mul::lemma_mul_is_associative(a * c, b, d);
    vstd::arithmetic::mul::lemma_mul_is_associative(a, c, b);
    vstd::arithmetic::mul::lemma_mul_is_commutative(c, b);
    vstd::arithmetic::mul::lemma_mul_is_associative(a, b, c);
}

/// The two outermost factors of a triple product may change places.
proof fn lemma_swap_last(e: int, u: int, v: int)
    ensures
        (e * u) * v == (e * v) * u,
{
    vstd::arithmetic::mul::lemma_mul_is_associative(e, u, v);
    vstd::arithmetic::mul::lemma_mul_is_commutative(u, v);
    vstd::arithmetic::mul::lemma_mul_is_associative(e, v, u);
}

/// An edge term of the winding, rewritten over edge-vector components:
/// `p*r - q*s == (p-q)*r - (s-r)*q`.
proof fn lemma_edge_term(p: int, q: int, r: int, s: int)
    ensures
        p * r - q * s == (p - q) * r - (s - r) * q,
{
    vstd::arithmetic::mul::lemma_mul_is_distributive_sub_other_way(r, p, q);
    vstd::arithmetic::mul::lemma_mul_is_distributive_sub_other_way(q, s, r);
    vstd::arithmetic::mul::lemma_mul_is_commutative(s, q);
    vstd::arithmetic::mul::lemma_mul_is_commutative(r, q);
}

/// The screen winding and the backface test's signed volume agree up to
/// the first vertex's positive depth: `winding2 == z0 * det3`.
proof fn lemma_winding_det(t: TriangleV)
    ensures
        winding2(t) == t.v0.z * det3(t),
{
    let x0 = t.v0.x;
    let y0 = t.v0.y;
    let z0 = t.v0.z;
    let x1 = t.v1.x;
    let y1 = t.v1.y;
    let z1 = t.v1.z;
    let x2 = t.v2.x;
    let y2 = t.v2.y;
    let z2 = t.v2.z;
    let ax = x1 - x0;
    let ay = y1 - y0;
    let az = z1 - z0;
    let bx = x2 - x0;
    let by = y2 - y0;
    let bz = z2 - z0;
    // Each winding edge term over the edge vectors.
    lemma_edge_term(x1, x0, z0, z1);
    assert(x1 * z0 - x0 * z1 == ax * z0 - az * x0);
    lemma_edge_term(y2, y0, z0, z2);
    assert(y2 * z0 - y0 * z2 == by * z0 - bz * y0);
    lemma_edge_term(y1, y0, z0, z1);
    assert(y1 * z0 - y0 * z1 == ay * z0 - az * y0);
    lemma_edge_term(x2, x0, z0, z2);
    assert(x2 * z0 - x0 * z2 == bx * z0 - bz * x0);
    // Expand the two binomial products into canonical monomials.
    lemma_binomial(ax * z0, az * x0, by * z0, bz * y0);
    lemma_prod4(ax, by, z0, z0);
    lemma_prod4(ax, bz, z0, y0);
    lemma_prod4(az, by, x0, z0);
    lemma_prod4(az, bz, x0, y0);
    let t1 = ((ax * by) * z0) * z0;
    let t2 = ((ax * bz) * z0) * y0;
    let t3 = ((az * by) * x0) * z0;
    let t4 = ((az * bz) * x0) * y0;
    assert((ax * z0 - az * x0) * (by * z0 - bz * y0) == t1 - t2 - (t3 - t4));
    lemma_binomial(ay * z0, az * y0, bx * z0, bz * x0);
    lemma_prod4(ay, bx, z0, z0);
    lemma_prod4(ay, bz, z0, x0);
    lemma_prod4(az, bx, y0, z0);
    lemma_prod4(az, bz, y0, x0);
    let u1 = ((ay * bx) * z0) * z0;
    let u2 = ((ay * bz) * z0) * x0;
    let u3 = ((az * bx) * y0) * z0;
    let u4 = ((az * bz) * y0) * x0;
    assert((ay * z0 - az * y0) * (bx * z0 - bz * x0) == u1 - u2 - (u3 - u4));
    lemma_swap_last(az * bz, x0, y0);
    assert(t4 == u4);
    // Expand z0 times the signed volume into the same monomials.
    let e1 = ay * bz - az * by;
    let e2 = az * bx - ax * bz;
    let e3 = ax * by - ay * bx;
    assert(det3(t) == e1 * x0 + e2 * y0 + e3 * z0);
    vstd::arithmetic::mul::lemma_mul_is_commutative(z0, det3(t));
    vstd::arithmetic::mul::lemma_mul_is_distributive_add_other_way(z0, e1 * x0 + e2 * y0, e3 * z0);
    vstd::arithmetic::mul::lemma_mul_is_distributive_add_other_way(z0, e1 * x0, e2 * y0);
    vstd::arithmetic::mul::lemma_mul_is_distributive_sub_other_way(x0, ay * bz, az * by);
    vstd::arithmetic::mul::lemma_mul_is_distributive_sub_other_way(y0, az * bx, ax * bz);
    vstd::arithmetic::mul::lemma_mul_is_distributive_sub_other_way(z0, ax * by, ay * bx);
    vstd::arithmetic::mul::lemma_mul_is_distributive_sub_other_way(z0, (ay * bz) * x0, (az * by) * x0);
    vstd::arithmetic::mul::lemma_mul_is_distributive_sub_other_way(z0, (az * bx) * y0, (ax * bz) * y0);
    vstd::arithmetic::mul::lemma_mul_is_distributive_sub_other_way(z0, (ax * by) * z0, (ay * bx) * z0);
    lemma_swap_last(ay * bz, x0, z0);
    lemma_swap_last(az * bx, y0, z0);
    lemma_swap_last(ax * bz, y0, z0);
    assert((e1 * x0) * z0 == u2 - t3);
    assert((e2 * y0) * z0 == u3 - t2);
    assert((e3 * z0) * z0 == t1 - u1);
    assert(z0 * det3(t) == u2 - t3 + (u3 - t2) + (t1 - u1));
    assert(winding2(t) == t1 - t2 - (t3 - t4) - (u1 - u2 - (u3 - u4)));
}

/// A triangle in front of the camera (every vertex at positive depth)
/// whose projected vertices wind counter-clockwise passes the backface
/// test: the test keeps it.
pub proof fn lemma_backface_keeps_ccw(t: TriangleV)
    requires
        t.v0.z > 0,
        t.v1.z > 0,
        t.v2.z > 0,
        winding2(t) > 0,
    ensures
        det3(t) > 0,
{
    lemma_winding_det(t);
    assert(det3(t) > 0) by (nonlinear_arith)
        requires
            t.v0.z > 0,
            t.v0.z * det3(t) > 0,
    ;
}

/// The mirror image: clockwise projected winding at positive depth means
/// the backface test discards the triangle.
pub proof fn lemma_backface_culls_cw(t: TriangleV)
    requires
        t.v0.z > 0,
        t.v1.z > 0,
        t.v2.z > 0,
        winding2(t) < 0,
    ensures
        det3(t) < 0,
{
    lemma_winding_det(t);
    assert(det3(t) < 0) by (nonlinear_arith)
        requires
            t.v0.z > 0,
            t.v0.z * det3(t) < 0,
    ;
}

/// Reversing a triangle's winding negates the backface test's signed
/// volume, so on any triangle the test does not leave at zero, reversing
/// the winding flips the test's outcome.
pub proof fn lemma_backface_flip(t: TriangleV)
    ensures
        det3(reversed(t)) == -det3(t),
        det3(t) != 0 ==> ((det3(t) >= 0) != (det3(reversed(t)) >= 0)),
{
    let x0 = t.v0.x;
    let y0 = t.v0.y;
    let z0 = t.v0.z;
    let x1 = t.v1.x;
    let y1 = t.v1.y;
    let z1 = t.v1.z;
    let x2 = t.v2.x;
    let y2 = t.v2.y;
    let z2 = t.v2.z;
    assert(((y2 - y0) * (z1 - z0) - (z2 - z0) * (y1 - y0)) * x0 + ((z2 - z0) * (x1 - x0) - (x2
        - x0) * (z1 - z0)) * y0 + ((x2 - x0) * (y1 - y0) - (y2 - y0) * (x1 - x0)) * z0 == -(((y1
        - y0) * (z2 - z0) - (z1 - z0) * (y2 - y0)) * x0 + ((z1 - z0) * (x2 - x0) - (x1 - x0) * (z2
        - z0)) * y0 + ((x1 - x0) * (y2 - y0) - (y1 - y0) * (x2 - x0)) * z0)) by (nonlinear_arith);
}

/// A cell a triangle covers always lies inside the frame: the scanline
/// bounds are clamped, so no coverage — not even of a triangle whose
/// perspective divide saturated — names a cell out of bounds.
pub proof fn lemma_covered_in_frame(t: ScreenTriV, w: int, h: int, x: int, y: int)
    requires
        0 <= w,
        0 <= h,
        covered_tri(t, w, h, x, y),
    ensures
        0 <= x < w,
        0 <= y < h,
{
}

/// A zero-height triangle — all three vertices on one row — covers no
/// cell at all: rasterizing it fills nothing (and, the fill being total
/// verified code, neither panics nor divides by zero).
pub proof fn lemma_zero_height_covers_nothing(t: ScreenTriV, w: int, h: int, x: int, y: int)
    requires
        t.v0.y == t.v1.y,
        t.v1.y == t.v2.y,
    ensures
        !covered_tri(t, w, h, x, y),
{
}

/// Last writer wins: if the triangle at position `j` covers a cell and no
/// later triangle covers it, the rasterized frame shows `j`'s glyph at
/// that cell, whatever earlier triangles covered it.
pub proof fn lemma_last_writer_wins(
    ts: Seq<TriangleV>,
    ox: int,
    oy: int,
    w: int,
    h: int,
    x: int,
    y: int,
    j: int,
)
    requires
        0 <= x < w <= 32768,
        0 <= y < h <= 32768,
        0 <= j < ts.len(),
        covered_tri(screen_tri(ts[j], ox, oy), w, h, x, y),
        forall|k: int|
            j < k < ts.len() ==> !covered_tri(screen_tri(ts[k], ox, oy), w, h, x, y),
    ensures
        raster_spec(ts, ox, oy, w, h)[y * w + x] == glyph_spec(j),
    decreases ts.len(),
{
    lemma_cell_in_grid(w, h, x, y);
    let idx = y * w + x;
    vstd::arithmetic::div_mod::lemma_fundamental_div_mod_converse(idx, w, y, x);
    let rest = raster_spec(ts.drop_last(), ox, oy, w, h);
    let last_screen = screen_tri(ts.last(), ox, oy);
    assert(raster_spec(ts, ox, oy, w, h) == paint_spec(
        rest,
        last_screen,
        glyph_spec(ts.len() - 1),
        w,
        h,
    ));
    if j == ts.len() - 1 {
        assert(covered_tri(last_screen, w, h, idx % w, idx / w));
        assert(raster_spec(ts, ox, oy, w, h)[idx] == glyph_spec(j));
    } else {
        assert(!covered_tri(last_screen, w, h, x, y));
        assert(ts.drop_last()[j] == ts[j]);
        assert forall|k: int|
            j < k < ts.drop_last().len() implies !covered_tri(
            screen_tri(ts.drop_last()[k], ox, oy),
            w,
            h,
            x,
            y,
        ) by {
            assert(ts.drop_last()[k] == ts[k]);
        };
        lemma_last_writer_wins(ts.drop_last(), ox, oy, w, h, x, y, j);
        assert(raster_spec(ts, ox, oy, w, h)[idx] == rest[idx]);
    }
}

/// Two overlapping triangles submitted in order: at any cell both cover,
/// the final glyph is the second one's.
pub proof fn lemma_second_triangle_wins(
    a: TriangleV,
    b: TriangleV,
    ox: int,
    oy: int,
    w: int,
    h: int,
    x: int,
    y: int,
)
    requires
        0 <= x < w <= 32768,
        0 <= y < h <= 32768,
        covered_tri(screen_tri(a, ox, oy), w, h, x, y),
        covered_tri(screen_tri(b, ox, oy), w, h, x, y),
    ensures
        raster_spec(seq![a, b], ox, oy, w, h)[y * w + x] == glyph_spec(1),
{
    let ts = seq![a, b];
    assert(ts[1] == b);
    lemma_last_writer_wins(ts, ox, oy, w, h, x, y, 1);
}

/// The identity transform — no translation, unit scale, no rotation —
/// yields a model-view matrix that carries every representable
/// homogeneous point to itself exactly: the round trip changes nothing.
pub proof fn lemma_identity_round_trip(v: Vec4V)
    requires
        -(FX_MAX_BITS as int) <= v.x <= FX_MAX_BITS as int,
        -(FX_MAX_BITS as int) <= v.y <= FX_MAX_BITS as int,
        -(FX_MAX_BITS as int) <= v.z <= FX_MAX_BITS as int,
        -(FX_MAX_BITS as int) <= v.w <= FX_MAX_BITS as int,
    ensures
        mat_apply(
            model_view_spec(
                TransformV {
                    translation: Vec3V { x: 0, y: 0, z: 0 },
                    scale: Vec3V { x: 65536, y: 65536, z: 65536 },
                    rotation: Vec3V { x: 0, y: 0, z: 0 },
                },
            ),
            v,
        ) == v,
{
    crate::trig::lemma_sin_zero();
    crate::trig::lemma_cos_zero();
    let m = model_view_spec(
        TransformV {
            translation: Vec3V { x: 0, y: 0, z: 0 },
            scale: Vec3V { x: 65536, y: 65536, z: 65536 },
            rotation: Vec3V { x: 0, y: 0, z: 0 },
        },
    );
    assert(m.m00 == 65536);
    assert(m.m11 == 65536);
    assert(m.m22 == 65536);
    assert(m.m33 == 65536);
    lemma_fx_mul_one(v.x);
    lemma_fx_mul_one(v.y);
    lemma_fx_mul_one(v.z);
    lemma_fx_mul_one(v.w);
}

/// A 3D point lifted to homogeneous coordinates comes back unchanged from
/// the identity transform: the mesh round trip is exact.
pub proof fn lemma_identity_transform_point(p: Vec3V)
    requires
        -(FX_MAX_BITS as int) <= p.x <= FX_MAX_BITS as int,
        -(FX_MAX_BITS as int) <= p.y <= FX_MAX_BITS as int,
        -(FX_MAX_BITS as int) <= p.z <= FX_MAX_BITS as int,
    ensures
        mat_apply(
            model_view_spec(
                TransformV {
                    translation: Vec3V { x: 0, y: 0, z: 0 },
                    scale: Vec3V { x: 65536, y: 65536, z: 65536 },
                    rotation: Vec3V { x: 0, y: 0, z: 0 },
                },
            ),
            point_of(p),
        ) == point_of(p),
{
    lemma_identity_round_trip(point_of(p));
}

/// Multiplying a representable fixed-point value by one returns it
/// exactly.
proof fn lemma_fx_mul_one(a: int)
    requires
        -(FX_MAX_BITS as int) <= a <= FX_MAX_BITS as int,
    ensures
        fx_mul(a, 65536) == a,
{
    if a > 0 {
        vstd::arithmetic::div_mod::lemma_div_by_multiple(a, 65536);
    } else if a < 0 {
        vstd::arithmetic::div_mod::lemma_div_by_multiple(-a, 65536);
        assert((a * 65536) * -1 == (-a) * 65536) by (nonlinear_arith);
    }
}

} // verus!

