//! Scanline triangle rasterization into a character-grid frame buffer.
//!
//! A triangle's vertices are sorted by ascending y, the triangle is split
//! at the middle vertex into a flat-bottom and a flat-top part, and each
//! part is filled one scanline at a time. Row and column bounds come from
//! pixel-center sampling: a coordinate `v` covers the cells from
//! `ceil(v - 1/2)` on, so adjacent triangles meet without seams. Every
//! bound is clamped to the frame before any write, so triangles lying
//! partly or wholly outside the frame — including ones whose perspective
//! divide saturated — never write out of bounds.

use vstd::prelude::*;

use crate::fixed::Fx;
use crate::fixed::{fx_add, fx_clip, fx_div, fx_mul, fx_sub};
use crate::linalg::{FxVec2, Vec2V};

verus! {

/// The glyph an untouched cell shows.
pub const BACKGROUND_GLYPH: u8 = 32;

/// The largest frame side the rasterizer accepts.
pub const MAX_FRAME_SIDE: usize = 32768;

/// A grid of glyphs, one byte per cell, row-major.
#[derive(Debug)]
pub struct FrameBuffer {
    width: usize,
    height: usize,
    cells: Vec<u8>,
}

/// A triangle already in screen space: three 2D points in pixel units.
#[derive(Clone, Copy, Debug, PartialEq, Eq, Structural)]
pub struct ScreenSpaceTriangle {
    pub v0: FxVec2,
    pub v1: FxVec2,
    pub v2: FxVec2,
}

/// The mathematical value of a screen-space triangle.
pub ghost struct ScreenTriV {
    pub v0: Vec2V,
    pub v1: Vec2V,
    pub v2: Vec2V,
}

impl View for ScreenSpaceTriangle {
    type V = ScreenTriV;

    open spec fn view(&self) -> ScreenTriV {
        ScreenTriV { v0: self.v0@, v1: self.v1@, v2: self.v2@ }
    }
}

impl ScreenSpaceTriangle {
    pub fn new(v0: FxVec2, v1: FxVec2, v2: FxVec2) -> (r: ScreenSpaceTriangle)
        ensures
            r@ == (ScreenTriV { v0: v0@, v1: v1@, v2: v2@ }),
    {
        ScreenSpaceTriangle { v0, v1, v2 }
    }
}

/// An all-background grid of the given dimensions.
pub open spec fn blank_grid(w: int, h: int) -> Seq<u8> {
    Seq::new((w * h) as nat, |i: int| BACKGROUND_GLYPH)
}

impl FrameBuffer {
    /// The frame's dimensions stay within `MAX_FRAME_SIDE` and the cell
    /// vector holds exactly one byte per cell.
    #[verifier::type_invariant]
    pub open spec fn wf(&self) -> bool {
        &&& self.grid().len() == self.wid() * self.hei()
        &&& 0 <= self.wid() <= MAX_FRAME_SIDE
        &&& 0 <= self.hei() <= MAX_FRAME_SIDE
    }

    /// The frame's width in cells.
    pub closed spec fn wid(&self) -> int {
        self.width as int
    }

    /// The frame's height in cells.
    pub closed spec fn hei(&self) -> int {
        self.height as int
    }

    /// The cells, row-major.
    pub closed spec fn grid(&self) -> Seq<u8> {
        self.cells@
    }

    /// The glyph at column `x` of row `y`.
    pub open spec fn cell(&self, x: int, y: int) -> u8 {
        self.grid()[y * self.wid() + x]
    }

    /// A fresh frame, every cell at the background glyph.
    pub fn new(width: usize, height: usize) -> (r: FrameBuffer)
        requires
            width <= MAX_FRAME_SIDE,
            height <= MAX_FRAME_SIDE,
        ensures
            r.wid() == width,
            r.hei() == height,
            r.grid() == blank_grid(width as int, height as int),
    {
        proof {
            assert(width * height <= 0x4000_0000) by (nonlinear_arith)
                requires
                    width <= 32768,
                    height <= 32768,
            ;
        }
        let n = width * height;
        let mut cells: Vec<u8> = Vec::new();
        let mut i: usize = 0;
        while i < n
            invariant
                i <= n,
                cells@.len() == i,
                forall|j: int| 0 <= j < i ==> cells@[j] == BACKGROUND_GLYPH,
            decreases n - i,
        {
            cells.push(BACKGROUND_GLYPH);
            i = i + 1;
        }
        let r = FrameBuffer { width, height, cells };
        proof {
            assert(r.grid() =~= blank_grid(width as int, height as int));
        }
        r
    }

    /// The frame's width.
    pub fn width(&self) -> (w: usize)
        ensures
            w == self.wid(),
    {
        self.width
    }

    /// The frame's height.
    pub fn height(&self) -> (h: usize)
        ensures
            h == self.hei(),
    {
        self.height
    }

    /// The glyph at a cell.
    pub fn glyph_at(&self, x: usize, y: usize) -> (g: u8)
        requires
            x < self.wid(),
            y < self.hei(),
        ensures
            g == self.cell(x as int, y as int),
    {
        proof {
            use_type_invariant(self);
            lemma_cell_in_grid(self.wid(), self.hei(), x as int, y as int);
        }
        self.cells[y * self.width + x]
    }

    /// One row of the frame, left to right.
    pub fn row_bytes(&self, y: usize) -> (r: Vec<u8>)
        requires
            y < self.hei(),
        ensures
            r@.len() == self.wid(),
            forall|x: int| 0 <= x < self.wid() ==> r@[x] == self.cell(x, y as int),
    {
        let w = self.width;
        let mut r: Vec<u8> = Vec::new();
        let mut x: usize = 0;
        while x < w
            invariant
                x <= w,
                w == self.wid(),
                y < self.hei(),
                r@.len() == x,
                forall|j: int| 0 <= j < x ==> r@[j] == self.cell(j, y as int),
            decreases w - x,
        {
            r.push(self.glyph_at(x, y));
            x = x + 1;
        }
        r
    }

    /// Write one glyph, overwriting whatever the cell held.
    pub fn put(&mut self, x: usize, y: usize, g: u8)
        requires
            x < old(self).wid(),
            y < old(self).hei(),
        ensures
            final(self).wid() == old(self).wid(),
            final(self).hei() == old(self).hei(),
            final(self).grid() == old(self).grid().update(
                y * old(self).wid() + x,
                g,
            ),
    {
        proof {
            use_type_invariant(&*self);
            lemma_cell_in_grid(self.wid(), self.hei(), x as int, y as int);
        }
        let idx = y * self.width + x;
        self.cells[idx] = g;
    }
}

/// A cell's index lies inside the grid.
pub proof fn lemma_cell_in_grid(w: int, h: int, x: int, y: int)
    requires
        0 <= x < w,
        0 <= y < h,
        w <= 32768,
        h <= 32768,
    ensures
        0 <= y * w + x < w * h,
        y * w + x <= 0x4000_0000,
{
    assert(0 <= y * w + x < w * h && y * w + x <= 0x4000_0000) by (nonlinear_arith)
        requires
            0 <= x < w,
            0 <= y < h,
            w <= 32768,
            h <= 32768,
    ;
}

/// The first pixel row (or column) at or past a fixed-point coordinate
/// under pixel-center sampling: `ceil(v - 1/2)` in whole pixels.
pub open spec fn pix(v: int) -> int {
    (v + 32767) / 65536
}

/// The pixel bound clamped into `[0, limit]`.
pub open spec fn clamp_pix(v: int, limit: int) -> int {
    let p = pix(v);
    if p < 0 {
        0
    } else if p > limit {
        limit
    } else {
        p
    }
}

/// The fixed-point coordinate of a pixel row's center.
pub open spec fn row_center(y: int) -> int {
    fx_clip(y * 65536 + 32768)
}

/// The inverse slope `dx/dy` between two points.
pub open spec fn slope(ax: int, ay: int, bx: int, by: int) -> int {
    fx_div(fx_sub(bx, ax), fx_sub(by, ay))
}

/// Where an edge through `(vx, vy)` with inverse slope `m` crosses the
/// center of pixel row `y`.
pub open spec fn edge_x(vx: int, vy: int, m: int, y: int) -> int {
    fx_add(fx_mul(m, fx_sub(row_center(y), vy)), vx)
}

/// Whether a flat-bottom fill covers the cell `(x, y)` of a `w` by `h`
/// frame. `v0` is the apex, `v1` and `v2` the left and right ends of the
/// bottom edge; both edges are walked from `v0`.
pub open spec fn covered_fb(v0: Vec2V, v1: Vec2V, v2: Vec2V, w: int, h: int, x: int, y: int) -> bool {
    let m0 = slope(v0.x, v0.y, v1.x, v1.y);
    let m1 = slope(v0.x, v0.y, v2.x, v2.y);
    let ys = clamp_pix(v0.y, h);
    let ye = clamp_pix(v2.y, h);
    let xs = clamp_pix(edge_x(v0.x, v0.y, m0, y), w);
    let xe = clamp_pix(edge_x(v0.x, v0.y, m1, y), w);
    ys <= y < ye && xs <= x < xe
}

/// Whether a flat-top fill covers the cell `(x, y)`. `v0` and `v1` are
/// the left and right ends of the top edge, `v2` the low vertex; the two
/// edges are walked from `v0` and `v1` respectively.
pub open spec fn covered_ft(v0: Vec2V, v1: Vec2V, v2: Vec2V, w: int, h: int, x: int, y: int) -> bool {
    let m0 = slope(v0.x, v0.y, v2.x, v2.y);
    let m1 = slope(v1.x, v1.y, v2.x, v2.y);
    let ys = clamp_pix(v0.y, h);
    let ye = clamp_pix(v2.y, h);
    let xs = clamp_pix(edge_x(v0.x, v0.y, m0, y), w);
    let xe = clamp_pix(edge_x(v1.x, v1.y, m1, y), w);
    ys <= y < ye && xs <= x < xe
}

/// The pixel bound of a coordinate, clamped into `[0, limit]`.
fn clamp_pix_ex(v: Fx, limit: usize) -> (r: usize)
    requires
        limit <= MAX_FRAME_SIDE,
    ensures
        r == clamp_pix(v@, limit as int),
        r <= limit,
{
    proof {
        use_type_invariant(v);
    }
    let b = v.bits();
    let p = match (b + 32767).checked_div_euclid(65536) {
        Some(p) => p,
        None => 0,  // unreachable: the divisor is a positive constant
    };
    if p < 0 {
        0
    } else if p > limit as i64 {
        limit
    } else {
        p as usize
    }
}

/// The fixed-point center of a pixel row.
fn row_center_ex(y: usize) -> (r: Fx)
    requires
        y <= MAX_FRAME_SIDE,
    ensures
        r@ == row_center(y as int),
{
    Fx::from_bits((y as i64) * 65536 + 32768)
}

/// Fill a triangle whose bottom edge is horizontal. `v0` is the apex,
/// `v1` and `v2` the left and right bottom vertices.
pub fn draw_flat_bottom_triangle(
    fb: &mut FrameBuffer,
    v0: FxVec2,
    v1: FxVec2,
    v2: FxVec2,
    glyph: u8,
)
    ensures
        final(fb).wid() == old(fb).wid(),
        final(fb).hei() == old(fb).hei(),
        forall|xx: int, yy: int|
            0 <= xx < old(fb).wid() && 0 <= yy < old(fb).hei() ==> #[trigger] final(fb).cell(
                xx,
                yy,
            ) == if covered_fb(v0@, v1@, v2@, old(fb).wid(), old(fb).hei(), xx, yy) {
                glyph
            } else {
                old(fb).cell(xx, yy)
            },
{
    proof {
        use_type_invariant(&*fb);
    }
    let ghost w = fb.wid();
    let ghost h = fb.hei();
    let ghost orig = *fb;
    let m0 = v1.x.sub(v0.x).div(v1.y.sub(v0.y));
    let m1 = v2.x.sub(v0.x).div(v2.y.sub(v0.y));
    let height = fb.height();
    let width = fb.width();
    let ys = clamp_pix_ex(v0.y, height);
    let ye = clamp_pix_ex(v2.y, height);
    let mut y = ys;
    while y < ye
        invariant
            fb.wid() == w,
            fb.hei() == h,
            w <= MAX_FRAME_SIDE,
            h <= MAX_FRAME_SIDE,
            width == w,
            height == h,
            m0@ == slope(v0@.x, v0@.y, v1@.x, v1@.y),
            m1@ == slope(v0@.x, v0@.y, v2@.x, v2@.y),
            ys == clamp_pix(v0@.y, h),
            ye == clamp_pix(v2@.y, h),
            ys <= y,
            y <= ye || y == ys,
            ye <= h,
            forall|xx: int, yy: int|
                0 <= xx < w && 0 <= yy < h ==> #[trigger] fb.cell(xx, yy) == if covered_fb(
                    v0@,
                    v1@,
                    v2@,
                    w,
                    h,
                    xx,
                    yy,
                ) && yy < y {
                    glyph
                } else {
                    orig.cell(xx, yy)
                },
        decreases ye - y,
    {
        let yc = row_center_ex(y);
        let dy = yc.sub(v0.y);
        let px0 = m0.mul(dy).add(v0.x);
        let px1 = m1.mul(dy).add(v0.x);
        let xs = clamp_pix_ex(px0, width);
        let xe = clamp_pix_ex(px1, width);
        let ghost row_start = *fb;
        let mut x = xs;
        while x < xe
            invariant
                fb.wid() == w,
                fb.hei() == h,
                w <= MAX_FRAME_SIDE,
                h <= MAX_FRAME_SIDE,
                width == w,
                y < h,
                xs <= x <= xe || x == xs,
                xe <= w,
                xs == clamp_pix(edge_x(v0@.x, v0@.y, m0@, y as int), w),
                xe == clamp_pix(edge_x(v0@.x, v0@.y, m1@, y as int), w),
                forall|xx: int, yy: int|
                    0 <= xx < w && 0 <= yy < h ==> #[trigger] fb.cell(xx, yy) == if yy == y
                        && xs <= xx < x {
                        glyph
                    } else {
                        row_start.cell(xx, yy)
                    },
            decreases xe - x,
        {
            let ghost prev = *fb;
            proof {
                use_type_invariant(&*fb);
                lemma_cell_in_grid(w, h, x as int, y as int);
            }
            fb.put(x, y, glyph);
            proof {
                let idx = (y as int) * w + (x as int);
                assert(fb.grid() == prev.grid().update(idx, glyph));
                assert(prev.grid().len() == w * h);
                assert forall|xx: int, yy: int| 0 <= xx < w && 0 <= yy < h implies #[trigger] fb.cell(
                    xx,
                    yy,
                ) == (if yy == y as int && xs <= xx < x + 1 {
                    glyph
                } else {
                    row_start.cell(xx, yy)
                }) by {
                    lemma_cell_in_grid(w, h, xx, yy);
                    if !(xx == x as int && yy == y as int) {
                        lemma_cell_index_injective(w, xx, yy, x as int, y as int);
                        assert(fb.cell(xx, yy) == prev.cell(xx, yy));
                    }
                };
            }
            x = x + 1;
        }
        proof {
            assert forall|xx: int, yy: int| 0 <= xx < w && 0 <= yy < h implies #[trigger] fb.cell(
                xx,
                yy,
            ) == if covered_fb(v0@, v1@, v2@, w, h, xx, yy) && yy < y + 1 {
                glyph
            } else {
                orig.cell(xx, yy)
            } by {
                if yy == y as int {
                    assert(covered_fb(v0@, v1@, v2@, w, h, xx, yy) <==> (xs <= xx < xe));
                }
            };
        }
        y = y + 1;
    }
}

/// Fill a triangle whose top edge is horizontal. `v0` and `v1` are the
/// left and right top vertices, `v2` the low vertex.
pub fn draw_flat_top_triangle(
    fb: &mut FrameBuffer,
    v0: FxVec2,
    v1: FxVec2,
    v2: FxVec2,
    glyph: u8,
)
    ensures
        final(fb).wid() == old(fb).wid(),
        final(fb).hei() == old(fb).hei(),
        forall|xx: int, yy: int|
            0 <= xx < old(fb).wid() && 0 <= yy < old(fb).hei() ==> #[trigger] final(fb).cell(
                xx,
                yy,
            ) == if covered_ft(v0@, v1@, v2@, old(fb).wid(), old(fb).hei(), xx, yy) {
                glyph
            } else {
                old(fb).cell(xx, yy)
            },
{
    proof {
        use_type_invariant(&*fb);
    }
    let ghost w = fb.wid();
    let ghost h = fb.hei();
    let ghost orig = *fb;
    let m0 = v2.x.sub(v0.x).div(v2.y.sub(v0.y));
    let m1 = v2.x.sub(v1.x).div(v2.y.sub(v1.y));
    let height = fb.height();
    let width = fb.width();
    let ys = clamp_pix_ex(v0.y, height);
    let ye = clamp_pix_ex(v2.y, height);
    let mut y = ys;
    while y < ye
        invariant
            fb.wid() == w,
            fb.hei() == h,
            w <= MAX_FRAME_SIDE,
            h <= MAX_FRAME_SIDE,
            width == w,
            height == h,
            m0@ == slope(v0@.x, v0@.y, v2@.x, v2@.y),
            m1@ == slope(v1@.x, v1@.y, v2@.x, v2@.y),
            ys == clamp_pix(v0@.y, h),
            ye == clamp_pix(v2@.y, h),
            ys <= y,
            y <= ye || y == ys,
            ye <= h,
            forall|xx: int, yy: int|
                0 <= xx < w && 0 <= yy < h ==> #[trigger] fb.cell(xx, yy) == if covered_ft(
                    v0@,
                    v1@,
                    v2@,
                    w,
                    h,
                    xx,
                    yy,
                ) && yy < y {
                    glyph
                } else {
                    orig.cell(xx, yy)
                },
        decreases ye - y,
    {
        let yc = row_center_ex(y);
        let px0 = m0.mul(yc.sub(v0.y)).add(v0.x);
        let px1 = m1.mul(yc.sub(v1.y)).add(v1.x);
        let xs = clamp_pix_ex(px0, width);
        let xe = clamp_pix_ex(px1, width);
        let ghost row_start = *fb;
        let mut x = xs;
        while x < xe
            invariant
                fb.wid() == w,
                fb.hei() == h,
                w <= MAX_FRAME_SIDE,
                h <= MAX_FRAME_SIDE,
                width == w,
                y < h,
                xs <= x <= xe || x == xs,
                xe <= w,
                xs == clamp_pix(edge_x(v0@.x, v0@.y, m0@, y as int), w),
                xe == clamp_pix(edge_x(v1@.x, v1@.y, m1@, y as int), w),
                forall|xx: int, yy: int|
                    0 <= xx < w && 0 <= yy < h ==> #[trigger] fb.cell(xx, yy) == if yy == y
                        && xs <= xx < x {
                        glyph
                    } else {
                        row_start.cell(xx, yy)
                    },
            decreases xe - x,
        {
            let ghost prev = *fb;
            proof {
                use_type_invariant(&*fb);
                lemma_cell_in_grid(w, h, x as int, y as int);
            }
            fb.put(x, y, glyph);
            proof {
                let idx = (y as int) * w + (x as int);
                assert(fb.grid() == prev.grid().update(idx, glyph));
                assert(prev.grid().len() == w * h);
                assert forall|xx: int, yy: int| 0 <= xx < w && 0 <= yy < h implies #[trigger] fb.cell(
                    xx,
                    yy,
                ) == (if yy == y as int && xs <= xx < x + 1 {
                    glyph
                } else {
                    row_start.cell(xx, yy)
                }) by {
                    lemma_cell_in_grid(w, h, xx, yy);
                    if !(xx == x as int && yy == y as int) {
                        lemma_cell_index_injective(w, xx, yy, x as int, y as int);
                        assert(fb.cell(xx, yy) == prev.cell(xx, yy));
                    }
                };
            }
            x = x + 1;
        }
        proof {
            assert forall|xx: int, yy: int| 0 <= xx < w && 0 <= yy < h implies #[trigger] fb.cell(
                xx,
                yy,
            ) == if covered_ft(v0@, v1@, v2@, w, h, xx, yy) && yy < y + 1 {
                glyph
            } else {
                orig.cell(xx, yy)
            } by {
                if yy == y as int {
                    assert(covered_ft(v0@, v1@, v2@, w, h, xx, yy) <==> (xs <= xx < xe));
                }
            };
        }
        y = y + 1;
    }
}

/// The glyph palette, cycled by a triangle's position in draw order so
/// adjacent triangles stay tellable apart without shading.
pub open spec fn glyph_spec(i: int) -> u8 {
    let k = i % 6;
    if k == 0 {
        88u8
    } else if k == 1 {
        65u8
    } else if k == 2 {
        64u8
    } else if k == 3 {
        35u8
    } else if k == 4 {
        36u8
    } else {
        37u8
    }
}

/// The palette glyph for the triangle at a draw-order position.
pub fn glyph_for(i: usize) -> (g: u8)
    ensures
        g == glyph_spec(i as int),
{
    let k = i % 6;
    if k == 0 {
        88u8
    } else if k == 1 {
        65u8
    } else if k == 2 {
        64u8
    } else if k == 3 {
        35u8
    } else if k == 4 {
        36u8
    } else {
        37u8
    }
}

/// The triangle's vertices in ascending y, by the same three exchanges
/// the rasterizer makes.
pub open spec fn sort_by_y(t: ScreenTriV) -> ScreenTriV {
    let (a0, a1) = if t.v1.y < t.v0.y {
        (t.v1, t.v0)
    } else {
        (t.v0, t.v1)
    };
    let (b1, b2) = if t.v2.y < a1.y {
        (t.v2, a1)
    } else {
        (a1, t.v2)
    };
    let (c0, c1) = if b1.y < a0.y {
        (b1, a0)
    } else {
        (a0, b1)
    };
    ScreenTriV { v0: c0, v1: c1, v2: b2 }
}

/// Whether rasterizing a triangle covers the cell `(x, y)`: the vertices
/// are sorted by y; a triangle already flat on top or bottom is filled
/// directly, any other is split at the long edge's crossing of the middle
/// vertex's row, and the cell may fall in either part.
pub open spec fn covered_tri(t: ScreenTriV, w: int, h: int, x: int, y: int) -> bool {
    let s = sort_by_y(t);
    if s.v0.y == s.v1.y {
        let (l, r) = if s.v1.x < s.v0.x {
            (s.v1, s.v0)
        } else {
            (s.v0, s.v1)
        };
        covered_ft(l, r, s.v2, w, h, x, y)
    } else if s.v1.y == s.v2.y {
        let (l, r) = if s.v2.x < s.v1.x {
            (s.v2, s.v1)
        } else {
            (s.v1, s.v2)
        };
        covered_fb(s.v0, l, r, w, h, x, y)
    } else {
        let alpha = fx_div(fx_sub(s.v1.y, s.v0.y), fx_sub(s.v2.y, s.v0.y));
        let vi = Vec2V {
            x: fx_add(fx_mul(fx_sub(s.v2.x, s.v0.x), alpha), s.v0.x),
            y: fx_add(fx_mul(fx_sub(s.v2.y, s.v0.y), alpha), s.v0.y),
        };
        if s.v1.x < vi.x {
            covered_fb(s.v0, s.v1, vi, w, h, x, y) || covered_ft(s.v1, vi, s.v2, w, h, x, y)
        } else {
            covered_fb(s.v0, vi, s.v1, w, h, x, y) || covered_ft(vi, s.v1, s.v2, w, h, x, y)
        }
    }
}

/// Rasterize one screen-space triangle with the palette glyph of its
/// draw-order position `i`. Cells the triangle covers take the glyph,
/// every other cell keeps what it held; nothing outside the frame is
/// touched.
pub fn draw_triangle(fb: &mut FrameBuffer, triangle: &ScreenSpaceTriangle, i: usize)
    ensures
        final(fb).wid() == old(fb).wid(),
        final(fb).hei() == old(fb).hei(),
        forall|xx: int, yy: int|
            0 <= xx < old(fb).wid() && 0 <= yy < old(fb).hei() ==> #[trigger] final(fb).cell(
                xx,
                yy,
            ) == if covered_tri(triangle@, old(fb).wid(), old(fb).hei(), xx, yy) {
                glyph_spec(i as int)
            } else {
                old(fb).cell(xx, yy)
            },
{
    let ghost w = fb.wid();
    let ghost h = fb.hei();
    let ghost orig = *fb;
    let glyph = glyph_for(i);

    let mut p0 = triangle.v0;
    let mut p1 = triangle.v1;
    let mut p2 = triangle.v2;

    if p1.y.bits() < p0.y.bits() {
        let t = p0;
        p0 = p1;
        p1 = t;
    }
    if p2.y.bits() < p1.y.bits() {
        let t = p1;
        p1 = p2;
        p2 = t;
    }
    if p1.y.bits() < p0.y.bits() {
        let t = p0;
        p0 = p1;
        p1 = t;
    }
    proof {
        assert(p0@ == sort_by_y(triangle@).v0);
        assert(p1@ == sort_by_y(triangle@).v1);
        assert(p2@ == sort_by_y(triangle@).v2);
    }

    if p0.y.bits() == p1.y.bits() {
        // natural flat top
        if p1.x.bits() < p0.x.bits() {
            let t = p0;
            p0 = p1;
            p1 = t;
        }
        draw_flat_top_triangle(fb, p0, p1, p2, glyph);
    } else if p1.y.bits() == p2.y.bits() {
        // natural flat bottom
        if p2.x.bits() < p1.x.bits() {
            let t = p1;
            p1 = p2;
            p2 = t;
        }
        draw_flat_bottom_triangle(fb, p0, p1, p2, glyph);
    } else {
        // general triangle: split on the long edge at the middle
        // vertex's row
        let alpha = p1.y.sub(p0.y).div(p2.y.sub(p0.y));
        let vi = FxVec2::new(
            p2.x.sub(p0.x).mul(alpha).add(p0.x),
            p2.y.sub(p0.y).mul(alpha).add(p0.y),
        );
        if p1.x.bits() < vi.x.bits() {
            // middle vertex on the left, split point on the right
            draw_flat_bottom_triangle(fb, p0, p1, vi, glyph);
            let ghost mid = *fb;
            draw_flat_top_triangle(fb, p1, vi, p2, glyph);
            proof {
                assert forall|xx: int, yy: int| 0 <= xx < w && 0 <= yy < h implies #[trigger] fb.cell(
                    xx,
                    yy,
                ) == (if covered_tri(triangle@, w, h, xx, yy) {
                    glyph
                } else {
                    orig.cell(xx, yy)
                }) by {
                    assert(fb.cell(xx, yy) == if covered_ft(p1@, vi@, p2@, w, h, xx, yy) {
                        glyph
                    } else {
                        mid.cell(xx, yy)
                    });
                };
            }
        } else {
            draw_flat_bottom_triangle(fb, p0, vi, p1, glyph);
            let ghost mid = *fb;
            draw_flat_top_triangle(fb, vi, p1, p2, glyph);
            proof {
                assert forall|xx: int, yy: int| 0 <= xx < w && 0 <= yy < h implies #[trigger] fb.cell(
                    xx,
                    yy,
                ) == (if covered_tri(triangle@, w, h, xx, yy) {
                    glyph
                } else {
                    orig.cell(xx, yy)
                }) by {
                    assert(fb.cell(xx, yy) == if covered_ft(vi@, p1@, p2@, w, h, xx, yy) {
                        glyph
                    } else {
                        mid.cell(xx, yy)
                    });
                };
            }
        }
    }
}

/// Distinct cells have distinct row-major indices.
pub proof fn lemma_cell_index_injective(w: int, x1: int, y1: int, x2: int, y2: int)
    requires
        0 <= x1 < w,
        0 <= x2 < w,
        0 <= y1,
        0 <= y2,
        x1 != x2 || y1 != y2,
    ensures
        y1 * w + x1 != y2 * w + x2,
{
    assert(y1 * w + x1 != y2 * w + x2) by (nonlinear_arith)
        requires
            0 <= x1 < w,
            0 <= x2 < w,
            0 <= y1,
            0 <= y2,
            x1 != x2 || y1 != y2,
    ;
}

} // verus!
