//! The rendering pipeline: triangle assembly, projection, backface
//! culling, and rasterization into a frame buffer.

use vstd::prelude::*;

use crate::camera::Camera;
use crate::error::RenderError;
use crate::fixed::{fx_add, fx_div, fx_mul, lemma_mul_bound, Fx, FX_MAX_BITS};
use crate::linalg::{mat_apply, vec4_views, FxVec2, FxVec4, Mat4V, Vec2V, Vec4V};
use crate::model::{mesh_ok, GameObject, Geometry};
use crate::rasterizer::{
    blank_grid, covered_tri, glyph_spec, draw_triangle, FrameBuffer, ScreenSpaceTriangle,
    ScreenTriV, MAX_FRAME_SIDE,
};
use crate::scene::Scene;

verus! {

/// A triangle of homogeneous vertices, transient within one draw call.
#[derive(Clone, Copy, Debug, PartialEq, Eq, Structural)]
pub struct Triangle {
    pub v0: FxVec4,
    pub v1: FxVec4,
    pub v2: FxVec4,
}

/// The mathematical value of a pipeline triangle.
pub ghost struct TriangleV {
    pub v0: Vec4V,
    pub v1: Vec4V,
    pub v2: Vec4V,
}

impl View for Triangle {
    type V = TriangleV;

    open spec fn view(&self) -> TriangleV {
        TriangleV { v0: self.v0@, v1: self.v1@, v2: self.v2@ }
    }
}

/// The signed volume the backface test decides by: the cross product of
/// the edges from `v0`, dotted with `v0`'s position, in exact arithmetic.
pub open spec fn det3(t: TriangleV) -> int {
    let ax = t.v1.x - t.v0.x;
    let ay = t.v1.y - t.v0.y;
    let az = t.v1.z - t.v0.z;
    let bx = t.v2.x - t.v0.x;
    let by = t.v2.y - t.v0.y;
    let bz = t.v2.z - t.v0.z;
    (ay * bz - az * by) * t.v0.x + (az * bx - ax * bz) * t.v0.y + (ax * by - ay * bx) * t.v0.z
}

/// What the perspective divide makes of one homogeneous vertex: each
/// screen coordinate is the clip coordinate over the clip z, shifted to
/// the frame's center. A zero z saturates rather than dividing.
pub open spec fn screen_vertex(v: Vec4V, ox: int, oy: int) -> Vec2V {
    let ooz = fx_div(65536, v.z);
    Vec2V { x: fx_add(fx_mul(v.x, ooz), ox), y: fx_add(fx_mul(v.y, ooz), oy) }
}

/// What the perspective divide makes of a whole triangle.
pub open spec fn screen_tri(t: TriangleV, ox: int, oy: int) -> ScreenTriV {
    ScreenTriV {
        v0: screen_vertex(t.v0, ox, oy),
        v1: screen_vertex(t.v1, ox, oy),
        v2: screen_vertex(t.v2, ox, oy),
    }
}

impl Triangle {
    pub fn new(v0: FxVec4, v1: FxVec4, v2: FxVec4) -> (r: Triangle)
        ensures
            r@ == (TriangleV { v0: v0@, v1: v1@, v2: v2@ }),
    {
        Triangle { v0, v1, v2 }
    }

    /// Perspective divide: bring the triangle to screen space, with the
    /// frame's center offsets added.
    pub fn to_screen_space_triangle(&self, offset_x: Fx, offset_y: Fx) -> (r: ScreenSpaceTriangle)
        ensures
            r@ == screen_tri(self@, offset_x@, offset_y@),
    {
        let one = Fx::one();
        let ooz0 = one.div(self.v0.z);
        let ooz1 = one.div(self.v1.z);
        let ooz2 = one.div(self.v2.z);
        ScreenSpaceTriangle::new(
            FxVec2::new(self.v0.x.mul(ooz0).add(offset_x), self.v0.y.mul(ooz0).add(offset_y)),
            FxVec2::new(self.v1.x.mul(ooz1).add(offset_x), self.v1.y.mul(ooz1).add(offset_y)),
            FxVec2::new(self.v2.x.mul(ooz2).add(offset_x), self.v2.y.mul(ooz2).add(offset_y)),
        )
    }

    /// The backface test: the triangle faces the camera when the signed
    /// volume of its edges against its first vertex is not negative.
    pub fn is_front_facing(&self) -> (r: bool)
        ensures
            r == (det3(self@) >= 0),
    {
        proof {
            use_type_invariant(self.v0.x);
            use_type_invariant(self.v0.y);
            use_type_invariant(self.v0.z);
            use_type_invariant(self.v1.x);
            use_type_invariant(self.v1.y);
            use_type_invariant(self.v1.z);
            use_type_invariant(self.v2.x);
            use_type_invariant(self.v2.y);
            use_type_invariant(self.v2.z);
        }
        let ax: i64 = self.v1.x.bits() - self.v0.x.bits();
        let ay: i64 = self.v1.y.bits() - self.v0.y.bits();
        let az: i64 = self.v1.z.bits() - self.v0.z.bits();
        let bx: i64 = self.v2.x.bits() - self.v0.x.bits();
        let by: i64 = self.v2.y.bits() - self.v0.y.bits();
        let bz: i64 = self.v2.z.bits() - self.v0.z.bits();
        proof {
            lemma_mul_bound(ay as int, bz as int, 0x200_0000_0000, 0x200_0000_0000);
            lemma_mul_bound(az as int, by as int, 0x200_0000_0000, 0x200_0000_0000);
            lemma_mul_bound(az as int, bx as int, 0x200_0000_0000, 0x200_0000_0000);
            lemma_mul_bound(ax as int, bz as int, 0x200_0000_0000, 0x200_0000_0000);
            lemma_mul_bound(ax as int, by as int, 0x200_0000_0000, 0x200_0000_0000);
            lemma_mul_bound(ay as int, bx as int, 0x200_0000_0000, 0x200_0000_0000);
        }
        let cx: i128 = (ay as i128) * (bz as i128) - (az as i128) * (by as i128);
        let cy: i128 = (az as i128) * (bx as i128) - (ax as i128) * (bz as i128);
        let cz: i128 = (ax as i128) * (by as i128) - (ay as i128) * (bx as i128);
        proof {
            lemma_mul_bound(cx as int, self.v0.x@, 0x8_0000_0000_0000_0000_0000, FX_MAX_BITS as int);
            lemma_mul_bound(cy as int, self.v0.y@, 0x8_0000_0000_0000_0000_0000, FX_MAX_BITS as int);
            lemma_mul_bound(cz as int, self.v0.z@, 0x8_0000_0000_0000_0000_0000, FX_MAX_BITS as int);
        }
        let d: i128 = cx * (self.v0.x.bits() as i128) + cy * (self.v0.y.bits() as i128) + cz * (
        self.v0.z.bits() as i128);
        d >= 0
    }
}

/// What rasterizing a list of triangles paints over a grid: the cells one
/// triangle covers take its palette glyph, the rest keep what they held.
pub open spec fn paint_spec(cells: Seq<u8>, t: ScreenTriV, g: u8, w: int, h: int) -> Seq<u8> {
    Seq::new((w * h) as nat, |idx: int| if covered_tri(t, w, h, idx % w, idx / w) {
        g
    } else {
        cells[idx]
    })
}

/// The frame a list of clip-space triangles rasterizes to: starting from
/// a blank grid, each triangle in turn is brought to screen space and
/// painted over what came before, so a later triangle overwrites an
/// earlier one wherever they overlap.
pub open spec fn raster_spec(ts: Seq<TriangleV>, ox: int, oy: int, w: int, h: int) -> Seq<u8>
    decreases ts.len(),
{
    if ts.len() == 0 {
        blank_grid(w, h)
    } else {
        paint_spec(
            raster_spec(ts.drop_last(), ox, oy, w, h),
            screen_tri(ts.last(), ox, oy),
            glyph_spec(ts.len() - 1),
            w,
            h,
        )
    }
}

/// The mathematical values of a vector of pipeline triangles.
pub open spec fn tri_views(ts: Seq<Triangle>) -> Seq<TriangleV> {
    ts.map_values(|t: Triangle| t@)
}

/// Every object in the scene carries a mesh the pipeline accepts.
pub open spec fn scene_ok(objs: Seq<GameObject>) -> bool {
    forall|i: int| 0 <= i < objs.len() ==> mesh_ok(&objs[i].model)
}

/// The triangles one object contributes: one per run of three indices,
/// corners taken from its world-space vertices, winding as authored.
pub open spec fn object_tris(o: GameObject) -> Seq<TriangleV> {
    Seq::new(
        o.index_view().len() / 3,
        |k: int| TriangleV {
            v0: o.world_verteces()[o.index_view()[3 * k] as int],
            v1: o.world_verteces()[o.index_view()[3 * k + 1] as int],
            v2: o.world_verteces()[o.index_view()[3 * k + 2] as int],
        },
    )
}

/// The triangles of a whole scene, in object order, then triangle order
/// within each object; this order later decides paint order.
pub open spec fn assemble_spec(objs: Seq<GameObject>) -> Seq<TriangleV>
    decreases objs.len(),
{
    if objs.len() == 0 {
        Seq::empty()
    } else {
        assemble_spec(objs.drop_last()) + object_tris(objs.last())
    }
}

/// A triangle carried through the projection matrix, vertex by vertex.
pub open spec fn project_tri(m: Mat4V, t: TriangleV) -> TriangleV {
    TriangleV { v0: mat_apply(m, t.v0), v1: mat_apply(m, t.v1), v2: mat_apply(m, t.v2) }
}

/// What projection and culling leave of a triangle list: each triangle is
/// projected, and kept exactly when it still faces the camera; the order
/// of the survivors is the input order.
pub open spec fn postprocess_spec(m: Mat4V, ts: Seq<TriangleV>) -> Seq<TriangleV>
    decreases ts.len(),
{
    if ts.len() == 0 {
        Seq::empty()
    } else {
        let rest = postprocess_spec(m, ts.drop_last());
        let t = project_tri(m, ts.last());
        if det3(t) >= 0 {
            rest.push(t)
        } else {
            rest
        }
    }
}

/// The fixed state of the rendering pipeline: the frame's dimensions and
/// the derived center offsets and aspect ratio.
#[derive(Clone, Copy, Debug)]
pub struct Pipeline {
    screen_width: usize,
    screen_height: usize,
    offset_x: Fx,
    offset_y: Fx,
    aspect_ratio: Fx,
}

impl Pipeline {
    /// The frame's sides stay within what the rasterizer accepts.
    #[verifier::type_invariant]
    pub open spec fn wf(&self) -> bool {
        &&& self.sw() <= MAX_FRAME_SIDE as int
        &&& self.sh() <= MAX_FRAME_SIDE as int
    }

    /// The frame width in cells.
    pub closed spec fn sw(&self) -> int {
        self.screen_width as int
    }

    /// The frame height in cells.
    pub closed spec fn sh(&self) -> int {
        self.screen_height as int
    }

    /// The horizontal center offset in scale units.
    pub closed spec fn off_x(&self) -> int {
        self.offset_x@
    }

    /// The vertical center offset in scale units.
    pub closed spec fn off_y(&self) -> int {
        self.offset_y@
    }

    /// The aspect ratio (height over width) in scale units.
    pub closed spec fn aspect(&self) -> int {
        self.aspect_ratio@
    }

    /// A pipeline for a frame of the given dimensions. The center offsets
    /// are half a side; the aspect ratio is height over width.
    pub fn new(screen_width: usize, screen_height: usize) -> (r: Pipeline)
        requires
            screen_width <= MAX_FRAME_SIDE,
            screen_height <= MAX_FRAME_SIDE,
        ensures
            r.sw() == screen_width,
            r.sh() == screen_height,
            r.off_x() == screen_width * 32768,
            r.off_y() == screen_height * 32768,
            r.aspect() == fx_div(screen_height * 65536, screen_width * 65536),
    {
        Pipeline {
            screen_width,
            screen_height,
            offset_x: Fx::from_bits((screen_width as i64) * 32768),
            offset_y: Fx::from_bits((screen_height as i64) * 32768),
            aspect_ratio: Fx::from_bits((screen_height as i64) * 65536).div(
                Fx::from_bits((screen_width as i64) * 65536),
            ),
        }
    }

    /// The frame width this pipeline draws.
    pub fn screen_width(&self) -> (w: usize)
        ensures
            w == self.sw(),
    {
        self.screen_width
    }

    /// The frame height this pipeline draws.
    pub fn screen_height(&self) -> (h: usize)
        ensures
            h == self.sh(),
    {
        self.screen_height
    }

    /// The aspect ratio a camera for this pipeline should use.
    pub fn aspect_ratio(&self) -> (a: Fx)
        ensures
            a@ == self.aspect(),
    {
        self.aspect_ratio
    }

    /// Group every object's world-space vertices into triangles by its
    /// index buffer, keeping object order and winding. A mesh with fewer
    /// than three vertices, a ragged index count, or an index out of
    /// bounds aborts the draw call instead of rasterizing garbage.
    pub fn triangle_assembler(&self, objs: &Vec<GameObject>) -> (r: Result<
        Vec<Triangle>,
        RenderError,
    >)
        ensures
            r is Ok <==> scene_ok(objs@),
            r matches Ok(ts) ==> tri_views(ts@) == assemble_spec(objs@),
            r matches Err(e) ==> e == RenderError::MalformedMesh,
    {
        let mut ts: Vec<Triangle> = Vec::new();
        let mut oi: usize = 0;
        while oi < objs.len()
            invariant
                oi <= objs@.len(),
                forall|i: int| 0 <= i < oi ==> mesh_ok(&objs@[i].model),
                tri_views(ts@) == assemble_spec(objs@.take(oi as int)),
            decreases objs@.len() - oi,
        {
            let obj = &objs[oi];
            let vtx = obj.verteces();
            proof {
                assert(vec4_views(vtx@).len() == vtx@.len());
                assert(objs@[oi as int].world_verteces().len() == objs@[
                    oi as int
                ].model.vertex_buffer@.len());
            }
            if vtx.len() < 3 {
                proof {
                    assert(!mesh_ok(&objs@[oi as int].model));
                }
                return Err(RenderError::MalformedMesh);
            }
            let idx = obj.indeces();
            if idx.len() % 3 != 0 {
                proof {
                    assert(!mesh_ok(&objs@[oi as int].model));
                }
                return Err(RenderError::MalformedMesh);
            }
            let ntri = idx.len() / 3;
            proof {
                vstd::arithmetic::div_mod::lemma_fundamental_div_mod(idx@.len() as int, 3);
            }
            let mut k: usize = 0;
            while k < ntri
                invariant
                    k <= ntri,
                    ntri == idx@.len() / 3,
                    3 * ntri == idx@.len(),
                    3 * ntri <= usize::MAX,
                    idx@ == objs@[oi as int].index_view(),
                    vec4_views(vtx@) == objs@[oi as int].world_verteces(),
                    oi < objs@.len(),
                    vtx@.len() >= 3,
                    forall|j: int| 0 <= j < 3 * k ==> idx@[j] < vtx@.len(),
                    tri_views(ts@) == assemble_spec(objs@.take(oi as int)) + object_tris(
                        objs@[oi as int],
                    ).take(k as int),
                decreases ntri - k,
            {
                let i0 = idx[3 * k];
                let i1 = idx[3 * k + 1];
                let i2 = idx[3 * k + 2];
                if i0 >= vtx.len() || i1 >= vtx.len() || i2 >= vtx.len() {
                    proof {
                        assert(vec4_views(vtx@).len() == vtx@.len());
                        assert(objs@[oi as int].world_verteces().len() == objs@[
                            oi as int
                        ].model.vertex_buffer@.len());
                        assert(!mesh_ok(&objs@[oi as int].model));
                    }
                    return Err(RenderError::MalformedMesh);
                }
                let ghost ts_old = ts@;
                let tri = Triangle::new(vtx[i0], vtx[i1], vtx[i2]);
                ts.push(tri);
                proof {
                    let o = objs@[oi as int];
                    let a = assemble_spec(objs@.take(oi as int));
                    assert(vec4_views(vtx@)[i0 as int] == vtx@[i0 as int]@);
                    assert(vec4_views(vtx@)[i1 as int] == vtx@[i1 as int]@);
                    assert(vec4_views(vtx@)[i2 as int] == vtx@[i2 as int]@);
                    assert(object_tris(o)[k as int] == tri@);
                    assert(object_tris(o).len() == ntri);
                    assert(a.len() + k == ts_old.len()) by {
                        assert(tri_views(ts_old).len() == ts_old.len());
                    };
                    assert forall|j: int| 0 <= j < ts@.len() implies #[trigger] tri_views(ts@)[j]
                        == (a + object_tris(o).take(k + 1))[j] by {
                        assert(tri_views(ts@)[j] == ts@[j]@);
                        if j < ts_old.len() {
                            assert(ts@[j] == ts_old[j]);
                            assert(tri_views(ts_old)[j] == ts_old[j]@);
                            assert(tri_views(ts_old)[j] == (a + object_tris(o).take(k as int))[j]);
                            if j >= a.len() {
                                assert(object_tris(o).take(k as int)[j - a.len()] == object_tris(
                                    o,
                                )[j - a.len()]);
                                assert(object_tris(o).take(k + 1)[j - a.len()] == object_tris(
                                    o,
                                )[j - a.len()]);
                            }
                        } else {
                            assert(j == ts_old.len());
                            assert(ts@[j] == tri);
                            assert((a + object_tris(o).take(k + 1))[j] == object_tris(o).take(
                                k + 1,
                            )[k as int]);
                            assert(object_tris(o).take(k + 1)[k as int] == object_tris(
                                o,
                            )[k as int]);
                        }
                    };
                    assert(tri_views(ts@).len() == (a + object_tris(o).take(k + 1)).len());
                    assert(tri_views(ts@) =~= a + object_tris(o).take(k + 1));
                }
                k = k + 1;
            }
            proof {
                assert(vec4_views(vtx@).len() == vtx@.len());
                assert(objs@[oi as int].world_verteces().len() == objs@[
                    oi as int
                ].model.vertex_buffer@.len());
                assert(mesh_ok(&objs@[oi as int].model));
                assert(object_tris(objs@[oi as int]).take(ntri as int) =~= object_tris(
                    objs@[oi as int],
                ));
                assert(objs@.take(oi + 1).drop_last() =~= objs@.take(oi as int));
                assert(objs@.take(oi + 1).last() == objs@[oi as int]);
                assert(tri_views(ts@) =~= assemble_spec(objs@.take(oi + 1)));
            }
            oi = oi + 1;
        }
        proof {
            assert(objs@.take(objs@.len() as int) =~= objs@);
        }
        Ok(ts)
    }

    /// Carry each triangle through the camera's projection matrix.
    pub fn triangles_to_view_space(&self, camera: &Camera, triangles: &Vec<Triangle>) -> (r: Vec<
        Triangle,
    >)
        ensures
            r@.len() == triangles@.len(),
            forall|i: int|
                0 <= i < triangles@.len() ==> r@[i]@ == project_tri(
                    camera.projection_matrix@,
                    triangles@[i]@,
                ),
    {
        let mut r: Vec<Triangle> = Vec::new();
        let mut i: usize = 0;
        while i < triangles.len()
            invariant
                i <= triangles@.len(),
                r@.len() == i,
                forall|j: int|
                    0 <= j < i ==> r@[j]@ == project_tri(
                        camera.projection_matrix@,
                        triangles@[j]@,
                    ),
            decreases triangles@.len() - i,
        {
            let t = &triangles[i];
            let m = &camera.projection_matrix;
            r.push(Triangle::new(m.apply(t.v0), m.apply(t.v1), m.apply(t.v2)));
            i = i + 1;
        }
        r
    }

    /// The backface test for each triangle in turn.
    pub fn backface_culling(&self, triangles: &Vec<Triangle>) -> (r: Vec<bool>)
        ensures
            r@.len() == triangles@.len(),
            forall|i: int| 0 <= i < triangles@.len() ==> r@[i] == (det3(triangles@[i]@) >= 0),
    {
        let mut r: Vec<bool> = Vec::new();
        let mut i: usize = 0;
        while i < triangles.len()
            invariant
                i <= triangles@.len(),
                r@.len() == i,
                forall|j: int| 0 <= j < i ==> r@[j] == (det3(triangles@[j]@) >= 0),
            decreases triangles@.len() - i,
        {
            r.push(triangles[i].is_front_facing());
            i = i + 1;
        }
        r
    }

    /// Project every triangle and keep the front-facing ones, in order.
    pub fn post_process_triangles(&self, camera: &Camera, triangles: &Vec<Triangle>) -> (out: Vec<
        Triangle,
    >)
        ensures
            tri_views(out@) == postprocess_spec(camera.projection_matrix@, tri_views(triangles@)),
    {
        let view = self.triangles_to_view_space(camera, triangles);
        let flags = self.backface_culling(&view);
        let mut out: Vec<Triangle> = Vec::new();
        let mut i: usize = 0;
        proof {
            assert(tri_views(triangles@).take(0) =~= Seq::<TriangleV>::empty());
            assert(tri_views(out@) =~= Seq::<TriangleV>::empty());
        }
        while i < view.len()
            invariant
                i <= view@.len(),
                view@.len() == triangles@.len(),
                flags@.len() == view@.len(),
                forall|j: int|
                    0 <= j < triangles@.len() ==> view@[j]@ == project_tri(
                        camera.projection_matrix@,
                        triangles@[j]@,
                    ),
                forall|j: int| 0 <= j < view@.len() ==> flags@[j] == (det3(view@[j]@) >= 0),
                tri_views(out@) == postprocess_spec(
                    camera.projection_matrix@,
                    tri_views(triangles@).take(i as int),
                ),
            decreases view@.len() - i,
        {
            let ghost pre = tri_views(triangles@).take(i as int);
            proof {
                assert(tri_views(triangles@).take(i + 1).drop_last() =~= pre);
                assert(tri_views(triangles@).take(i + 1).last() == triangles@[i as int]@);
            }
            if flags[i] {
                out.push(view[i]);
                proof {
                    assert(tri_views(out@) =~= postprocess_spec(
                        camera.projection_matrix@,
                        pre,
                    ).push(project_tri(camera.projection_matrix@, triangles@[i as int]@)));
                }
            }
            i = i + 1;
        }
        proof {
            assert(tri_views(triangles@).take(triangles@.len() as int) =~= tri_views(triangles@));
        }
        out
    }

    /// Rasterize the surviving triangles, in order, into a fresh frame:
    /// first a blank grid, then each triangle brought to screen space and
    /// painted with its palette glyph.
    pub fn triangle_resterizer(&self, triangles: Vec<Triangle>) -> (fb: FrameBuffer)
        ensures
            fb.wid() == self.sw(),
            fb.hei() == self.sh(),
            fb.grid() == raster_spec(
                tri_views(triangles@),
                self.off_x(),
                self.off_y(),
                self.sw(),
                self.sh(),
            ),
    {
        proof {
            use_type_invariant(self);
        }
        let ghost w = self.sw();
        let ghost h = self.sh();
        let mut fb = FrameBuffer::new(self.screen_width, self.screen_height);
        let mut i: usize = 0;
        proof {
            assert(tri_views(triangles@).take(0) =~= Seq::<TriangleV>::empty());
        }
        while i < triangles.len()
            invariant
                i <= triangles@.len(),
                fb.wid() == w,
                fb.hei() == h,
                0 <= w <= MAX_FRAME_SIDE as int,
                0 <= h <= MAX_FRAME_SIDE as int,
                self.off_x() == self.offset_x@,
                self.off_y() == self.offset_y@,
                fb.grid() == raster_spec(
                    tri_views(triangles@).take(i as int),
                    self.off_x(),
                    self.off_y(),
                    w,
                    h,
                ),
            decreases triangles@.len() - i,
        {
            let ghost prev_grid = fb.grid();
            let sst = triangles[i].to_screen_space_triangle(self.offset_x, self.offset_y);
            draw_triangle(&mut fb, &sst, i);
            proof {
                use_type_invariant(&fb);
                let st = screen_tri(triangles@[i as int]@, self.off_x(), self.off_y());
                let g = glyph_spec(i as int);
                assert forall|idx: int| 0 <= idx < w * h implies fb.grid()[idx] == paint_spec(
                    prev_grid,
                    st,
                    g,
                    w,
                    h,
                )[idx] by {
                    assert(w > 0) by (nonlinear_arith)
                        requires
                            0 <= idx < w * h,
                            0 <= w,
                    ;
                    lemma_grid_index(w, h, idx);
                    let xx = idx % w;
                    let yy = idx / w;
                    assert(fb.cell(xx, yy) == if covered_tri(st, w, h, xx, yy) {
                        g
                    } else {
                        prev_grid[idx]
                    });
                };
                assert(fb.grid() =~= paint_spec(prev_grid, st, g, w, h));
                assert(tri_views(triangles@).take(i + 1).drop_last() =~= tri_views(
                    triangles@,
                ).take(i as int));
                assert(tri_views(triangles@).take(i + 1).last() == triangles@[i as int]@);
            }
            i = i + 1;
        }
        proof {
            assert(tri_views(triangles@).take(triangles@.len() as int) =~= tri_views(triangles@));
        }
        fb
    }
}

impl Pipeline {
    /// Draw one frame of a scene: assemble its objects' triangles,
    /// project and cull them, and rasterize the survivors. A malformed
    /// mesh aborts the frame with an error; otherwise the returned frame
    /// is exactly the rasterization of the projected, culled triangle
    /// list over a blank grid.
    pub fn draw<S: Scene>(&self, scene: &S) -> (r: Result<FrameBuffer, RenderError>)
        ensures
            r is Ok <==> scene_ok(scene.objects_spec()),
            r matches Err(e) ==> e == RenderError::MalformedMesh,
            r matches Ok(fb) ==> {
                &&& fb.wid() == self.sw()
                &&& fb.hei() == self.sh()
                &&& fb.grid() == raster_spec(
                    postprocess_spec(
                        scene.camera_spec().projection_matrix@,
                        assemble_spec(scene.objects_spec()),
                    ),
                    self.off_x(),
                    self.off_y(),
                    self.sw(),
                    self.sh(),
                )
            },
    {
        let objs = scene.game_objects();
        let pre_triangles = match self.triangle_assembler(objs) {
            Ok(ts) => ts,
            Err(e) => {
                return Err(e);
            },
        };
        let camera = scene.camera();
        let triangles = self.post_process_triangles(&camera, &pre_triangles);
        Ok(self.triangle_resterizer(triangles))
    }
}

/// A grid index names the cell in row `idx / w`, column `idx % w`.
pub proof fn lemma_grid_index(w: int, h: int, idx: int)
    requires
        0 < w,
        0 <= idx < w * h,
    ensures
        0 <= idx % w < w,
        0 <= idx / w < h,
        (idx / w) * w + idx % w == idx,
{
    vstd::arithmetic::div_mod::lemma_fundamental_div_mod(idx, w);
    assert(w * (idx / w) == (idx / w) * w) by (nonlinear_arith);
    vstd::arithmetic::div_mod::lemma_mod_bound(idx, w);
    vstd::arithmetic::div_mod::lemma_div_pos_is_pos(idx, w);
    if idx / w >= h {
        assert(w * (idx / w) >= w * h) by (nonlinear_arith)
            requires
                idx / w >= h,
                w > 0,
        ;
    }
}

} // verus!
