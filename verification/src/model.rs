//! Meshes, object transforms, and renderable game objects.

use vstd::prelude::*;

use crate::fixed::Fx;
use crate::fixed::{fx_add, fx_mul, fx_sub};
use crate::linalg::{mat_apply, point_of, vec3_views, vec4_views, FxMat4, FxVec3, FxVec4, Mat4V, Vec3V, Vec4V};
use crate::trig::{cos_spec, sin_spec};

verus! {

/// A mesh: a vertex buffer and a triangle index buffer, where every run
/// of three consecutive indices names one triangle's corners.
#[derive(Debug)]
pub struct Model {
    pub vertex_buffer: Vec<FxVec3>,
    pub index_buffer: Vec<usize>,
}

/// A mesh the pipeline accepts: at least three vertices, whole triangles,
/// and every index within the vertex buffer's bounds.
pub open spec fn mesh_ok(m: &Model) -> bool {
    &&& m.vertex_buffer@.len() >= 3
    &&& m.index_buffer@.len() % 3 == 0
    &&& forall|i: int|
        0 <= i < m.index_buffer@.len() ==> m.index_buffer@[i] < m.vertex_buffer@.len()
}

impl Model {
    /// A single triangle in the z = 1 plane, wound counter-clockwise as
    /// projected (x right, y up) so it faces the camera.
    pub fn triangle() -> (r: Model)
        ensures
            vec3_views(r.vertex_buffer@) == seq![
                (Vec3V { x: 0, y: 32768, z: 65536 }),
                (Vec3V { x: 32768, y: -32768, z: 65536 }),
                (Vec3V { x: -32768, y: -32768, z: 65536 }),
            ],
            r.index_buffer@ == seq![0usize, 2usize, 1usize],
            mesh_ok(&r),
    {
        let h = Fx::from_bits(32768);
        let nh = Fx::from_bits(-32768);
        let one = Fx::one();
        let mut vb: Vec<FxVec3> = Vec::new();
        vb.push(FxVec3::new(Fx::zero(), h, one));
        vb.push(FxVec3::new(h, nh, one));
        vb.push(FxVec3::new(nh, nh, one));
        let mut ib: Vec<usize> = Vec::new();
        ib.push(0);
        ib.push(2);
        ib.push(1);
        let r = Model { vertex_buffer: vb, index_buffer: ib };
        proof {
            assert(vec3_views(r.vertex_buffer@) =~= seq![
                (Vec3V { x: 0, y: 32768, z: 65536 }),
                (Vec3V { x: 32768, y: -32768, z: 65536 }),
                (Vec3V { x: -32768, y: -32768, z: 65536 }),
            ]);
            assert(r.index_buffer@ =~= seq![0usize, 2usize, 1usize]);
        }
        r
    }

    /// A unit square in the z = 1 plane, two triangles, both wound
    /// counter-clockwise as projected so they face the camera.
    pub fn square() -> (r: Model)
        ensures
            vec3_views(r.vertex_buffer@) == seq![
                (Vec3V { x: -32768, y: 32768, z: 65536 }),
                (Vec3V { x: 32768, y: 32768, z: 65536 }),
                (Vec3V { x: -32768, y: -32768, z: 65536 }),
                (Vec3V { x: 32768, y: -32768, z: 65536 }),
            ],
            r.index_buffer@ == seq![0usize, 2usize, 1usize, 1usize, 2usize, 3usize],
            mesh_ok(&r),
    {
        let h = Fx::from_bits(32768);
        let nh = Fx::from_bits(-32768);
        let one = Fx::one();
        let mut vb: Vec<FxVec3> = Vec::new();
        vb.push(FxVec3::new(nh, h, one));
        vb.push(FxVec3::new(h, h, one));
        vb.push(FxVec3::new(nh, nh, one));
        vb.push(FxVec3::new(h, nh, one));
        let mut ib: Vec<usize> = Vec::new();
        ib.push(0);
        ib.push(2);
        ib.push(1);
        ib.push(1);
        ib.push(2);
        ib.push(3);
        let r = Model { vertex_buffer: vb, index_buffer: ib };
        proof {
            assert(vec3_views(r.vertex_buffer@) =~= seq![
                (Vec3V { x: -32768, y: 32768, z: 65536 }),
                (Vec3V { x: 32768, y: 32768, z: 65536 }),
                (Vec3V { x: -32768, y: -32768, z: 65536 }),
                (Vec3V { x: 32768, y: -32768, z: 65536 }),
            ]);
            assert(r.index_buffer@ =~= seq![0usize, 2usize, 1usize, 1usize, 2usize, 3usize]);
        }
        r
    }

    /// A unit cube centred on the origin, twelve triangles.
    pub fn cube() -> (r: Model)
        ensures
            r.vertex_buffer@.len() == 8,
            r.index_buffer@.len() == 36,
            mesh_ok(&r),
            forall|i: int|
                0 <= i < 8 ==> r.vertex_buffer@[i]@ == (Vec3V {
                    x: if i % 2 == 1 { 32768int } else { -32768int },
                    y: if i / 2 % 2 == 1 { 32768int } else { -32768int },
                    z: if i / 4 == 1 { 32768int } else { -32768int },
                }),
            r.index_buffer@ == seq![
                0usize, 2usize, 1usize, 2usize, 3usize, 1usize,
                1usize, 3usize, 5usize, 3usize, 7usize, 5usize,
                2usize, 6usize, 3usize, 3usize, 6usize, 7usize,
                4usize, 5usize, 7usize, 4usize, 7usize, 6usize,
                0usize, 4usize, 2usize, 2usize, 4usize, 6usize,
                0usize, 1usize, 4usize, 1usize, 5usize, 4usize,
            ],
    {
        let h = Fx::from_bits(32768);
        let nh = Fx::from_bits(-32768);
        let mut vb: Vec<FxVec3> = Vec::new();
        vb.push(FxVec3::new(nh, nh, nh));
        vb.push(FxVec3::new(h, nh, nh));
        vb.push(FxVec3::new(nh, h, nh));
        vb.push(FxVec3::new(h, h, nh));
        vb.push(FxVec3::new(nh, nh, h));
        vb.push(FxVec3::new(h, nh, h));
        vb.push(FxVec3::new(nh, h, h));
        vb.push(FxVec3::new(h, h, h));
        let faces: [usize; 36] = [
            0, 2, 1, 2, 3, 1,
            1, 3, 5, 3, 7, 5,
            2, 6, 3, 3, 6, 7,
            4, 5, 7, 4, 7, 6,
            0, 4, 2, 2, 4, 6,
            0, 1, 4, 1, 5, 4,
        ];
        let mut ib: Vec<usize> = Vec::new();
        let mut k: usize = 0;
        while k < 36
            invariant
                k <= 36,
                ib@ == faces@.take(k as int),
            decreases 36 - k,
        {
            ib.push(faces[k]);
            proof {
                assert(ib@ =~= faces@.take(k + 1));
            }
            k = k + 1;
        }
        proof {
            assert(faces@.take(36) =~= faces@);
        }
        let r = Model { vertex_buffer: vb, index_buffer: ib };
        proof {
            assert(r.index_buffer@ =~= seq![
                0usize, 2usize, 1usize, 2usize, 3usize, 1usize,
                1usize, 3usize, 5usize, 3usize, 7usize, 5usize,
                2usize, 6usize, 3usize, 3usize, 6usize, 7usize,
                4usize, 5usize, 7usize, 4usize, 7usize, 6usize,
                0usize, 4usize, 2usize, 2usize, 4usize, 6usize,
                0usize, 1usize, 4usize, 1usize, 5usize, 4usize,
            ]);
            assert(forall|i: int| 0 <= i < 36 ==> r.index_buffer@[i] < 8);
        }
        r
    }
}

/// An object's placement: translation, per-axis scale, and rotation as
/// three Tait-Bryan angles in fixed-point radians.
#[derive(Clone, Copy, Debug, PartialEq, Eq, Structural)]
pub struct Transform {
    pub translation: FxVec3,
    pub scale: FxVec3,
    pub rotation: FxVec3,
}

/// The mathematical value of a transform.
pub ghost struct TransformV {
    pub translation: Vec3V,
    pub scale: Vec3V,
    pub rotation: Vec3V,
}

impl View for Transform {
    type V = TransformV;

    open spec fn view(&self) -> TransformV {
        TransformV { translation: self.translation@, scale: self.scale@, rotation: self.rotation@ }
    }
}

/// What the combined model-view matrix of a transform is:
/// Translate times Rot_y times Rot_x times Rot_z times Scale, for a row
/// vector multiplied on the matrix's left. Rotations compose in the fixed
/// Tait-Bryan order y (1), x (2), z (3).
pub open spec fn model_view_spec(t: TransformV) -> Mat4V {
    let s3 = sin_spec(t.rotation.z);
    let c3 = cos_spec(t.rotation.z);
    let s2 = sin_spec(t.rotation.x);
    let c2 = cos_spec(t.rotation.x);
    let s1 = sin_spec(t.rotation.y);
    let c1 = cos_spec(t.rotation.y);
    Mat4V {
        m00: fx_mul(t.scale.x, fx_add(fx_mul(c1, c3), fx_mul(fx_mul(s1, s2), s3))),
        m01: fx_mul(t.scale.x, fx_mul(c2, s3)),
        m02: fx_mul(t.scale.x, fx_sub(fx_mul(fx_mul(c1, s2), s3), fx_mul(c3, s1))),
        m03: 0,
        m10: fx_mul(t.scale.y, fx_sub(fx_mul(fx_mul(c3, s1), s2), fx_mul(c1, s3))),
        m11: fx_mul(t.scale.y, fx_mul(c2, c3)),
        m12: fx_mul(t.scale.y, fx_add(fx_mul(fx_mul(c1, c3), s2), fx_mul(s1, s3))),
        m13: 0,
        m20: fx_mul(t.scale.z, fx_mul(c2, s1)),
        m21: fx_mul(t.scale.z, -s2),
        m22: fx_mul(t.scale.z, fx_mul(c1, c2)),
        m23: 0,
        m30: t.translation.x,
        m31: t.translation.y,
        m32: t.translation.z,
        m33: 65536,
    }
}

impl Default for Transform {
    /// No translation, unit scale, no rotation.
    fn default() -> (r: Transform)
        ensures
            r@ == (TransformV {
                translation: Vec3V { x: 0, y: 0, z: 0 },
                scale: Vec3V { x: 65536, y: 65536, z: 65536 },
                rotation: Vec3V { x: 0, y: 0, z: 0 },
            }),
    {
        Transform {
            translation: FxVec3::zero(),
            scale: FxVec3::ones(),
            rotation: FxVec3::zero(),
        }
    }
}

impl Transform {
    /// The combined model-view matrix of this transform, recomputed from
    /// its current state.
    pub fn model_view(&self) -> (m: FxMat4)
        ensures
            m@ == model_view_spec(self@),
    {
        let s3 = crate::trig::sin_fx(self.rotation.z);
        let c3 = crate::trig::cos_fx(self.rotation.z);
        let s2 = crate::trig::sin_fx(self.rotation.x);
        let c2 = crate::trig::cos_fx(self.rotation.x);
        let s1 = crate::trig::sin_fx(self.rotation.y);
        let c1 = crate::trig::cos_fx(self.rotation.y);
        FxMat4 {
            m00: self.scale.x.mul(c1.mul(c3).add(s1.mul(s2).mul(s3))),
            m01: self.scale.x.mul(c2.mul(s3)),
            m02: self.scale.x.mul(c1.mul(s2).mul(s3).sub(c3.mul(s1))),
            m03: Fx::zero(),
            m10: self.scale.y.mul(c3.mul(s1).mul(s2).sub(c1.mul(s3))),
            m11: self.scale.y.mul(c2.mul(c3)),
            m12: self.scale.y.mul(c1.mul(c3).mul(s2).add(s1.mul(s3))),
            m13: Fx::zero(),
            m20: self.scale.z.mul(c2.mul(s1)),
            m21: self.scale.z.mul(s2.neg()),
            m22: self.scale.z.mul(c1.mul(c2)),
            m23: Fx::zero(),
            m30: self.translation.x,
            m31: self.translation.y,
            m32: self.translation.z,
            m33: Fx::one(),
        }
    }
}

/// One renderable object: a placement paired with a mesh.
#[derive(Debug)]
pub struct GameObject {
    pub transform: Transform,
    pub model: Model,
}

/// A source of world-space geometry for the pipeline.
pub trait Geometry {
    /// The world-space positions the vertex buffer transforms to.
    spec fn world_verteces(&self) -> Seq<Vec4V>;

    /// The triangle index buffer.
    spec fn index_view(&self) -> Seq<usize>;

    /// The vertex buffer carried into world space.
    fn verteces(&self) -> (v: Vec<FxVec4>)
        ensures
            vec4_views(v@) == self.world_verteces(),
    ;

    /// The index buffer, three consecutive entries per triangle.
    fn indeces(&self) -> (ix: &Vec<usize>)
        ensures
            ix@ == self.index_view(),
    ;
}

impl GameObject {
    pub fn new(model: Model) -> (r: GameObject)
        ensures
            r.transform@ == (TransformV {
                translation: Vec3V { x: 0, y: 0, z: 0 },
                scale: Vec3V { x: 65536, y: 65536, z: 65536 },
                rotation: Vec3V { x: 0, y: 0, z: 0 },
            }),
            r.model == model,
    {
        GameObject { transform: Transform::default(), model }
    }
}

impl Geometry for GameObject {
    open spec fn world_verteces(&self) -> Seq<Vec4V> {
        Seq::new(
            self.model.vertex_buffer@.len(),
            |i: int| mat_apply(model_view_spec(self.transform@), point_of(self.model.vertex_buffer@[i]@)),
        )
    }

    open spec fn index_view(&self) -> Seq<usize> {
        self.model.index_buffer@
    }

    fn verteces(&self) -> (v: Vec<FxVec4>)
        ensures
            vec4_views(v@) == self.world_verteces(),
    {
        let m = self.transform.model_view();
        let mut v: Vec<FxVec4> = Vec::new();
        let n = self.model.vertex_buffer.len();
        let mut i: usize = 0;
        while i < n
            invariant
                i <= n,
                n == self.model.vertex_buffer@.len(),
                m@ == model_view_spec(self.transform@),
                v@.len() == i,
                forall|j: int|
                    0 <= j < i ==> v@[j]@ == mat_apply(
                        model_view_spec(self.transform@),
                        point_of(self.model.vertex_buffer@[j]@),
                    ),
            decreases n - i,
        {
            v.push(m.apply(FxVec4::from_point(self.model.vertex_buffer[i])));
            i = i + 1;
        }
        proof {
            assert(vec4_views(v@) =~= self.world_verteces());
        }
        v
    }

    fn indeces(&self) -> (ix: &Vec<usize>)
        ensures
            ix@ == self.index_view(),
    {
        &self.model.index_buffer
    }
}

} // verus!
