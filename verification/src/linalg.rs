//! Fixed-point vectors and 4x4 matrices.
//!
//! A point is carried as a row vector of homogeneous coordinates and is
//! transformed by multiplying it on the right with a matrix, so a chain of
//! transforms reads left to right. The matrix is stored row-major.

use vstd::prelude::*;

use crate::fixed::Fx;
use crate::fixed::{fx_add, fx_mul};

verus! {

/// A 2D point in screen space.
#[derive(Clone, Copy, Debug, PartialEq, Eq, Structural)]
pub struct FxVec2 {
    pub x: Fx,
    pub y: Fx,
}

/// The mathematical value of a 2D point: its coordinates in scale units.
pub ghost struct Vec2V {
    pub x: int,
    pub y: int,
}

impl View for FxVec2 {
    type V = Vec2V;

    open spec fn view(&self) -> Vec2V {
        Vec2V { x: self.x@, y: self.y@ }
    }
}

impl FxVec2 {
    pub fn new(x: Fx, y: Fx) -> (r: FxVec2)
        ensures
            r@ == (Vec2V { x: x@, y: y@ }),
    {
        FxVec2 { x, y }
    }
}

/// A 3D point in object-local space.
#[derive(Clone, Copy, Debug, PartialEq, Eq, Structural)]
pub struct FxVec3 {
    pub x: Fx,
    pub y: Fx,
    pub z: Fx,
}

/// The mathematical value of a 3D point.
pub ghost struct Vec3V {
    pub x: int,
    pub y: int,
    pub z: int,
}

impl View for FxVec3 {
    type V = Vec3V;

    open spec fn view(&self) -> Vec3V {
        Vec3V { x: self.x@, y: self.y@, z: self.z@ }
    }
}

impl FxVec3 {
    pub fn new(x: Fx, y: Fx, z: Fx) -> (r: FxVec3)
        ensures
            r@ == (Vec3V { x: x@, y: y@, z: z@ }),
    {
        FxVec3 { x, y, z }
    }

    /// The origin.
    pub fn zero() -> (r: FxVec3)
        ensures
            r@ == (Vec3V { x: 0, y: 0, z: 0 }),
    {
        FxVec3 { x: Fx::zero(), y: Fx::zero(), z: Fx::zero() }
    }

    /// The all-ones vector, the unit scale.
    pub fn ones() -> (r: FxVec3)
        ensures
            r@ == (Vec3V { x: 65536, y: 65536, z: 65536 }),
    {
        FxVec3 { x: Fx::one(), y: Fx::one(), z: Fx::one() }
    }
}

/// A homogeneous 4-component point.
#[derive(Clone, Copy, Debug, PartialEq, Eq, Structural)]
pub struct FxVec4 {
    pub x: Fx,
    pub y: Fx,
    pub z: Fx,
    pub w: Fx,
}

/// The mathematical value of a homogeneous point.
pub ghost struct Vec4V {
    pub x: int,
    pub y: int,
    pub z: int,
    pub w: int,
}

impl View for FxVec4 {
    type V = Vec4V;

    open spec fn view(&self) -> Vec4V {
        Vec4V { x: self.x@, y: self.y@, z: self.z@, w: self.w@ }
    }
}

/// What lifting a 3D point to homogeneous coordinates yields.
pub open spec fn point_of(v: Vec3V) -> Vec4V {
    Vec4V { x: v.x, y: v.y, z: v.z, w: 65536 }
}

impl FxVec4 {
    pub fn new(x: Fx, y: Fx, z: Fx, w: Fx) -> (r: FxVec4)
        ensures
            r@ == (Vec4V { x: x@, y: y@, z: z@, w: w@ }),
    {
        FxVec4 { x, y, z, w }
    }

    /// Lift a 3D point to homogeneous coordinates with w = 1.
    pub fn from_point(v: FxVec3) -> (r: FxVec4)
        ensures
            r@ == point_of(v@),
    {
        FxVec4 { x: v.x, y: v.y, z: v.z, w: Fx::one() }
    }
}

/// A 4x4 matrix of fixed-point entries, row-major: `m12` is row 1,
/// column 2.
#[derive(Clone, Copy, Debug, PartialEq, Eq, Structural)]
pub struct FxMat4 {
    pub m00: Fx,
    pub m01: Fx,
    pub m02: Fx,
    pub m03: Fx,
    pub m10: Fx,
    pub m11: Fx,
    pub m12: Fx,
    pub m13: Fx,
    pub m20: Fx,
    pub m21: Fx,
    pub m22: Fx,
    pub m23: Fx,
    pub m30: Fx,
    pub m31: Fx,
    pub m32: Fx,
    pub m33: Fx,
}

/// The mathematical value of a matrix.
pub ghost struct Mat4V {
    pub m00: int,
    pub m01: int,
    pub m02: int,
    pub m03: int,
    pub m10: int,
    pub m11: int,
    pub m12: int,
    pub m13: int,
    pub m20: int,
    pub m21: int,
    pub m22: int,
    pub m23: int,
    pub m30: int,
    pub m31: int,
    pub m32: int,
    pub m33: int,
}

impl View for FxMat4 {
    type V = Mat4V;

    open spec fn view(&self) -> Mat4V {
        Mat4V {
            m00: self.m00@,
            m01: self.m01@,
            m02: self.m02@,
            m03: self.m03@,
            m10: self.m10@,
            m11: self.m11@,
            m12: self.m12@,
            m13: self.m13@,
            m20: self.m20@,
            m21: self.m21@,
            m22: self.m22@,
            m23: self.m23@,
            m30: self.m30@,
            m31: self.m31@,
            m32: self.m32@,
            m33: self.m33@,
        }
    }
}

/// The mathematical values of a vector of 3D points.
pub open spec fn vec3_views(vs: Seq<FxVec3>) -> Seq<Vec3V> {
    vs.map_values(|p: FxVec3| p@)
}

/// The mathematical values of a vector of homogeneous points.
pub open spec fn vec4_views(vs: Seq<FxVec4>) -> Seq<Vec4V> {
    vs.map_values(|p: FxVec4| p@)
}

/// A four-term fixed-point dot product, summed left to right.
pub open spec fn dot4(a: int, b: int, c: int, d: int, e: int, f: int, g: int, h: int) -> int {
    fx_add(fx_add(fx_add(fx_mul(a, e), fx_mul(b, f)), fx_mul(c, g)), fx_mul(d, h))
}

/// What multiplying a row vector on the right by a matrix yields:
/// each result component is the vector dotted with one matrix column.
pub open spec fn mat_apply(m: Mat4V, v: Vec4V) -> Vec4V {
    Vec4V {
        x: dot4(v.x, v.y, v.z, v.w, m.m00, m.m10, m.m20, m.m30),
        y: dot4(v.x, v.y, v.z, v.w, m.m01, m.m11, m.m21, m.m31),
        z: dot4(v.x, v.y, v.z, v.w, m.m02, m.m12, m.m22, m.m32),
        w: dot4(v.x, v.y, v.z, v.w, m.m03, m.m13, m.m23, m.m33),
    }
}

impl FxMat4 {
    /// The matrix of all zero entries.
    pub fn zeros() -> (r: FxMat4)
        ensures
            r@ == (Mat4V {
                m00: 0,
                m01: 0,
                m02: 0,
                m03: 0,
                m10: 0,
                m11: 0,
                m12: 0,
                m13: 0,
                m20: 0,
                m21: 0,
                m22: 0,
                m23: 0,
                m30: 0,
                m31: 0,
                m32: 0,
                m33: 0,
            }),
    {
        let z = Fx::zero();
        FxMat4 {
            m00: z,
            m01: z,
            m02: z,
            m03: z,
            m10: z,
            m11: z,
            m12: z,
            m13: z,
            m20: z,
            m21: z,
            m22: z,
            m23: z,
            m30: z,
            m31: z,
            m32: z,
            m33: z,
        }
    }

    /// Transform a row vector: `v` times `self`.
    pub fn apply(&self, v: FxVec4) -> (r: FxVec4)
        ensures
            r@ == mat_apply(self@, v@),
    {
        FxVec4 {
            x: v.x.mul(self.m00).add(v.y.mul(self.m10)).add(v.z.mul(self.m20)).add(
                v.w.mul(self.m30),
            ),
            y: v.x.mul(self.m01).add(v.y.mul(self.m11)).add(v.z.mul(self.m21)).add(
                v.w.mul(self.m31),
            ),
            z: v.x.mul(self.m02).add(v.y.mul(self.m12)).add(v.z.mul(self.m22)).add(
                v.w.mul(self.m32),
            ),
            w: v.x.mul(self.m03).add(v.y.mul(self.m13)).add(v.z.mul(self.m23)).add(
                v.w.mul(self.m33),
            ),
        }
    }
}

} // verus!
