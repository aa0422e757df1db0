//! The perspective camera.

use vstd::prelude::*;

use crate::error::RenderError;
use crate::fixed::Fx;
use crate::fixed::{fx_div, fx_mul, fx_sub};
use crate::linalg::{FxMat4, Mat4V};
use crate::trig::{cos_spec, sin_spec, PI_BITS};

verus! {

/// A camera holding the projection matrix derived once at construction.
#[derive(Clone, Copy, Debug, PartialEq, Eq, Structural)]
pub struct Camera {
    pub projection_matrix: FxMat4,
}

/// The tangent of half the field of view, as the quotient of the
/// fixed-point sine and cosine at half the angle.
pub open spec fn tan_half_spec(fovy: int) -> int {
    fx_div(sin_spec(fovy / 2), cos_spec(fovy / 2))
}

/// Valid camera parameters: the field of view strictly inside one half
/// turn, and the far plane strictly beyond a positive near plane.
pub open spec fn camera_params_ok(fovy: int, near: int, far: int) -> bool {
    &&& 0 < fovy < PI_BITS as int
    &&& 0 < near < far
}

/// What the perspective projection matrix is, for a row vector
/// multiplied on the matrix's left: after it, the homogeneous w
/// component carries the view-space z.
pub open spec fn projection_spec(fovy: int, aspect_ratio: int, near: int, far: int) -> Mat4V {
    let t = tan_half_spec(fovy);
    Mat4V {
        m00: fx_div(65536, fx_mul(aspect_ratio, t)),
        m01: 0,
        m02: 0,
        m03: 0,
        m10: 0,
        m11: fx_div(65536, t),
        m12: 0,
        m13: 0,
        m20: 0,
        m21: 0,
        m22: fx_div(far, fx_sub(far, near)),
        m23: 65536,
        m30: 0,
        m31: 0,
        m32: -fx_div(fx_mul(far, near), fx_sub(far, near)),
        m33: 0,
    }
}

impl Camera {
    /// Build a perspective camera from the vertical field of view in
    /// fixed-point radians, the aspect ratio (height over width), and the
    /// near and far plane distances. Degenerate parameters are rejected
    /// at construction rather than left to poison every later frame.
    pub fn new_perspective_camera(fovy: Fx, aspect_ratio: Fx, near: Fx, far: Fx) -> (r: Result<
        Camera,
        RenderError,
    >)
        ensures
            r is Ok <==> camera_params_ok(fovy@, near@, far@),
            r matches Err(e) ==> e == RenderError::DegenerateProjection,
            r matches Ok(c) ==> c.projection_matrix@ == projection_spec(
                fovy@,
                aspect_ratio@,
                near@,
                far@,
            ),
    {
        let fb = fovy.bits();
        if !(0 < fb && fb < PI_BITS) {
            return Err(RenderError::DegenerateProjection);
        }
        let nb = near.bits();
        let farb = far.bits();
        if !(0 < nb && nb < farb) {
            return Err(RenderError::DegenerateProjection);
        }
        let half = Fx::from_bits(((fb as u64) / 2) as i64);
        proof {
            use_type_invariant(fovy);
            assert(half@ == fovy@ / 2);
        }
        let t = crate::trig::sin_fx(half).div(crate::trig::cos_fx(half));
        let den = far.sub(near);
        let z = Fx::zero();
        let m = FxMat4 {
            m00: Fx::one().div(aspect_ratio.mul(t)),
            m01: z,
            m02: z,
            m03: z,
            m10: z,
            m11: Fx::one().div(t),
            m12: z,
            m13: z,
            m20: z,
            m21: z,
            m22: far.div(den),
            m23: Fx::one(),
            m30: z,
            m31: z,
            m32: far.mul(near).div(den).neg(),
            m33: z,
        };
        Ok(Camera { projection_matrix: m })
    }
}

} // verus!
