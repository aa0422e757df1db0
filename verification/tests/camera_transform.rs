//! The projection matrix and the model-view matrix hold their stated
//! entries, and the identity transform is an exact round trip.

use term3d::camera::Camera;
use term3d::error::RenderError;
use term3d::fixed::Fx;
use term3d::linalg::{FxVec3, FxVec4};
use term3d::model::{Geometry, GameObject, Model, Transform};
use term3d::scene::{DEMO_FAR_BITS, DEMO_NEAR_BITS, FRAC_PI_4_BITS};

/// Truncating division as the fixed-point operations round.
fn tdiv(x: i128, d: i128) -> i128 {
    x / d
}

#[test]
fn projection_depth_entries_hold_the_standard_form() {
    let fovy = Fx::from_bits(FRAC_PI_4_BITS);
    let aspect = Fx::from_bits(26214); // 32/80
    let near = Fx::from_bits(DEMO_NEAR_BITS); // 0.1
    let far = Fx::from_bits(DEMO_FAR_BITS); // 10
    let cam = Camera::new_perspective_camera(fovy, aspect, near, far).unwrap();
    let m = cam.projection_matrix;

    let nb = DEMO_NEAR_BITS as i128;
    let fb = DEMO_FAR_BITS as i128;
    // far / (far - near), in scale units, truncating
    let expect_m22 = tdiv(fb * 65536, fb - nb) as i64;
    // -(far * near) / (far - near)
    let fn_prod = tdiv(fb * nb, 65536);
    let expect_m32 = -(tdiv(fn_prod * 65536, fb - nb) as i64);
    assert_eq!(m.m22.bits(), expect_m22);
    assert_eq!(m.m32.bits(), expect_m32);
    // w takes the view-space z: the (2,3) entry is one
    assert_eq!(m.m23.bits(), 65536);
    assert_eq!(m.m20.bits(), 0);
    assert_eq!(m.m21.bits(), 0);

    // and the fixed-point entries sit within a scale unit of the
    // real-valued form
    let m22f = m.m22.bits() as f64 / 65536.0;
    let m32f = m.m32.bits() as f64 / 65536.0;
    assert!((m22f - 10.0 / 9.9).abs() < 0.0001);
    assert!((m32f - (-1.0 / 9.9)).abs() < 0.0001);
}

#[test]
fn projection_fov_entries_follow_the_half_angle_tangent() {
    let fovy = Fx::from_bits(FRAC_PI_4_BITS);
    let aspect = Fx::from_bits(26214);
    let near = Fx::from_bits(DEMO_NEAR_BITS);
    let far = Fx::from_bits(DEMO_FAR_BITS);
    let cam = Camera::new_perspective_camera(fovy, aspect, near, far).unwrap();
    let m = cam.projection_matrix;
    let tan_half = (std::f64::consts::FRAC_PI_8).tan();
    let m00f = m.m00.bits() as f64 / 65536.0;
    let m11f = m.m11.bits() as f64 / 65536.0;
    assert!((m00f - 1.0 / (0.4 * tan_half)).abs() < 0.01, "m00 {}", m00f);
    assert!((m11f - 1.0 / tan_half).abs() < 0.01, "m11 {}", m11f);
}

#[test]
fn degenerate_camera_parameters_are_rejected() {
    let aspect = Fx::from_bits(26214);
    let tenth = Fx::from_bits(6554);
    let ten = Fx::from_int(10);
    let fov = Fx::from_bits(FRAC_PI_4_BITS);
    // far must lie beyond near
    assert!(matches!(
        Camera::new_perspective_camera(fov, aspect, ten, tenth),
        Err(RenderError::DegenerateProjection)
    ));
    // far == near
    assert!(matches!(
        Camera::new_perspective_camera(fov, aspect, ten, ten),
        Err(RenderError::DegenerateProjection)
    ));
    // near must be positive
    assert!(matches!(
        Camera::new_perspective_camera(fov, aspect, Fx::zero(), ten),
        Err(RenderError::DegenerateProjection)
    ));
    // the field of view must be strictly inside (0, pi)
    assert!(matches!(
        Camera::new_perspective_camera(Fx::zero(), aspect, tenth, ten),
        Err(RenderError::DegenerateProjection)
    ));
    assert!(matches!(
        Camera::new_perspective_camera(Fx::from_bits(205887), aspect, tenth, ten),
        Err(RenderError::DegenerateProjection)
    ));
    // and a valid set passes
    assert!(Camera::new_perspective_camera(fov, aspect, tenth, ten).is_ok());
}

#[test]
fn identity_transform_round_trips_the_mesh() {
    let obj = GameObject::new(Model::triangle());
    let world = obj.verteces();
    assert_eq!(world.len(), 3);
    for (i, v) in world.iter().enumerate() {
        let src = obj.model.vertex_buffer[i];
        assert_eq!(v.x.bits(), src.x.bits());
        assert_eq!(v.y.bits(), src.y.bits());
        assert_eq!(v.z.bits(), src.z.bits());
        assert_eq!(v.w.bits(), 65536);
    }
}

#[test]
fn default_transform_model_view_is_the_identity_matrix() {
    let t = Transform::default();
    let m = t.model_view();
    assert_eq!(m.m00.bits(), 65536);
    assert_eq!(m.m11.bits(), 65536);
    assert_eq!(m.m22.bits(), 65536);
    assert_eq!(m.m33.bits(), 65536);
    for off in [
        m.m01, m.m02, m.m03, m.m10, m.m12, m.m13, m.m20, m.m21, m.m23, m.m30, m.m31, m.m32,
    ] {
        assert_eq!(off.bits(), 0);
    }
}

#[test]
fn translation_lands_in_the_last_row() {
    let mut t = Transform::default();
    t.translation = FxVec3::new(Fx::from_int(2), Fx::from_int(-3), Fx::from_int(5));
    let m = t.model_view();
    assert_eq!(m.m30.bits(), 2 * 65536);
    assert_eq!(m.m31.bits(), -3 * 65536);
    assert_eq!(m.m32.bits(), 5 * 65536);
    // a row vector picks the translation up through its w component
    let p = m.apply(FxVec4::new(Fx::zero(), Fx::zero(), Fx::zero(), Fx::one()));
    assert_eq!(p.x.bits(), 2 * 65536);
    assert_eq!(p.y.bits(), -3 * 65536);
    assert_eq!(p.z.bits(), 5 * 65536);
    assert_eq!(p.w.bits(), 65536);
}

#[test]
fn quarter_turn_about_z_swaps_the_axes() {
    let mut t = Transform::default();
    t.rotation = FxVec3::new(Fx::zero(), Fx::zero(), Fx::from_bits(102944)); // pi/2
    let m = t.model_view();
    let world = m.apply(FxVec4::new(Fx::one(), Fx::zero(), Fx::zero(), Fx::one()));
    // (1, 0, 0) rotates to roughly (0, 1, 0)
    let x = world.x.bits() as f64 / 65536.0;
    let y = world.y.bits() as f64 / 65536.0;
    assert!(x.abs() < 0.002, "x = {}", x);
    assert!((y - 1.0).abs() < 0.002, "y = {}", y);
    assert_eq!(world.z.bits(), 0);
}

#[test]
fn scale_multiplies_each_axis() {
    let mut t = Transform::default();
    t.scale = FxVec3::new(Fx::from_int(4), Fx::from_int(4), Fx::from_int(1));
    let m = t.model_view();
    let p = m.apply(FxVec4::new(
        Fx::from_bits(32768),
        Fx::from_bits(-32768),
        Fx::one(),
        Fx::one(),
    ));
    assert_eq!(p.x.bits(), 2 * 65536);
    assert_eq!(p.y.bits(), -2 * 65536);
    assert_eq!(p.z.bits(), 65536);
}
