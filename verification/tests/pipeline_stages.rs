//! Triangle assembly, backface culling, and the whole draw call.

use term3d::error::RenderError;
use term3d::fixed::Fx;
use term3d::linalg::{FxVec3, FxVec4};
use term3d::model::{GameObject, Model};
use term3d::pipeline::{Pipeline, Triangle};
use term3d::scene::{Scene, SimpleScene, ROT_STEP_BITS};

/// A homogeneous point at whole coordinates with w = 1.
fn v4(x: i32, y: i32, z: i32) -> FxVec4 {
    FxVec4::new(Fx::from_int(x), Fx::from_int(y), Fx::from_int(z), Fx::one())
}

#[test]
fn assembler_groups_indices_into_triangles_in_order() {
    let pipeline = Pipeline::new(80, 32);
    let objs = vec![GameObject::new(Model::square())];
    let ts = pipeline.triangle_assembler(&objs).unwrap();
    assert_eq!(ts.len(), 2);
    // first triangle: vertices 0, 2, 1 of the square
    let vb = &objs[0].model.vertex_buffer;
    assert_eq!(ts[0].v0.x.bits(), vb[0].x.bits());
    assert_eq!(ts[0].v1.y.bits(), vb[2].y.bits());
    assert_eq!(ts[0].v2.x.bits(), vb[1].x.bits());
    // second triangle: vertices 1, 2, 3
    assert_eq!(ts[1].v0.x.bits(), vb[1].x.bits());
    assert_eq!(ts[1].v1.x.bits(), vb[2].x.bits());
    assert_eq!(ts[1].v2.x.bits(), vb[3].x.bits());
    // every assembled vertex is homogeneous with w = 1
    assert_eq!(ts[0].v0.w.bits(), 65536);
}

#[test]
fn assembler_rejects_ragged_index_count() {
    let pipeline = Pipeline::new(80, 32);
    let mut model = Model::triangle();
    model.index_buffer.push(1);
    let objs = vec![GameObject::new(model)];
    assert!(matches!(
        pipeline.triangle_assembler(&objs),
        Err(RenderError::MalformedMesh)
    ));
}

#[test]
fn assembler_rejects_too_few_vertices() {
    let pipeline = Pipeline::new(80, 32);
    let model = Model {
        vertex_buffer: vec![
            FxVec3::new(Fx::zero(), Fx::zero(), Fx::one()),
            FxVec3::new(Fx::one(), Fx::zero(), Fx::one()),
        ],
        index_buffer: vec![0, 1, 0],
    };
    let objs = vec![GameObject::new(model)];
    assert!(matches!(
        pipeline.triangle_assembler(&objs),
        Err(RenderError::MalformedMesh)
    ));
}

#[test]
fn assembler_rejects_out_of_bounds_index() {
    let pipeline = Pipeline::new(80, 32);
    let mut model = Model::triangle();
    model.index_buffer = vec![0, 1, 3];
    let objs = vec![GameObject::new(model)];
    assert!(matches!(
        pipeline.triangle_assembler(&objs),
        Err(RenderError::MalformedMesh)
    ));
}

#[test]
fn assembler_aggregates_objects_in_submission_order() {
    let pipeline = Pipeline::new(80, 32);
    let objs = vec![
        GameObject::new(Model::triangle()),
        GameObject::new(Model::cube()),
    ];
    let ts = pipeline.triangle_assembler(&objs).unwrap();
    assert_eq!(ts.len(), 1 + 12);
}

#[test]
fn counter_clockwise_front_face_is_kept_and_reversal_flips_it() {
    // Vertices at positive depth, counter-clockwise as projected
    // (x right, y up): the test keeps the triangle.
    let ccw = Triangle::new(v4(0, 0, 1), v4(1, 0, 1), v4(0, 1, 1));
    assert!(ccw.is_front_facing());
    // the same corners in the opposite order face away
    let cw = Triangle::new(v4(0, 0, 1), v4(0, 1, 1), v4(1, 0, 1));
    assert!(!cw.is_front_facing());
}

#[test]
fn backface_culling_flags_each_triangle() {
    let pipeline = Pipeline::new(80, 32);
    let ccw = Triangle::new(v4(0, 0, 1), v4(1, 0, 1), v4(0, 1, 1));
    let cw = Triangle::new(v4(0, 0, 1), v4(0, 1, 1), v4(1, 0, 1));
    let flags = pipeline.backface_culling(&vec![ccw, cw, ccw]);
    assert_eq!(flags, vec![true, false, true]);
}

#[test]
fn post_processing_keeps_only_front_facing_triangles_in_order() {
    let pipeline = Pipeline::new(80, 32);
    let aspect = pipeline.aspect_ratio();
    let camera = term3d::camera::Camera::new_perspective_camera(
        Fx::from_bits(51472),
        aspect,
        Fx::from_bits(6554),
        Fx::from_int(10),
    )
    .unwrap();
    // a flat z = 1 plane triangle, counter-clockwise, stays counter-
    // clockwise after this projection (x and y are only scaled)
    let ccw = Triangle::new(v4(0, 0, 1), v4(1, 0, 1), v4(0, 1, 1));
    let cw = Triangle::new(v4(0, 0, 1), v4(0, 1, 1), v4(1, 0, 1));
    let kept = pipeline.post_process_triangles(&camera, &vec![cw, ccw, cw]);
    assert_eq!(kept.len(), 1);
    // the survivor is the projected counter-clockwise triangle
    assert!(kept[0].is_front_facing());
}

#[test]
fn simple_scene_update_advances_the_z_rotation() {
    let pipeline = Pipeline::new(80, 32);
    let mut scene = SimpleScene::new(pipeline.aspect_ratio()).unwrap();
    assert_eq!(scene.game_objects[0].transform.rotation.z.bits(), 0);
    scene.update();
    assert_eq!(
        scene.game_objects[0].transform.rotation.z.bits(),
        ROT_STEP_BITS
    );
    scene.update();
    assert_eq!(
        scene.game_objects[0].transform.rotation.z.bits(),
        2 * ROT_STEP_BITS
    );
    // the camera does not change across steps
    let before = scene.camera.projection_matrix.m22.bits();
    scene.update();
    assert_eq!(scene.camera.projection_matrix.m22.bits(), before);
}

#[test]
fn draw_produces_a_frame_of_the_pipeline_dimensions() {
    let pipeline = Pipeline::new(80, 32);
    let scene = SimpleScene::new(pipeline.aspect_ratio()).unwrap();
    let fb = pipeline.draw(&scene).unwrap();
    assert_eq!(fb.width(), 80);
    assert_eq!(fb.height(), 32);
    for y in 0..32 {
        assert_eq!(fb.row_bytes(y).len(), 80);
    }
}

#[test]
fn draw_renders_the_front_facing_demo_square() {
    let pipeline = Pipeline::new(80, 32);
    let scene = SimpleScene::new(pipeline.aspect_ratio()).unwrap();
    let fb = pipeline.draw(&scene).unwrap();
    // the square's two triangles face the camera, so a block of cells
    // around the frame's center carries their glyphs
    let mut filled = 0u32;
    for y in 0..32 {
        for x in 0..80 {
            let g = fb.glyph_at(x, y);
            if g != 32 {
                assert!(g == b'X' || g == b'A', "unexpected glyph {}", g);
                filled += 1;
            }
        }
    }
    assert!(filled > 50, "only {} cells filled", filled);
    assert_ne!(fb.glyph_at(40, 16), 32);
}

#[test]
fn draw_rejects_a_scene_with_a_malformed_mesh() {
    let pipeline = Pipeline::new(80, 32);
    let mut scene = SimpleScene::new(pipeline.aspect_ratio()).unwrap();
    scene.game_objects[0].model.index_buffer.pop();
    assert!(matches!(
        pipeline.draw(&scene),
        Err(RenderError::MalformedMesh)
    ));
}

#[test]
fn mesh_constructors_carry_the_authored_buffers() {
    let t = Model::triangle();
    assert_eq!(t.vertex_buffer.len(), 3);
    assert_eq!(t.index_buffer, vec![0, 2, 1]);
    assert_eq!(t.vertex_buffer[0].y.bits(), 32768);
    let s = Model::square();
    assert_eq!(s.vertex_buffer.len(), 4);
    assert_eq!(s.index_buffer, vec![0, 2, 1, 1, 2, 3]);
    let c = Model::cube();
    assert_eq!(c.vertex_buffer.len(), 8);
    assert_eq!(c.index_buffer.len(), 36);
    assert!(c.index_buffer.iter().all(|&i| i < 8));
    assert_eq!(c.vertex_buffer[7].x.bits(), 32768);
    assert_eq!(c.vertex_buffer[0].x.bits(), -32768);
}
