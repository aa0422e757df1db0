//! The scene abstraction the pipeline draws, and a small demo scene.
//!
//! A scene offers exactly two capabilities — a camera and an ordered list
//! of renderable objects — plus an animation step the driving loop calls
//! between frames. What the step does is the scene's own business: each
//! implementation states it in its `stepped` relation.

use vstd::prelude::*;

use crate::camera::{projection_spec, Camera};
use crate::error::RenderError;
use crate::fixed::{fx_add, Fx};
use crate::linalg::{vec3_views, FxVec3, Vec3V};
use crate::model::{GameObject, Model, TransformV};

verus! {

/// A quarter of a half turn (pi/4) in scale units.
pub const FRAC_PI_4_BITS: i64 = 51472;

/// The demo's per-frame rotation increment, 0.8 degrees in radians.
pub const ROT_STEP_BITS: i64 = 915;

/// The near plane of the demo camera, 0.1 units.
pub const DEMO_NEAR_BITS: i64 = 6554;

/// The far plane of the demo camera, 10 units.
pub const DEMO_FAR_BITS: i64 = 655360;

/// What the pipeline asks of a scene: a camera and renderable objects,
/// refreshed once per frame, and an animation step between frames.
pub trait Scene {
    /// The camera the scene renders through.
    spec fn camera_spec(&self) -> Camera;

    /// The renderable objects, in submission order.
    spec fn objects_spec(&self) -> Seq<GameObject>;

    /// What one animation step does to this scene.
    spec fn stepped(&self, next: &Self) -> bool;

    /// Advance the animation by one frame.
    fn update(&mut self)
        ensures
            old(self).stepped(&*final(self)),
    ;

    /// The scene's camera.
    fn camera(&self) -> (c: Camera)
        ensures
            c == self.camera_spec(),
    ;

    /// The scene's renderable objects.
    fn game_objects(&self) -> (g: &Vec<GameObject>)
        ensures
            g@ == self.objects_spec(),
    ;
}

/// A demo scene: one unit square, scaled by four in x and y, spinning
/// about the z axis under a quarter-turn perspective camera.
pub struct SimpleScene {
    pub camera: Camera,
    pub game_objects: Vec<GameObject>,
}

impl SimpleScene {
    /// Build the demo scene for a frame's aspect ratio. The camera
    /// parameters are fixed and valid, so construction always succeeds.
    pub fn new(aspect_ratio: Fx) -> (r: Result<SimpleScene, RenderError>)
        ensures
            r is Ok,
            r matches Ok(s) ==> {
                &&& s.camera.projection_matrix@ == projection_spec(
                    FRAC_PI_4_BITS as int,
                    aspect_ratio@,
                    DEMO_NEAR_BITS as int,
                    DEMO_FAR_BITS as int,
                )
                &&& s.game_objects@.len() == 1
                &&& s.game_objects@[0].transform@ == (TransformV {
                    translation: Vec3V { x: 0, y: 0, z: 0 },
                    scale: Vec3V { x: 262144, y: 262144, z: 65536 },
                    rotation: Vec3V { x: 0, y: 0, z: 0 },
                })
                &&& vec3_views(s.game_objects@[0].model.vertex_buffer@) == seq![
                    (Vec3V { x: -32768, y: 32768, z: 65536 }),
                    (Vec3V { x: 32768, y: 32768, z: 65536 }),
                    (Vec3V { x: -32768, y: -32768, z: 65536 }),
                    (Vec3V { x: 32768, y: -32768, z: 65536 }),
                ]
                &&& s.game_objects@[0].model.index_buffer@ == seq![
                    0usize,
                    2usize,
                    1usize,
                    1usize,
                    2usize,
                    3usize,
                ]
            },
    {
        let camera = match Camera::new_perspective_camera(
            Fx::from_bits(FRAC_PI_4_BITS),
            aspect_ratio,
            Fx::from_bits(DEMO_NEAR_BITS),
            Fx::from_bits(DEMO_FAR_BITS),
        ) {
            Ok(c) => c,
            Err(e) => {
                // never reached: the demo parameters satisfy the camera's
                // validity conditions
                proof {
                    assert(false);
                }
                return Err(e);
            },
        };
        let mut obj = GameObject::new(Model::square());
        obj.transform.scale = FxVec3::new(Fx::from_int(4), Fx::from_int(4), Fx::from_int(1));
        let mut game_objects: Vec<GameObject> = Vec::new();
        game_objects.push(obj);
        Ok(SimpleScene { camera, game_objects })
    }
}

impl Scene for SimpleScene {
    open spec fn camera_spec(&self) -> Camera {
        self.camera
    }

    open spec fn objects_spec(&self) -> Seq<GameObject> {
        self.game_objects@
    }

    /// One step keeps the camera and every object's mesh, translation and
    /// scale, and advances the first object's z rotation by the fixed
    /// increment.
    open spec fn stepped(&self, next: &SimpleScene) -> bool {
        &&& next.camera == self.camera
        &&& next.game_objects@.len() == self.game_objects@.len()
        &&& self.game_objects@.len() >= 1 ==> {
            let o = self.game_objects@[0];
            let n = next.game_objects@[0];
            &&& n.model.vertex_buffer@ == o.model.vertex_buffer@
            &&& n.model.index_buffer@ == o.model.index_buffer@
            &&& n.transform.translation == o.transform.translation
            &&& n.transform.scale == o.transform.scale
            &&& n.transform.rotation.x == o.transform.rotation.x
            &&& n.transform.rotation.y == o.transform.rotation.y
            &&& n.transform.rotation.z@ == fx_add(o.transform.rotation.z@, ROT_STEP_BITS as int)
        }
    }

    fn update(&mut self)
        ensures
            old(self).stepped(&*final(self)),
    {
        if self.game_objects.len() >= 1 {
            let z = self.game_objects[0].transform.rotation.z;
            self.game_objects[0].transform.rotation.z = z.add(Fx::from_bits(ROT_STEP_BITS));
        }
    }

    fn camera(&self) -> (c: Camera)
        ensures
            c == self.camera_spec(),
    {
        self.camera
    }

    fn game_objects(&self) -> (g: &Vec<GameObject>)
        ensures
            g@ == self.objects_spec(),
    {
        &self.game_objects
    }
}

} // verus!
