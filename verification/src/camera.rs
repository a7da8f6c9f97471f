//! The renderer-facing camera uniform payload.
//!
//! Two modes: a moving camera hands the shader its world-space eye position
//! and directions with an identity matrix, while a stationary camera sits at
//! the origin looking down `-z` and hands the shader the view matrix to
//! pre-transform the scene instead.

use vstd::prelude::*;
use crate::fixed::FP_ONE;
use crate::linalg::{Vec4, Mat4, Mat4View, v4};
use crate::arcball::{ArcballCamera, spec_eye_pos, spec_eye_dir, spec_up_dir, spec_view_mat};

verus! {

/// The identity view matrix at scale `FP_ONE`.
pub open spec fn spec_mat4_identity() -> Mat4View {
    Mat4View {
        r0: v4(FP_ONE as int, 0, 0, 0),
        r1: v4(0, FP_ONE as int, 0, 0),
        r2: v4(0, 0, FP_ONE as int, 0),
        r3: v4(0, 0, 0, FP_ONE as int),
    }
}

/// The camera payload handed to the renderer; vectors carry a zero `w`
/// component as alignment padding.
#[derive(Clone, Copy, PartialEq, Eq, Structural, Debug)]
pub struct CameraUniform {
    pub origin: Vec4,
    pub view_direction: Vec4,
    pub up: Vec4,
    pub view_matrix: Mat4,
}

impl CameraUniform {
    /// Moving-camera mode: eye position and directions in world space, an
    /// identity view matrix.
    pub fn moving(camera: &ArcballCamera) -> (u: CameraUniform)
        requires
            camera.wf(),
        ensures
            u.origin@ == (v4(
                spec_eye_pos(*camera).x,
                spec_eye_pos(*camera).y,
                spec_eye_pos(*camera).z,
                0,
            )),
            u.view_direction@ == (v4(
                spec_eye_dir(*camera).x,
                spec_eye_dir(*camera).y,
                spec_eye_dir(*camera).z,
                0,
            )),
            u.up@ == (v4(
                spec_up_dir(*camera).x,
                spec_up_dir(*camera).y,
                spec_up_dir(*camera).z,
                0,
            )),
            u.view_matrix@ == spec_mat4_identity(),
    {
        let eye_pos = camera.eye_pos();
        let eye_dir = camera.eye_dir();
        let up_dir = camera.up_dir();
        CameraUniform {
            origin: Vec4 { x: eye_pos.x, y: eye_pos.y, z: eye_pos.z, w: 0 },
            view_direction: Vec4 { x: eye_dir.x, y: eye_dir.y, z: eye_dir.z, w: 0 },
            up: Vec4 { x: up_dir.x, y: up_dir.y, z: up_dir.z, w: 0 },
            view_matrix: Mat4 {
                r0: Vec4 { x: FP_ONE, y: 0, z: 0, w: 0 },
                r1: Vec4 { x: 0, y: FP_ONE, z: 0, w: 0 },
                r2: Vec4 { x: 0, y: 0, z: FP_ONE, w: 0 },
                r3: Vec4 { x: 0, y: 0, z: 0, w: FP_ONE },
            },
        }
    }

    /// Stationary-camera mode: a fixed camera at the origin looking down
    /// `-z`, with the view matrix applied to the scene instead.
    pub fn stationary(camera: &ArcballCamera) -> (u: CameraUniform)
        requires
            camera.wf(),
        ensures
            u.origin@ == v4(0, 0, 0, 0),
            u.view_direction@ == v4(0, 0, -(FP_ONE as int), 0),
            u.up@ == v4(0, FP_ONE as int, 0, 0),
            u.view_matrix@ == spec_view_mat(*camera),
    {
        CameraUniform {
            origin: Vec4 { x: 0, y: 0, z: 0, w: 0 },
            view_direction: Vec4 { x: 0, y: 0, z: -FP_ONE, w: 0 },
            up: Vec4 { x: 0, y: FP_ONE, z: 0, w: 0 },
            view_matrix: camera.get_mat4(),
        }
    }
}

} // verus!
