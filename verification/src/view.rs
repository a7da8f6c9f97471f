//! The per-view interaction layer: one camera, the pointer-drag state
//! machine, the pending render settings and the redraw dirty flag.
//!
//! A view is `Idle` while no drag is under way (`prev_pointer_pos` is
//! `None`); the first pointer sample of a drag only records its position and
//! must not move the camera, every later sample applies exactly the delta
//! between the previous and the current position.  Every mutation of camera
//! or settings raises `needs_redraw`; only the frame scheduler clears it,
//! after the compute dispatch has been issued.

use vstd::prelude::*;
use vstd::string::StringExecFns;
use crate::fixed::{FP_ONE, FP_MAX, spec_fp_div, spec_clamp, fp_div, lemma_trunc_div_exact};
use crate::linalg::{Vec3, Quat, v3};
use crate::arcball::{
    ArcballCamera, CameraOperation, spec_rotate_q, spec_pan_translation, spec_zoom_motion,
};
use crate::camera::CameraUniform;

verus! {

/// Fixed zoom timestep handed to the camera for scroll input, about one
/// sixtieth of a second in fixed-point units.
pub const ZOOM_TIMESTEP: i64 = 1092;

/// Overlay selection for the compute pass.
#[derive(Clone, Copy, PartialEq, Eq, Structural, Debug)]
pub enum OverlayMode {
    Disabled,
    LyapunovExponents,
}

pub open spec fn spec_overlay_code(m: OverlayMode) -> int {
    match m {
        OverlayMode::Disabled => 0,
        OverlayMode::LyapunovExponents => 1,
    }
}

impl OverlayMode {
    /// The integer code written into the GPU-facing settings record.
    pub fn code(&self) -> (c: i32)
        ensures
            c as int == spec_overlay_code(*self),
    {
        match self {
            OverlayMode::Disabled => 0,
            OverlayMode::LyapunovExponents => 1,
        }
    }

    /// Human-readable name of the mode.
    pub fn to_string(&self) -> (s: String)
        ensures
            *self == OverlayMode::Disabled ==> s@ == "Disabled"@,
            *self == OverlayMode::LyapunovExponents ==> s@ == "Lyapunov exponents"@,
    {
        match self {
            OverlayMode::Disabled => String::from_str("Disabled"),
            OverlayMode::LyapunovExponents => String::from_str("Lyapunov exponents"),
        }
    }
}

/// The GPU-facing render settings, written wholesale on every change.
/// Scalars are fixed-point values; the central-difference delta is a small
/// integer count.
#[derive(Clone, Copy, PartialEq, Eq, Structural, Debug)]
pub struct Settings {
    pub field_weight: i64,
    pub mouse_pos_x: i64,
    pub mouse_pos_y: i64,
    pub overlay_mode: OverlayMode,
    pub central_difference_delta: i32,
    pub lyapunov_scaling: i64,
}

impl Settings {
    /// The settings a fresh view starts with: full field weight, the pick
    /// position slightly above the middle of the view, no overlay, the
    /// smallest difference delta and mid-range scaling.
    pub fn initial() -> (s: Settings)
        ensures
            s == spec_initial_settings(),
    {
        Settings {
            field_weight: FP_ONE,
            mouse_pos_x: 32768,
            mouse_pos_y: 39321,
            overlay_mode: OverlayMode::Disabled,
            central_difference_delta: 1,
            lyapunov_scaling: 3276800,
        }
    }
}

/// Half of one unit, six tenths of one unit and fifty units, the initial
/// pick position and scaling.
pub open spec fn spec_initial_settings() -> Settings {
    Settings {
        field_weight: FP_ONE,
        mouse_pos_x: 32768,
        mouse_pos_y: 39321,
        overlay_mode: OverlayMode::Disabled,
        central_difference_delta: 1,
        lyapunov_scaling: 3276800,
    }
}

/// One interactive view: its camera, drag state, settings and dirty flag.
#[derive(Clone, PartialEq, Eq, Debug)]
pub struct ViewController {
    pub camera: ArcballCamera,
    /// Last pointer position of a running drag, in fixed-point pixels;
    /// `None` while idle, so the next sample only records its position.
    pub prev_pointer_pos: Option<(i64, i64)>,
    /// Raised by every camera or settings mutation; cleared only after the
    /// compute dispatch has been issued.
    pub needs_redraw: bool,
    pub settings: Settings,
    /// Selects the stationary-camera uniform mode (rotate the scene instead
    /// of the camera).
    pub rotate_scene: bool,
}

/// The camera a view starts with, or returns to on reset: focused on
/// `center`, unit zoom speed, zoomed one unit further back (two units in
/// all), identity orientation.
pub open spec fn spec_fresh_camera(center: Vec3, screen_w: i64, screen_h: i64) -> ArcballCamera {
    ArcballCamera {
        center,
        translation: Vec3 { x: 0, y: 0, z: (-131072) as i64 },
        center_translation: Vec3 {
            x: (-(center.x as int)) as i64,
            y: (-(center.y as int)) as i64,
            z: (-(center.z as int)) as i64,
        },
        rotation: Quat { w: FP_ONE, x: 0, y: 0, z: 0 },
        zoom_speed: FP_ONE,
        screen_w,
        screen_h,
    }
}

/// Camera reset: a fresh camera around the same center and screen, dirty
/// flag raised; drag state and settings are untouched.
pub open spec fn spec_reset(v: ViewController) -> ViewController {
    ViewController {
        camera: spec_fresh_camera(v.camera.center, v.camera.screen_w, v.camera.screen_h),
        needs_redraw: true,
        ..v
    }
}

/// Writing the settings record raises the dirty flag and changes nothing
/// else.
pub open spec fn spec_update_settings(v: ViewController, s: Settings) -> ViewController {
    ViewController { settings: s, needs_redraw: true, ..v }
}

impl ViewController {
    pub open spec fn wf(self) -> bool {
        &&& self.camera.wf()
        &&& match self.prev_pointer_pos {
            Some(p) => -FP_MAX <= p.0 <= FP_MAX && -FP_MAX <= p.1 <= FP_MAX,
            None => true,
        }
    }

    /// A fresh view around `center`: fresh camera, idle drag state, initial
    /// settings, moving-camera mode, and a first frame owed.
    pub fn new(center: Vec3, screen_w: i64, screen_h: i64) -> (v: ViewController)
        requires
            crate::linalg::v3_bounded(center@, FP_MAX as int),
            1 <= screen_w <= FP_MAX,
            1 <= screen_h <= FP_MAX,
        ensures
            v.wf(),
            v.camera == spec_fresh_camera(center, screen_w, screen_h),
            v.prev_pointer_pos is None,
            v.needs_redraw == true,
            v.settings == spec_initial_settings(),
            v.rotate_scene == false,
    {
        ViewController {
            camera: fresh_camera(center, screen_w, screen_h),
            prev_pointer_pos: None,
            needs_redraw: true,
            settings: Settings::initial(),
            rotate_scene: false,
        }
    }

    /// Reconstruct the camera around its current center, keeping the screen
    /// dimensions; marks the view dirty.
    pub fn reset_camera(&mut self)
        requires
            old(self).wf(),
        ensures
            final(self).wf(),
            *final(self) == spec_reset(*old(self)),
    {
        let center = self.camera.center;
        let w = self.camera.screen_w;
        let h = self.camera.screen_h;
        self.camera = fresh_camera(center, w, h);
        self.needs_redraw = true;
    }

    /// One pointer sample of a drag.  The first sample after idling only
    /// records its position and leaves camera and dirty flag untouched;
    /// every later sample applies exactly the delta between the recorded
    /// and the current position, as a rotation or a pan depending on the
    /// operation, and marks the view dirty.
    pub fn on_pointer_moved(&mut self, camera_op: CameraOperation, x: i64, y: i64)
        requires
            old(self).wf(),
            -FP_MAX <= x <= FP_MAX,
            -FP_MAX <= y <= FP_MAX,
        ensures
            final(self).wf(),
            final(self).prev_pointer_pos == Some((x, y)),
            final(self).settings == old(self).settings,
            final(self).rotate_scene == old(self).rotate_scene,
            old(self).prev_pointer_pos is None ==> final(self).camera == old(self).camera
                && final(self).needs_redraw == old(self).needs_redraw,
            old(self).prev_pointer_pos matches Some(p) ==> (camera_op
                == CameraOperation::Rotate ==> final(self).camera.rotation@ == spec_rotate_q(
                old(self).camera.rotation@,
                old(self).camera.screen_w as int,
                old(self).camera.screen_h as int,
                (p.0 as int, p.1 as int),
                (x as int, y as int),
            ) && final(self).camera.center_translation == old(self).camera.center_translation
                && final(self).needs_redraw == true),
            old(self).prev_pointer_pos matches Some(p) ==> (camera_op == CameraOperation::Pan
                ==> final(self).camera.center_translation@ == spec_pan_translation(
                old(self).camera,
                x as int - p.0 as int,
                y as int - p.1 as int,
            ) && final(self).camera.rotation == old(self).camera.rotation
                && final(self).needs_redraw == true),
            old(self).prev_pointer_pos is Some && camera_op == CameraOperation::Idle
                ==> final(self).camera == old(self).camera && final(self).needs_redraw == old(
                self,
            ).needs_redraw,
            final(self).camera.center == old(self).camera.center,
            final(self).camera.translation == old(self).camera.translation,
            final(self).camera.zoom_speed == old(self).camera.zoom_speed,
            final(self).camera.screen_w == old(self).camera.screen_w,
            final(self).camera.screen_h == old(self).camera.screen_h,
    {
        match self.prev_pointer_pos {
            None => {
                self.prev_pointer_pos = Some((x, y));
            },
            Some(prev) => {
                match camera_op {
                    CameraOperation::Rotate => {
                        self.camera.rotate(prev.0, prev.1, x, y);
                        self.needs_redraw = true;
                    },
                    CameraOperation::Pan => {
                        self.camera.pan(x - prev.0, y - prev.1);
                        self.needs_redraw = true;
                    },
                    CameraOperation::Idle => {},
                }
                self.prev_pointer_pos = Some((x, y));
            },
        }
    }

    /// End of a drag: forget the recorded pointer position, so that the next
    /// sample starts a new drag without a jump.
    pub fn on_drag_released(&mut self)
        ensures
            *final(self) == (ViewController { prev_pointer_pos: None, ..*old(self) }),
    {
        self.prev_pointer_pos = None;
    }

    /// Scroll input: zoom by the scroll delta over the fixed timestep, and
    /// mark the view dirty.  Not gated by the drag state.
    pub fn on_zoom(&mut self, delta: i64)
        requires
            old(self).wf(),
            -FP_MAX <= delta <= FP_MAX,
        ensures
            final(self).wf(),
            final(self).camera.translation@ == v3(
                old(self).camera.translation@.x,
                old(self).camera.translation@.y,
                spec_clamp(
                    old(self).camera.translation@.z + spec_zoom_motion(
                        old(self).camera.zoom_speed as int,
                        delta as int,
                        ZOOM_TIMESTEP as int,
                    ),
                    -(FP_MAX as int),
                    FP_MAX as int,
                ),
            ),
            final(self).needs_redraw == true,
            final(self).camera.center == old(self).camera.center,
            final(self).camera.center_translation == old(self).camera.center_translation,
            final(self).camera.rotation == old(self).camera.rotation,
            final(self).camera.zoom_speed == old(self).camera.zoom_speed,
            final(self).camera.screen_w == old(self).camera.screen_w,
            final(self).camera.screen_h == old(self).camera.screen_h,
            final(self).prev_pointer_pos == old(self).prev_pointer_pos,
            final(self).settings == old(self).settings,
            final(self).rotate_scene == old(self).rotate_scene,
    {
        self.camera.zoom(delta, ZOOM_TIMESTEP);
        self.needs_redraw = true;
    }

    /// Write the settings record wholesale and mark the view dirty.
    pub fn update_settings(&mut self, settings: Settings)
        requires
            old(self).wf(),
        ensures
            final(self).wf(),
            *final(self) == spec_update_settings(*old(self), settings),
    {
        self.settings = settings;
        self.needs_redraw = true;
    }

    /// Toggle between the moving-camera and the rotate-scene uniform modes;
    /// marks the view dirty.
    pub fn set_rotate_scene(&mut self, rotate_scene: bool)
        requires
            old(self).wf(),
        ensures
            final(self).wf(),
            *final(self) == (ViewController {
                rotate_scene,
                needs_redraw: true,
                ..*old(self)
            }),
    {
        self.rotate_scene = rotate_scene;
        self.needs_redraw = true;
    }

    /// The view surface was resized: update the camera's screen mapping and
    /// mark the view dirty.
    pub fn resize(&mut self, width: i64, height: i64)
        requires
            old(self).wf(),
            1 <= width <= FP_MAX,
            1 <= height <= FP_MAX,
        ensures
            final(self).wf(),
            final(self).camera.screen_w == width,
            final(self).camera.screen_h == height,
            final(self).camera.center == old(self).camera.center,
            final(self).camera.translation == old(self).camera.translation,
            final(self).camera.center_translation == old(self).camera.center_translation,
            final(self).camera.rotation == old(self).camera.rotation,
            final(self).camera.zoom_speed == old(self).camera.zoom_speed,
            final(self).needs_redraw == true,
            final(self).prev_pointer_pos == old(self).prev_pointer_pos,
            final(self).settings == old(self).settings,
            final(self).rotate_scene == old(self).rotate_scene,
    {
        self.camera.update_screen(width, height);
        self.needs_redraw = true;
    }

    /// The uniform payload for the current camera, in the mode the view is
    /// set to.
    pub fn camera_uniform(&self) -> (u: CameraUniform)
        requires
            self.wf(),
        ensures
            !self.rotate_scene ==> u.origin@ == (crate::linalg::v4(
                crate::arcball::spec_eye_pos(self.camera).x,
                crate::arcball::spec_eye_pos(self.camera).y,
                crate::arcball::spec_eye_pos(self.camera).z,
                0,
            )) && u.view_direction@ == (crate::linalg::v4(
                crate::arcball::spec_eye_dir(self.camera).x,
                crate::arcball::spec_eye_dir(self.camera).y,
                crate::arcball::spec_eye_dir(self.camera).z,
                0,
            )) && u.up@ == (crate::linalg::v4(
                crate::arcball::spec_up_dir(self.camera).x,
                crate::arcball::spec_up_dir(self.camera).y,
                crate::arcball::spec_up_dir(self.camera).z,
                0,
            )) && u.view_matrix@ == crate::camera::spec_mat4_identity(),
            self.rotate_scene ==> u.origin@ == crate::linalg::v4(0, 0, 0, 0)
                && u.view_direction@ == crate::linalg::v4(0, 0, -(FP_ONE as int), 0) && u.up@
                == crate::linalg::v4(0, FP_ONE as int, 0, 0) && u.view_matrix@
                == crate::arcball::spec_view_mat(self.camera),
    {
        if self.rotate_scene {
            CameraUniform::stationary(&self.camera)
        } else {
            CameraUniform::moving(&self.camera)
        }
    }
}

/// Construct the fresh camera of `spec_fresh_camera`: one unit back at
/// construction, then zoomed one more unit back over one second.
fn fresh_camera(center: Vec3, screen_w: i64, screen_h: i64) -> (c: ArcballCamera)
    requires
        crate::linalg::v3_bounded(center@, FP_MAX as int),
        1 <= screen_w <= FP_MAX,
        1 <= screen_h <= FP_MAX,
    ensures
        c.wf(),
        c == spec_fresh_camera(center, screen_w, screen_h),
{
    let mut camera = ArcballCamera::new(center, FP_ONE, screen_w, screen_h);
    proof {
        lemma_trunc_div_exact(-(FP_ONE as int), FP_ONE as int);
    }
    camera.zoom(-FP_ONE, FP_ONE);
    camera
}

/// Idempotence of camera reset: resetting twice in a row, with no
/// intervening input, is the same as resetting once; in particular the
/// camera (and so its derived matrices) is identical both times.
pub proof fn lemma_reset_idempotent(v: ViewController)
    ensures
        spec_reset(spec_reset(v)) == spec_reset(v),
{
}

/// The pick position of a pointer at `(x, y)` in a view of size `(w, h)`,
/// normalized to unit coordinates with the y axis flipped.
pub fn normalized_pick(x: i64, y: i64, w: i64, h: i64) -> (p: (i64, i64))
    requires
        -FP_MAX <= x <= FP_MAX,
        -FP_MAX <= y <= FP_MAX,
        1 <= w <= FP_MAX,
        1 <= h <= FP_MAX,
    ensures
        p.0 == spec_fp_div(x as int, w as int),
        p.1 == spec_fp_div(h as int - y as int, h as int),
{
    proof {
        crate::arcball::lemma_div_result_fits(x as int, w as int);
        crate::arcball::lemma_div_result_fits(h as int - y as int, h as int);
    }
    (fp_div(x, w), fp_div(h - y, h))
}

} // verus!
