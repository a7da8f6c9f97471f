//! The Shoemake arcball camera over exact fixed-point arithmetic.
//!
//! The camera orbits a pivot point: a translation along the local z axis
//! (zoom), an accumulated rotation quaternion and a pivot translation (pan)
//! compose into the view matrix `translation * rotation * center_translation`.
//! Its inverse is formed analytically from the transposed rotation, and the
//! eye position and the view and up directions are read from it.  Every
//! mutator states the new state exactly over the mathematical integers.

use vstd::prelude::*;
use crate::fixed::{
    FP_ONE, FP_MAX, trunc_div, spec_fp_mul, spec_fp_div, spec_clamp, spec_isqrt, is_isqrt,
    fp_mul, fp_div, fp_clamp, isqrt, lemma_abs_mul, lemma_trunc_div_bound,
    lemma_trunc_div_shrinks, lemma_trunc_div_exact, lemma_sq_lt, lemma_isqrt_unique,
};
use crate::linalg::{
    Vec3, Quat, Mat3, Mat4, Vec3View, QuatView, Mat4View, v3, v4, v3_bounded, v3_add, v3_neg,
    v3_clamp, q_bounded, q_identity, q_neg, spec_q_normsq, in_band, spec_q_mul, spec_rot_mat,
    spec_m3_mul_v3, spec_m3_tmul_v3, spec_normalize3, spec_stabilize, q_mul, q_stabilize,
    identity_quat, rot_mat, m3_mul_v3, m3_tmul_v3, normalize3, add_clamped,
    lemma_band_comp_bound, lemma_q_mul_comp_bound, lemma_identity_in_band, lemma_rot_mat_neg,
    lemma_neg_unit_times, lemma_pure_unit_square, lemma_rot_mat_identity, QC_MAX,
};

verus! {

/// What a pointer drag should do to the camera, decided from the button that
/// is held; passed in explicitly with every pointer sample.
#[derive(Clone, Copy, PartialEq, Eq, Structural, Debug)]
pub enum CameraOperation {
    Idle,
    Rotate,
    Pan,
}

/// The arcball camera.  All scalars are fixed-point values at scale
/// `FP_ONE`; screen dimensions are fixed-point pixel counts.
#[derive(Clone, Copy, PartialEq, Eq, Structural, Debug)]
pub struct ArcballCamera {
    /// World-space pivot the camera orbits.
    pub center: Vec3,
    /// Accumulated zoom translation along the local z axis.
    pub translation: Vec3,
    /// Accumulated inverse translation to the pivot; pan moves it.
    pub center_translation: Vec3,
    /// Accumulated orientation; kept within the near-unit norm band.
    pub rotation: Quat,
    /// Scalar multiplier on zoom input, fixed at construction.
    pub zoom_speed: i64,
    /// Screen width in fixed-point pixels.
    pub screen_w: i64,
    /// Screen height in fixed-point pixels.
    pub screen_h: i64,
}

impl ArcballCamera {
    /// Well-formedness: coordinates stay in the representable range and the
    /// rotation stays in the near-unit norm band.
    pub open spec fn wf(self) -> bool {
        &&& v3_bounded(self.center@, FP_MAX as int)
        &&& v3_bounded(self.translation@, FP_MAX as int)
        &&& v3_bounded(self.center_translation@, FP_MAX as int)
        &&& in_band(spec_q_normsq(self.rotation@))
        &&& 1 <= self.screen_w <= FP_MAX
        &&& 1 <= self.screen_h <= FP_MAX
        &&& -FP_MAX <= self.zoom_speed <= FP_MAX
    }
}

/// Map a fixed-point pixel x coordinate onto the device interval
/// `[-FP_ONE, FP_ONE]`: `2 * x / w - 1`, clamped.
pub open spec fn spec_ndc_x(w: int, x: int) -> int {
    spec_clamp(spec_fp_div(2 * x - w, w), -(FP_ONE as int), FP_ONE as int)
}

/// Map a fixed-point pixel y coordinate onto the device interval, flipped:
/// `1 - 2 * y / h`, clamped.
pub open spec fn spec_ndc_y(h: int, y: int) -> int {
    spec_clamp(spec_fp_div(h - 2 * y, h), -(FP_ONE as int), FP_ONE as int)
}

/// Project a clamped device point onto the Shoemake sphere: inside the unit
/// circle the point is lifted onto the sphere, outside it is pushed back to
/// the equator.  The result is a pure quaternion (zero scalar part).
pub open spec fn spec_arcball(px: int, py: int) -> QuatView {
    let d = spec_fp_mul(px, px) + spec_fp_mul(py, py);
    if d <= FP_ONE as int {
        QuatView { w: 0, x: px, y: py, z: spec_isqrt(((FP_ONE as int) - d) * (FP_ONE as int)) }
    } else {
        let n = spec_isqrt(px * px + py * py);
        QuatView { w: 0, x: spec_fp_div(px, n), y: spec_fp_div(py, n), z: 0 }
    }
}

/// The new rotation after one drag sample: both pixel positions are mapped
/// to the sphere and the incremental rotation is composed onto the
/// accumulated one from the left, then stabilized into the norm band.
pub open spec fn spec_rotate_q(rot: QuatView, w: int, h: int, prev: (int, int), cur: (int, int))
    -> QuatView {
    let bc = spec_arcball(spec_ndc_x(w, cur.0), spec_ndc_y(h, cur.1));
    let bp = spec_arcball(spec_ndc_x(w, prev.0), spec_ndc_y(h, prev.1));
    spec_stabilize(spec_q_mul(spec_q_mul(bc, bp), rot))
}

/// Zoom motion along the local z axis: `amount * zoom_speed * elapsed`, each
/// partial product saturated into the coordinate range.
pub open spec fn spec_zoom_motion(zoom_speed: int, amount: int, elapsed: int) -> int {
    spec_clamp(
        spec_fp_mul(
            spec_clamp(spec_fp_mul(amount, zoom_speed), -(FP_MAX as int), FP_MAX as int),
            elapsed,
        ),
        -(FP_MAX as int),
        FP_MAX as int,
    )
}

/// The screen-scaled pan delta.  The zoom-distance factor is read from the
/// homogeneous corner of the translation matrix, which is always one for a
/// pure translation; that quirk of the original formulation is preserved
/// deliberately, so the factor is exactly `FP_ONE`.
pub open spec fn spec_pan_delta(w: int, h: int, dx: int, dy: int) -> Vec3View {
    let zoom_dist = FP_ONE as int;
    v3(
        spec_fp_mul(spec_clamp(spec_fp_div(dx, w), -(FP_MAX as int), FP_MAX as int), zoom_dist),
        spec_fp_mul(spec_clamp(spec_fp_div(-dy, h), -(FP_MAX as int), FP_MAX as int), zoom_dist),
        0,
    )
}

/// The pivot translation after one pan sample: the delta is carried into
/// camera space through the transposed rotation and added onto the
/// accumulated pivot translation, saturated into the coordinate range.
pub open spec fn spec_pan_translation(c: ArcballCamera, dx: int, dy: int) -> Vec3View {
    let delta = spec_pan_delta(c.screen_w as int, c.screen_h as int, dx, dy);
    let motion = spec_m3_tmul_v3(spec_rot_mat(c.rotation@), delta);
    v3_clamp(v3_add(c.center_translation@, motion), FP_MAX as int)
}

/// The view matrix `translation * rotation * center_translation`: rotation
/// block, translation column `rot * center_translation + translation`, unit
/// homogeneous row.
pub open spec fn spec_view_mat(c: ArcballCamera) -> Mat4View {
    let m = spec_rot_mat(c.rotation@);
    let t = v3_add(spec_m3_mul_v3(m, c.center_translation@), c.translation@);
    Mat4View {
        r0: v4(m.r0.x, m.r0.y, m.r0.z, t.x),
        r1: v4(m.r1.x, m.r1.y, m.r1.z, t.y),
        r2: v4(m.r2.x, m.r2.y, m.r2.z, t.z),
        r3: v4(0, 0, 0, FP_ONE as int),
    }
}

/// Eye position in world space: the translation column of the analytic
/// inverse view matrix, `-(rot^T * translation) - center_translation`.
pub open spec fn spec_eye_pos(c: ArcballCamera) -> Vec3View {
    v3_add(
        v3_neg(spec_m3_tmul_v3(spec_rot_mat(c.rotation@), c.translation@)),
        v3_neg(c.center_translation@),
    )
}

/// View direction in world space: the inverse view matrix applied to the
/// local `-z` axis, normalized; that is the negated third row of the
/// rotation matrix.
pub open spec fn spec_eye_dir(c: ArcballCamera) -> Vec3View {
    spec_normalize3(v3_neg(spec_rot_mat(c.rotation@).r2))
}

/// Up direction in world space: the inverse view matrix applied to the local
/// `+y` axis, normalized; that is the second row of the rotation matrix.
pub open spec fn spec_up_dir(c: ArcballCamera) -> Vec3View {
    spec_normalize3(spec_rot_mat(c.rotation@).r1)
}

impl ArcballCamera {
    /// Create a camera focused on `center`, one unit back along z, with the
    /// identity orientation.
    pub fn new(center: Vec3, zoom_speed: i64, screen_w: i64, screen_h: i64) -> (c: ArcballCamera)
        requires
            v3_bounded(center@, FP_MAX as int),
            -FP_MAX <= zoom_speed <= FP_MAX,
            1 <= screen_w <= FP_MAX,
            1 <= screen_h <= FP_MAX,
        ensures
            c.wf(),
            c.center == center,
            c.translation@ == v3(0, 0, -(FP_ONE as int)),
            c.center_translation@ == v3_neg(center@),
            c.rotation@ == q_identity(),
            c.zoom_speed == zoom_speed,
            c.screen_w == screen_w,
            c.screen_h == screen_h,
    {
        proof {
            lemma_identity_in_band();
        }
        ArcballCamera {
            center,
            translation: Vec3 { x: 0, y: 0, z: -FP_ONE },
            center_translation: Vec3 { x: -center.x, y: -center.y, z: -center.z },
            rotation: identity_quat(),
            zoom_speed,
            screen_w,
            screen_h,
        }
    }

    /// The view matrix computed by the camera.
    pub fn get_mat4(&self) -> (m: Mat4)
        requires
            self.wf(),
        ensures
            m@ == spec_view_mat(*self),
    {
        proof {
            lemma_band_comp_bound(self.rotation@);
        }
        let r = rot_mat(&self.rotation);
        let mc = m3_mul_v3(&r, &self.center_translation);
        Mat4 {
            r0: crate::linalg::Vec4 {
                x: r.r0.x,
                y: r.r0.y,
                z: r.r0.z,
                w: mc.x + self.translation.x,
            },
            r1: crate::linalg::Vec4 {
                x: r.r1.x,
                y: r.r1.y,
                z: r.r1.z,
                w: mc.y + self.translation.y,
            },
            r2: crate::linalg::Vec4 {
                x: r.r2.x,
                y: r.r2.y,
                z: r.r2.z,
                w: mc.z + self.translation.z,
            },
            r3: crate::linalg::Vec4 { x: 0, y: 0, z: 0, w: FP_ONE },
        }
    }

    /// The camera eye position.
    pub fn eye_pos(&self) -> (p: Vec3)
        requires
            self.wf(),
        ensures
            p@ == spec_eye_pos(*self),
    {
        proof {
            lemma_band_comp_bound(self.rotation@);
        }
        let r = rot_mat(&self.rotation);
        let t = m3_tmul_v3(&r, &self.translation);
        Vec3 {
            x: -t.x - self.center_translation.x,
            y: -t.y - self.center_translation.y,
            z: -t.z - self.center_translation.z,
        }
    }

    /// The camera view direction.
    pub fn eye_dir(&self) -> (d: Vec3)
        requires
            self.wf(),
        ensures
            d@ == spec_eye_dir(*self),
    {
        proof {
            lemma_band_comp_bound(self.rotation@);
        }
        let r = rot_mat(&self.rotation);
        let neg_r2 = Vec3 { x: -r.r2.x, y: -r.r2.y, z: -r.r2.z };
        normalize3(&neg_r2)
    }

    /// The camera up direction.
    pub fn up_dir(&self) -> (u: Vec3)
        requires
            self.wf(),
        ensures
            u@ == spec_up_dir(*self),
    {
        proof {
            lemma_band_comp_bound(self.rotation@);
        }
        let r = rot_mat(&self.rotation);
        normalize3(&r.r1)
    }

    /// Rotate the camera between two pointer samples given in fixed-point
    /// pixel coordinates.
    pub fn rotate(&mut self, prev_x: i64, prev_y: i64, cur_x: i64, cur_y: i64)
        requires
            old(self).wf(),
            -FP_MAX <= prev_x <= FP_MAX,
            -FP_MAX <= prev_y <= FP_MAX,
            -FP_MAX <= cur_x <= FP_MAX,
            -FP_MAX <= cur_y <= FP_MAX,
        ensures
            final(self).wf(),
            final(self).rotation@ == spec_rotate_q(
                old(self).rotation@,
                old(self).screen_w as int,
                old(self).screen_h as int,
                (prev_x as int, prev_y as int),
                (cur_x as int, cur_y as int),
            ),
            final(self).center == old(self).center,
            final(self).translation == old(self).translation,
            final(self).center_translation == old(self).center_translation,
            final(self).zoom_speed == old(self).zoom_speed,
            final(self).screen_w == old(self).screen_w,
            final(self).screen_h == old(self).screen_h,
    {
        let mcx = ndc_x(self.screen_w, cur_x);
        let mcy = ndc_y(self.screen_h, cur_y);
        let mpx = ndc_x(self.screen_w, prev_x);
        let mpy = ndc_y(self.screen_h, prev_y);
        let ball_cur = screen_to_arcball(mcx, mcy);
        let ball_prev = screen_to_arcball(mpx, mpy);
        proof {
            lemma_q_mul_comp_bound(ball_cur@, ball_prev@, FP_ONE as int, FP_ONE as int, 262144);
            lemma_band_comp_bound(self.rotation@);
        }
        let incremental = q_mul(&ball_cur, &ball_prev);
        proof {
            lemma_q_mul_comp_bound(incremental@, self.rotation@, 262144, QC_MAX as int, 1099776);
        }
        let composed = q_mul(&incremental, &self.rotation);
        self.rotation = q_stabilize(&composed);
    }

    /// Zoom by `amount` scaled by the zoom speed and the elapsed time.
    pub fn zoom(&mut self, amount: i64, elapsed: i64)
        requires
            old(self).wf(),
            -FP_MAX <= amount <= FP_MAX,
            -FP_MAX <= elapsed <= FP_MAX,
        ensures
            final(self).wf(),
            final(self).translation@ == v3(
                old(self).translation@.x,
                old(self).translation@.y,
                spec_clamp(
                    old(self).translation@.z + spec_zoom_motion(
                        old(self).zoom_speed as int,
                        amount as int,
                        elapsed as int,
                    ),
                    -(FP_MAX as int),
                    FP_MAX as int,
                ),
            ),
            final(self).center == old(self).center,
            final(self).center_translation == old(self).center_translation,
            final(self).rotation == old(self).rotation,
            final(self).zoom_speed == old(self).zoom_speed,
            final(self).screen_w == old(self).screen_w,
            final(self).screen_h == old(self).screen_h,
    {
        proof {
            lemma_abs_mul(amount as int, self.zoom_speed as int, FP_MAX as int, FP_MAX as int);
            lemma_trunc_div_shrinks((amount as int) * (self.zoom_speed as int), FP_ONE as int);
        }
        let m1 = fp_mul(amount, self.zoom_speed);
        let m1c = fp_clamp(m1, -FP_MAX, FP_MAX);
        proof {
            lemma_abs_mul(m1c as int, elapsed as int, FP_MAX as int, FP_MAX as int);
            lemma_trunc_div_shrinks((m1c as int) * (elapsed as int), FP_ONE as int);
        }
        let m2 = fp_mul(m1c, elapsed);
        let motion = fp_clamp(m2, -FP_MAX, FP_MAX);
        self.translation = Vec3 {
            x: self.translation.x,
            y: self.translation.y,
            z: add_clamped(self.translation.z, motion),
        };
    }

    /// Pan the pivot point following a pointer delta in fixed-point pixels.
    pub fn pan(&mut self, delta_x: i64, delta_y: i64)
        requires
            old(self).wf(),
            -2 * (FP_MAX as int) <= delta_x as int <= 2 * (FP_MAX as int),
            -2 * (FP_MAX as int) <= delta_y as int <= 2 * (FP_MAX as int),
        ensures
            final(self).wf(),
            final(self).center_translation@ == spec_pan_translation(
                *old(self),
                delta_x as int,
                delta_y as int,
            ),
            final(self).center == old(self).center,
            final(self).translation == old(self).translation,
            final(self).rotation == old(self).rotation,
            final(self).zoom_speed == old(self).zoom_speed,
            final(self).screen_w == old(self).screen_w,
            final(self).screen_h == old(self).screen_h,
    {
        let zoom_dist: i64 = FP_ONE;
        proof {
            lemma_div_result_fits(delta_x as int, self.screen_w as int);
            lemma_div_result_fits(-delta_y as int, self.screen_h as int);
        }
        let dx = fp_clamp(fp_div(delta_x, self.screen_w), -FP_MAX, FP_MAX);
        let dy = fp_clamp(fp_div(-delta_y, self.screen_h), -FP_MAX, FP_MAX);
        proof {
            lemma_abs_mul(dx as int, zoom_dist as int, FP_MAX as int, FP_ONE as int);
            lemma_trunc_div_bound(
                (dx as int) * (zoom_dist as int),
                FP_ONE as int,
                FP_MAX as int,
            );
            lemma_abs_mul(dy as int, zoom_dist as int, FP_MAX as int, FP_ONE as int);
            lemma_trunc_div_bound(
                (dy as int) * (zoom_dist as int),
                FP_ONE as int,
                FP_MAX as int,
            );
            lemma_band_comp_bound(self.rotation@);
        }
        let delta = Vec3 { x: fp_mul(dx, zoom_dist), y: fp_mul(dy, zoom_dist), z: 0 };
        let r = rot_mat(&self.rotation);
        let motion = m3_tmul_v3(&r, &delta);
        self.center_translation = Vec3 {
            x: add_clamped(self.center_translation.x, motion.x),
            y: add_clamped(self.center_translation.y, motion.y),
            z: add_clamped(self.center_translation.z, motion.z),
        };
    }

    /// Update the screen dimensions, e.g. after a resize.
    pub fn update_screen(&mut self, width: i64, height: i64)
        requires
            old(self).wf(),
            1 <= width <= FP_MAX,
            1 <= height <= FP_MAX,
        ensures
            final(self).wf(),
            final(self).screen_w == width,
            final(self).screen_h == height,
            final(self).center == old(self).center,
            final(self).translation == old(self).translation,
            final(self).center_translation == old(self).center_translation,
            final(self).rotation == old(self).rotation,
            final(self).zoom_speed == old(self).zoom_speed,
    {
        self.screen_w = width;
        self.screen_h = height;
    }
}

/// Round trip of eye extraction: for a camera whose rotation is the identity
/// and whose pivot translation has not been panned away from the center, the
/// eye position is exactly the center moved back by the accumulated zoom
/// translation.
pub proof fn lemma_eye_pos_axis_aligned(c: ArcballCamera)
    requires
        c.rotation@ == q_identity(),
        c.center_translation@ == v3_neg(c.center@),
    ensures
        spec_eye_pos(c) == v3_add(v3_neg(c.translation@), c.center@),
{
    lemma_rot_mat_identity();
    let m = spec_rot_mat(c.rotation@);
    let t = c.translation@;
    assert(m.r0.x * t.x == t.x * (FP_ONE as int)) by (nonlinear_arith)
        requires
            m.r0.x == FP_ONE as int,
    ;
    assert(m.r1.y * t.y == t.y * (FP_ONE as int)) by (nonlinear_arith)
        requires
            m.r1.y == FP_ONE as int,
    ;
    assert(m.r2.z * t.z == t.z * (FP_ONE as int)) by (nonlinear_arith)
        requires
            m.r2.z == FP_ONE as int,
    ;
    lemma_trunc_div_exact(t.x, FP_ONE as int);
    lemma_trunc_div_exact(t.y, FP_ONE as int);
    lemma_trunc_div_exact(t.z, FP_ONE as int);
    assert(spec_m3_tmul_v3(m, t) == t);
}

/// A drag whose two samples coincide at the screen center composes an exact
/// half turn squared onto the rotation: the quaternion is negated, and a
/// quaternion and its negation describe the same rotation, so every derived
/// matrix and direction is unchanged.
pub proof fn lemma_rotate_without_motion(rot: QuatView, w: int, h: int, p: (int, int))
    requires
        in_band(spec_q_normsq(rot)),
        spec_ndc_x(w, p.0) == 0,
        spec_ndc_y(h, p.1) == 0,
    ensures
        spec_rotate_q(rot, w, h, p, p) == q_neg(rot),
        spec_rot_mat(q_neg(rot)) == spec_rot_mat(rot),
        spec_q_normsq(q_neg(rot)) == spec_q_normsq(rot),
{
    let s = FP_ONE as int;
    assert(trunc_div(0, s) == 0);
    assert(spec_fp_mul(0, 0) == 0);
    let ball = spec_arcball(0, 0);
    assert((s + 1) * (s + 1) > s * s) by (nonlinear_arith)
        requires
            s >= 1,
    ;
    assert(s * s >= 0) by (nonlinear_arith);
    assert(is_isqrt(s * s, s));
    lemma_isqrt_unique(s * s, s);
    assert(ball == QuatView { w: 0, x: 0, y: 0, z: s });
    assert(ball.x * ball.x + ball.y * ball.y + ball.z * ball.z == s * s) by (nonlinear_arith)
        requires
            ball.x == 0,
            ball.y == 0,
            ball.z == s,
    ;
    lemma_pure_unit_square(ball);
    lemma_neg_unit_times(rot);
    lemma_rot_mat_neg(rot);
    assert(spec_q_mul(spec_q_mul(ball, ball), rot) == q_neg(rot));
    assert(spec_stabilize(q_neg(rot)) == q_neg(rot));
}

/// Orthonormality invariant of the derived directions: for any well-formed
/// camera (so after any sequence of mutations, each of which preserves
/// well-formedness) the accumulated rotation stays within the near-unit norm
/// band, and the two wide matrix rows that the up and view directions are
/// read from are exactly orthogonal with squared length `normsq^2`.  The
/// executable directions divide those rows by their integer norm, so they
/// are unit length and perpendicular up to fixed-point rounding.
pub proof fn lemma_directions_orthonormal(c: ArcballCamera)
    requires
        c.wf(),
    ensures
        in_band(spec_q_normsq(c.rotation@)),
        crate::linalg::v3_dot_wide(
            crate::linalg::spec_rot_wide(c.rotation@).r1,
            crate::linalg::spec_rot_wide(c.rotation@).r1,
        ) == spec_q_normsq(c.rotation@) * spec_q_normsq(c.rotation@),
        crate::linalg::v3_dot_wide(
            crate::linalg::spec_rot_wide(c.rotation@).r2,
            crate::linalg::spec_rot_wide(c.rotation@).r2,
        ) == spec_q_normsq(c.rotation@) * spec_q_normsq(c.rotation@),
        crate::linalg::v3_dot_wide(
            crate::linalg::spec_rot_wide(c.rotation@).r1,
            crate::linalg::spec_rot_wide(c.rotation@).r2,
        ) == 0,
{
    crate::linalg::lemma_rot_wide_orthonormal(c.rotation@);
}

/// Camera-level corollary: after such a motionless drag sample the view
/// matrix, eye position and both view directions are unchanged.
pub proof fn lemma_rotate_without_motion_camera(c: ArcballCamera, c2: ArcballCamera, p: (
    int,
    int,
))
    requires
        c.wf(),
        spec_ndc_x(c.screen_w as int, p.0) == 0,
        spec_ndc_y(c.screen_h as int, p.1) == 0,
        c2.rotation@ == spec_rotate_q(c.rotation@, c.screen_w as int, c.screen_h as int, p, p),
        c2.center == c.center,
        c2.translation == c.translation,
        c2.center_translation == c.center_translation,
        c2.zoom_speed == c.zoom_speed,
        c2.screen_w == c.screen_w,
        c2.screen_h == c.screen_h,
    ensures
        spec_view_mat(c2) == spec_view_mat(c),
        spec_eye_pos(c2) == spec_eye_pos(c),
        spec_eye_dir(c2) == spec_eye_dir(c),
        spec_up_dir(c2) == spec_up_dir(c),
{
    lemma_rotate_without_motion(c.rotation@, c.screen_w as int, c.screen_h as int, p);
}

/// A fixed-point quotient of coordinate-bounded values fits `i64`.
pub proof fn lemma_div_result_fits(a: int, b: int)
    requires
        b >= 1,
        -3 * (FP_MAX as int) <= a <= 3 * (FP_MAX as int),
    ensures
        i64::MIN <= spec_fp_div(a, b) <= i64::MAX,
{
    lemma_abs_mul(a, FP_ONE as int, 3 * (FP_MAX as int), FP_ONE as int);
    assert(3 * (FP_MAX as int) * (FP_ONE as int) * 1 <= 3 * (FP_MAX as int) * (FP_ONE as int)
        * b) by (nonlinear_arith)
        requires
            b >= 1,
            3 * (FP_MAX as int) * (FP_ONE as int) >= 0,
    ;
    lemma_trunc_div_bound(a * (FP_ONE as int), b, 3 * (FP_MAX as int) * (FP_ONE as int));
    assert(-(3 * (FP_MAX as int) * (FP_ONE as int)) >= i64::MIN && 3 * (FP_MAX as int) * (
    FP_ONE as int) <= i64::MAX);
}

/// Clamped device x coordinate of a pixel position.
fn ndc_x(w: i64, x: i64) -> (r: i64)
    requires
        1 <= w <= FP_MAX,
        -FP_MAX <= x <= FP_MAX,
    ensures
        r == spec_ndc_x(w as int, x as int),
        -FP_ONE <= r <= FP_ONE,
{
    proof {
        lemma_div_result_fits(2 * (x as int) - (w as int), w as int);
    }
    fp_clamp(fp_div(2 * x - w, w), -FP_ONE, FP_ONE)
}

/// Clamped, flipped device y coordinate of a pixel position.
fn ndc_y(h: i64, y: i64) -> (r: i64)
    requires
        1 <= h <= FP_MAX,
        -FP_MAX <= y <= FP_MAX,
    ensures
        r == spec_ndc_y(h as int, y as int),
        -FP_ONE <= r <= FP_ONE,
{
    proof {
        lemma_div_result_fits((h as int) - 2 * (y as int), h as int);
    }
    fp_clamp(fp_div(h - 2 * y, h), -FP_ONE, FP_ONE)
}

/// Project a clamped device point onto the Shoemake sphere.
pub fn screen_to_arcball(px: i64, py: i64) -> (q: Quat)
    requires
        -FP_ONE <= px <= FP_ONE,
        -FP_ONE <= py <= FP_ONE,
    ensures
        q@ == spec_arcball(px as int, py as int),
        q_bounded(q@, FP_ONE as int),
        q.w == 0,
{
    proof {
        lemma_abs_mul(px as int, px as int, FP_ONE as int, FP_ONE as int);
        lemma_abs_mul(py as int, py as int, FP_ONE as int, FP_ONE as int);
        assert((px as int) * (px as int) >= 0 && (py as int) * (py as int) >= 0)
            by (nonlinear_arith);
        lemma_trunc_div_shrinks((px as int) * (px as int), FP_ONE as int);
        lemma_trunc_div_shrinks((py as int) * (py as int), FP_ONE as int);
    }
    let dist = fp_mul(px, px) + fp_mul(py, py);
    if dist <= FP_ONE {
        let zsq: i64 = (FP_ONE - dist) * FP_ONE;
        let z: u64 = isqrt(zsq as u64);
        proof {
            assert((zsq as int) <= (FP_ONE as int) * (FP_ONE as int));
            lemma_sq_lt(z as int, (FP_ONE as int) + 1);
        }
        Quat { w: 0, x: px, y: py, z: z as i64 }
    } else {
        let nsq: i64 = wide_sq_sum(px, py);
        let n: u64 = isqrt(nsq as u64);
        proof {
            assert(nsq >= 1);
            assert(n >= 1) by {
                if n == 0 {
                    assert((n as int + 1) * (n as int + 1) == 1) by (nonlinear_arith)
                        requires
                            n == 0u64,
                    ;
                }
            };
            lemma_sq_lt(n as int, 4294967296);
            let ni = n as int;
            let nsqi = nsq as int;
            assert((px as int) * (px as int) <= nsqi && (py as int) * (py as int) <= nsqi)
                by (nonlinear_arith)
                requires
                    nsqi == (px as int) * (px as int) + (py as int) * (py as int),
            ;
            lemma_sq_lt(px as int, ni + 1);
            lemma_sq_lt(py as int, ni + 1);
            lemma_abs_mul(px as int, FP_ONE as int, ni, FP_ONE as int);
            lemma_abs_mul(py as int, FP_ONE as int, ni, FP_ONE as int);
            assert(ni * (FP_ONE as int) == (FP_ONE as int) * ni) by (nonlinear_arith);
            lemma_trunc_div_bound((px as int) * (FP_ONE as int), ni, FP_ONE as int);
            lemma_trunc_div_bound((py as int) * (FP_ONE as int), ni, FP_ONE as int);
        }
        let ni64: i64 = n as i64;
        Quat { w: 0, x: fp_div(px, ni64), y: fp_div(py, ni64), z: 0 }
    }
}

/// Exact sum of the squares of two device coordinates.
fn wide_sq_sum(px: i64, py: i64) -> (r: i64)
    requires
        -FP_ONE <= px <= FP_ONE,
        -FP_ONE <= py <= FP_ONE,
    ensures
        r == (px as int) * (px as int) + (py as int) * (py as int),
        r >= 0,
{
    proof {
        lemma_abs_mul(px as int, px as int, FP_ONE as int, FP_ONE as int);
        lemma_abs_mul(py as int, py as int, FP_ONE as int, FP_ONE as int);
        assert((px as int) * (px as int) >= 0 && (py as int) * (py as int) >= 0)
            by (nonlinear_arith);
    }
    px * px + py * py
}

} // verus!
