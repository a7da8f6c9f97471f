//! Vectors, quaternions and matrices over fixed-point scalars.
//!
//! Executable values carry `i64` components; every operation is specified
//! exactly over the mathematical integers through the `View` of each type.

use vstd::prelude::*;
use crate::fixed::{
    FP_ONE, FP_MAX, trunc_div, spec_clamp, spec_isqrt, isqrt, lemma_abs_mul,
    lemma_trunc_div_bound, lemma_trunc_div_shrinks, lemma_sq_le, lemma_sq_lt,
};

verus! {

/// Squared norm of a unit quaternion: `FP_ONE * FP_ONE`.
pub const UNIT_NSQ: i64 = 4294967296;

/// Lower edge of the accepted band for the squared norm of the accumulated
/// rotation (ninety percent of `UNIT_NSQ`).
pub const ROT_NSQ_LO: i64 = 3865470566;

/// Upper edge of the accepted band (one hundred ten percent of `UNIT_NSQ`).
pub const ROT_NSQ_HI: i64 = 4724464025;

/// Any component of a quaternion whose squared norm lies in the band fits
/// this bound.
pub const QC_MAX: i64 = 68736;

/// Bound accepted by quaternion multiplication for each input component.
pub const QMUL_IN_MAX: i64 = 2097152;

/// Bound on each entry of the rotation matrix of an in-band quaternion.
pub const ROT_ENTRY_MAX: i64 = 365536;

/// Bound on each component of a matrix-vector product of an in-band rotation
/// matrix with a coordinate-bounded vector.
pub const M3V_MAX: i64 = 10000000000000;

#[derive(Clone, Copy, PartialEq, Eq, Structural, Debug)]
pub struct Vec3 {
    pub x: i64,
    pub y: i64,
    pub z: i64,
}

#[derive(Clone, Copy, PartialEq, Eq, Structural, Debug)]
pub struct Vec4 {
    pub x: i64,
    pub y: i64,
    pub z: i64,
    pub w: i64,
}

/// A quaternion; `w` is the scalar part.
#[derive(Clone, Copy, PartialEq, Eq, Structural, Debug)]
pub struct Quat {
    pub w: i64,
    pub x: i64,
    pub y: i64,
    pub z: i64,
}

/// A 3x3 matrix given by rows; applying it to `v` takes the dot product of
/// each row with `v`.
#[derive(Clone, Copy, PartialEq, Eq, Structural, Debug)]
pub struct Mat3 {
    pub r0: Vec3,
    pub r1: Vec3,
    pub r2: Vec3,
}

/// A 4x4 matrix given by rows.
#[derive(Clone, Copy, PartialEq, Eq, Structural, Debug)]
pub struct Mat4 {
    pub r0: Vec4,
    pub r1: Vec4,
    pub r2: Vec4,
    pub r3: Vec4,
}

pub struct Vec3View {
    pub x: int,
    pub y: int,
    pub z: int,
}

pub struct Vec4View {
    pub x: int,
    pub y: int,
    pub z: int,
    pub w: int,
}

pub struct QuatView {
    pub w: int,
    pub x: int,
    pub y: int,
    pub z: int,
}

pub struct Mat3View {
    pub r0: Vec3View,
    pub r1: Vec3View,
    pub r2: Vec3View,
}

pub struct Mat4View {
    pub r0: Vec4View,
    pub r1: Vec4View,
    pub r2: Vec4View,
    pub r3: Vec4View,
}

impl View for Vec3 {
    type V = Vec3View;

    open spec fn view(&self) -> Vec3View {
        Vec3View { x: self.x as int, y: self.y as int, z: self.z as int }
    }
}

impl View for Vec4 {
    type V = Vec4View;

    open spec fn view(&self) -> Vec4View {
        Vec4View { x: self.x as int, y: self.y as int, z: self.z as int, w: self.w as int }
    }
}

impl View for Quat {
    type V = QuatView;

    open spec fn view(&self) -> QuatView {
        QuatView { w: self.w as int, x: self.x as int, y: self.y as int, z: self.z as int }
    }
}

impl View for Mat3 {
    type V = Mat3View;

    open spec fn view(&self) -> Mat3View {
        Mat3View { r0: self.r0@, r1: self.r1@, r2: self.r2@ }
    }
}

impl View for Mat4 {
    type V = Mat4View;

    open spec fn view(&self) -> Mat4View {
        Mat4View { r0: self.r0@, r1: self.r1@, r2: self.r2@, r3: self.r3@ }
    }
}

pub open spec fn v3(x: int, y: int, z: int) -> Vec3View {
    Vec3View { x, y, z }
}

pub open spec fn v4(x: int, y: int, z: int, w: int) -> Vec4View {
    Vec4View { x, y, z, w }
}

pub open spec fn v3_bounded(a: Vec3View, m: int) -> bool {
    -m <= a.x <= m && -m <= a.y <= m && -m <= a.z <= m
}

pub open spec fn q_bounded(q: QuatView, m: int) -> bool {
    -m <= q.w <= m && -m <= q.x <= m && -m <= q.y <= m && -m <= q.z <= m
}

pub open spec fn m3_bounded(m: Mat3View, b: int) -> bool {
    v3_bounded(m.r0, b) && v3_bounded(m.r1, b) && v3_bounded(m.r2, b)
}

pub open spec fn v3_add(a: Vec3View, b: Vec3View) -> Vec3View {
    v3(a.x + b.x, a.y + b.y, a.z + b.z)
}

pub open spec fn v3_neg(a: Vec3View) -> Vec3View {
    v3(-a.x, -a.y, -a.z)
}

/// Clamp every component into `[-m, m]`.
pub open spec fn v3_clamp(a: Vec3View, m: int) -> Vec3View {
    v3(spec_clamp(a.x, -m, m), spec_clamp(a.y, -m, m), spec_clamp(a.z, -m, m))
}

/// Untruncated dot product.
pub open spec fn v3_dot_wide(a: Vec3View, b: Vec3View) -> int {
    a.x * b.x + a.y * b.y + a.z * b.z
}

/// Fixed-point dot product: the wide dot product scaled back down.
pub open spec fn v3_dot(a: Vec3View, b: Vec3View) -> int {
    trunc_div(v3_dot_wide(a, b), FP_ONE as int)
}

pub open spec fn q_identity() -> QuatView {
    QuatView { w: FP_ONE as int, x: 0, y: 0, z: 0 }
}

pub open spec fn q_neg(q: QuatView) -> QuatView {
    QuatView { w: -q.w, x: -q.x, y: -q.y, z: -q.z }
}

/// Squared norm of a quaternion, in units of `FP_ONE * FP_ONE`.
pub open spec fn spec_q_normsq(q: QuatView) -> int {
    q.w * q.w + q.x * q.x + q.y * q.y + q.z * q.z
}

pub open spec fn in_band(nsq: int) -> bool {
    ROT_NSQ_LO <= nsq <= ROT_NSQ_HI
}

/// Hamilton product without the fixed-point rescale; each component is in
/// units of `FP_ONE * FP_ONE`.
pub open spec fn spec_q_mul_wide(a: QuatView, b: QuatView) -> QuatView {
    QuatView {
        w: a.w * b.w - a.x * b.x - a.y * b.y - a.z * b.z,
        x: a.w * b.x + a.x * b.w + a.y * b.z - a.z * b.y,
        y: a.w * b.y - a.x * b.z + a.y * b.w + a.z * b.x,
        z: a.w * b.z + a.x * b.y - a.y * b.x + a.z * b.w,
    }
}

/// Fixed-point Hamilton product.
pub open spec fn spec_q_mul(a: QuatView, b: QuatView) -> QuatView {
    let wide = spec_q_mul_wide(a, b);
    QuatView {
        w: trunc_div(wide.w, FP_ONE as int),
        x: trunc_div(wide.x, FP_ONE as int),
        y: trunc_div(wide.y, FP_ONE as int),
        z: trunc_div(wide.z, FP_ONE as int),
    }
}

/// Rotation matrix of a quaternion without the fixed-point rescale; entries
/// are in units of `spec_q_normsq(q)` for a quaternion of any norm.
pub open spec fn spec_rot_wide(q: QuatView) -> Mat3View {
    let nsq = spec_q_normsq(q);
    Mat3View {
        r0: v3(nsq - 2 * (q.y * q.y + q.z * q.z), 2 * (q.x * q.y - q.z * q.w), 2 * (q.x * q.z
            + q.y * q.w)),
        r1: v3(2 * (q.x * q.y + q.z * q.w), nsq - 2 * (q.x * q.x + q.z * q.z), 2 * (q.y * q.z
            - q.x * q.w)),
        r2: v3(2 * (q.x * q.z - q.y * q.w), 2 * (q.y * q.z + q.x * q.w), nsq - 2 * (q.x * q.x
            + q.y * q.y)),
    }
}

/// Fixed-point rotation matrix of a near-unit quaternion, entries in units of
/// `FP_ONE`.
pub open spec fn spec_rot_mat(q: QuatView) -> Mat3View {
    let one = FP_ONE as int;
    Mat3View {
        r0: v3(
            one - trunc_div(2 * (q.y * q.y + q.z * q.z), one),
            trunc_div(2 * (q.x * q.y - q.z * q.w), one),
            trunc_div(2 * (q.x * q.z + q.y * q.w), one),
        ),
        r1: v3(
            trunc_div(2 * (q.x * q.y + q.z * q.w), one),
            one - trunc_div(2 * (q.x * q.x + q.z * q.z), one),
            trunc_div(2 * (q.y * q.z - q.x * q.w), one),
        ),
        r2: v3(
            trunc_div(2 * (q.x * q.z - q.y * q.w), one),
            trunc_div(2 * (q.y * q.z + q.x * q.w), one),
            one - trunc_div(2 * (q.x * q.x + q.y * q.y), one),
        ),
    }
}

/// Apply a matrix to a vector: fixed-point dot product of each row with `v`.
pub open spec fn spec_m3_mul_v3(m: Mat3View, v: Vec3View) -> Vec3View {
    v3(v3_dot(m.r0, v), v3_dot(m.r1, v), v3_dot(m.r2, v))
}

/// Apply the transpose of a matrix to a vector.
pub open spec fn spec_m3_tmul_v3(m: Mat3View, v: Vec3View) -> Vec3View {
    v3(
        trunc_div(m.r0.x * v.x + m.r1.x * v.y + m.r2.x * v.z, FP_ONE as int),
        trunc_div(m.r0.y * v.x + m.r1.y * v.y + m.r2.y * v.z, FP_ONE as int),
        trunc_div(m.r0.z * v.x + m.r1.z * v.y + m.r2.z * v.z, FP_ONE as int),
    )
}

/// Scale a vector to unit fixed-point length using its integer norm; leaves
/// the vector unchanged when the norm rounds down to zero.
pub open spec fn spec_normalize3(v: Vec3View) -> Vec3View {
    let nsq = v.x * v.x + v.y * v.y + v.z * v.z;
    let n = spec_isqrt(nsq);
    if n == 0 {
        v
    } else {
        v3(
            trunc_div(v.x * (FP_ONE as int), n),
            trunc_div(v.y * (FP_ONE as int), n),
            trunc_div(v.z * (FP_ONE as int), n),
        )
    }
}

/// Divide each quaternion component by the integer norm `n`, rescaling to
/// fixed-point units.
pub open spec fn spec_q_scale_down(q: QuatView, n: int) -> QuatView {
    QuatView {
        w: trunc_div(q.w * (FP_ONE as int), n),
        x: trunc_div(q.x * (FP_ONE as int), n),
        y: trunc_div(q.y * (FP_ONE as int), n),
        z: trunc_div(q.z * (FP_ONE as int), n),
    }
}

/// Keep a freshly composed rotation if its squared norm lies in the accepted
/// band; otherwise rescale it toward unit length, and fall back to the
/// identity when even the rescaled value cannot be accepted.
pub open spec fn spec_stabilize(q: QuatView) -> QuatView {
    let nsq = spec_q_normsq(q);
    if in_band(nsq) {
        q
    } else {
        let n = spec_isqrt(nsq);
        if n == 0 {
            q_identity()
        } else {
            let r = spec_q_scale_down(q, n);
            if in_band(spec_q_normsq(r)) {
                r
            } else {
                q_identity()
            }
        }
    }
}

/// Widening product of two scalars.
fn wmul(a: i64, b: i64) -> (r: i128)
    ensures
        r == (a as int) * (b as int),
{
    proof {
        lemma_abs_mul(a as int, b as int, 0x8000000000000000, 0x8000000000000000);
    }
    (a as i128) * (b as i128)
}

/// Saturating addition into the coordinate range `[-FP_MAX, FP_MAX]`.
pub fn add_clamped(a: i64, b: i64) -> (r: i64)
    ensures
        r == spec_clamp(a as int + b as int, -(FP_MAX as int), FP_MAX as int),
{
    let s: i128 = (a as i128) + (b as i128);
    let lo: i128 = -(FP_MAX as i128);
    let hi: i128 = FP_MAX as i128;
    if s < lo {
        -FP_MAX
    } else if s > hi {
        FP_MAX
    } else {
        s as i64
    }
}

/// Fixed-point Hamilton product of two bounded quaternions.
pub fn q_mul(a: &Quat, b: &Quat) -> (r: Quat)
    requires
        q_bounded(a@, QMUL_IN_MAX as int),
        q_bounded(b@, QMUL_IN_MAX as int),
    ensures
        r@ == spec_q_mul(a@, b@),
        q_bounded(r@, 0x10000000000),
{
    proof {
        let m = QMUL_IN_MAX as int;
        lemma_abs_mul(a.w as int, b.w as int, m, m);
        lemma_abs_mul(a.w as int, b.x as int, m, m);
        lemma_abs_mul(a.w as int, b.y as int, m, m);
        lemma_abs_mul(a.w as int, b.z as int, m, m);
        lemma_abs_mul(a.x as int, b.w as int, m, m);
        lemma_abs_mul(a.x as int, b.x as int, m, m);
        lemma_abs_mul(a.x as int, b.y as int, m, m);
        lemma_abs_mul(a.x as int, b.z as int, m, m);
        lemma_abs_mul(a.y as int, b.w as int, m, m);
        lemma_abs_mul(a.y as int, b.x as int, m, m);
        lemma_abs_mul(a.y as int, b.y as int, m, m);
        lemma_abs_mul(a.y as int, b.z as int, m, m);
        lemma_abs_mul(a.z as int, b.w as int, m, m);
        lemma_abs_mul(a.z as int, b.x as int, m, m);
        lemma_abs_mul(a.z as int, b.y as int, m, m);
        lemma_abs_mul(a.z as int, b.z as int, m, m);
    }
    let ww: i128 = wmul(a.w, b.w) - wmul(a.x, b.x) - wmul(a.y, b.y) - wmul(a.z, b.z);
    let xx: i128 = wmul(a.w, b.x) + wmul(a.x, b.w) + wmul(a.y, b.z) - wmul(a.z, b.y);
    let yy: i128 = wmul(a.w, b.y) - wmul(a.x, b.z) + wmul(a.y, b.w) + wmul(a.z, b.x);
    let zz: i128 = wmul(a.w, b.z) + wmul(a.x, b.y) - wmul(a.y, b.x) + wmul(a.z, b.w);
    proof {
        let bound: int = 0x10000000000;
        lemma_trunc_div_bound(ww as int, FP_ONE as int, bound);
        lemma_trunc_div_bound(xx as int, FP_ONE as int, bound);
        lemma_trunc_div_bound(yy as int, FP_ONE as int, bound);
        lemma_trunc_div_bound(zz as int, FP_ONE as int, bound);
    }
    Quat {
        w: div_fp_i128(ww),
        x: div_fp_i128(xx),
        y: div_fp_i128(yy),
        z: div_fp_i128(zz),
    }
}

/// Rescale a wide intermediate back to fixed-point units.
fn div_fp_i128(p: i128) -> (r: i64)
    requires
        p > i128::MIN,
        i64::MIN <= trunc_div(p as int, FP_ONE as int) <= i64::MAX,
    ensures
        r == trunc_div(p as int, FP_ONE as int),
{
    proof {
        lemma_trunc_div_shrinks(p as int, FP_ONE as int);
    }
    let q: i128 = if p >= 0 {
        p / (FP_ONE as i128)
    } else {
        -((-p) / (FP_ONE as i128))
    };
    q as i64
}

/// Squared norm of a bounded quaternion.
pub fn q_normsq(q: &Quat) -> (r: i64)
    requires
        q_bounded(q@, QMUL_IN_MAX as int),
    ensures
        r == spec_q_normsq(q@),
        0 <= r,
{
    proof {
        let m = QMUL_IN_MAX as int;
        lemma_abs_mul(q.w as int, q.w as int, m, m);
        lemma_abs_mul(q.x as int, q.x as int, m, m);
        lemma_abs_mul(q.y as int, q.y as int, m, m);
        lemma_abs_mul(q.z as int, q.z as int, m, m);
        assert(q.w as int * q.w as int >= 0) by (nonlinear_arith);
        assert(q.x as int * q.x as int >= 0) by (nonlinear_arith);
        assert(q.y as int * q.y as int >= 0) by (nonlinear_arith);
        assert(q.z as int * q.z as int >= 0) by (nonlinear_arith);
    }
    let s: i128 = wmul(q.w, q.w) + wmul(q.x, q.x) + wmul(q.y, q.y) + wmul(q.z, q.z);
    s as i64
}

/// Components of an in-band quaternion are bounded by `QC_MAX`.
pub proof fn lemma_band_comp_bound(q: QuatView)
    requires
        spec_q_normsq(q) <= ROT_NSQ_HI as int,
    ensures
        q_bounded(q, QC_MAX as int),
{
    let m = QC_MAX as int;
    assert(q.w * q.w >= 0) by (nonlinear_arith);
    assert(q.x * q.x >= 0) by (nonlinear_arith);
    assert(q.y * q.y >= 0) by (nonlinear_arith);
    assert(q.z * q.z >= 0) by (nonlinear_arith);
    assert(m * m == 4724637696) by (nonlinear_arith)
        requires
            m == 68736,
    ;
    lemma_sq_le(q.w, m);
    lemma_sq_le(q.x, m);
    lemma_sq_le(q.y, m);
    lemma_sq_le(q.z, m);
}

/// Bring a composed rotation back into the accepted band; see
/// `spec_stabilize` for the exact meaning.
pub fn q_stabilize(q: &Quat) -> (r: Quat)
    requires
        q_bounded(q@, QMUL_IN_MAX as int),
    ensures
        r@ == spec_stabilize(q@),
        in_band(spec_q_normsq(r@)),
        q_bounded(r@, QC_MAX as int),
{
    let nsq: i64 = q_normsq(q);
    proof {
        lemma_identity_in_band();
    }
    if ROT_NSQ_LO <= nsq && nsq <= ROT_NSQ_HI {
        proof {
            lemma_band_comp_bound(q@);
        }
        *q
    } else {
        let nr: u64 = isqrt(nsq as u64);
        proof {
            lemma_sq_lt(nr as int, 4294967296);
        }
        let n: i64 = nr as i64;
        if n == 0 {
            identity_quat()
        } else {
            proof {
                let nsqi = nsq as int;
                let ni = n as int;
                let ww = q.w as int;
                let xx = q.x as int;
                let yy = q.y as int;
                let zz = q.z as int;
                assert(ww * ww <= nsqi && xx * xx <= nsqi && yy * yy <= nsqi && zz * zz <= nsqi)
                    by (nonlinear_arith)
                    requires
                        nsqi == ww * ww + xx * xx + yy * yy + zz * zz,
                ;
                lemma_sq_lt(ww, ni + 1);
                lemma_sq_lt(xx, ni + 1);
                lemma_sq_lt(yy, ni + 1);
                lemma_sq_lt(zz, ni + 1);
                lemma_abs_mul(q.w as int, FP_ONE as int, ni, FP_ONE as int);
                lemma_abs_mul(q.x as int, FP_ONE as int, ni, FP_ONE as int);
                lemma_abs_mul(q.y as int, FP_ONE as int, ni, FP_ONE as int);
                lemma_abs_mul(q.z as int, FP_ONE as int, ni, FP_ONE as int);
                assert(ni * (FP_ONE as int) == (FP_ONE as int) * ni) by (nonlinear_arith);
                lemma_trunc_div_bound(q.w as int * (FP_ONE as int), ni, FP_ONE as int);
                lemma_trunc_div_bound(q.x as int * (FP_ONE as int), ni, FP_ONE as int);
                lemma_trunc_div_bound(q.y as int * (FP_ONE as int), ni, FP_ONE as int);
                lemma_trunc_div_bound(q.z as int * (FP_ONE as int), ni, FP_ONE as int);
            }
            let scaled = Quat {
                w: crate::fixed::fp_div(q.w, n),
                x: crate::fixed::fp_div(q.x, n),
                y: crate::fixed::fp_div(q.y, n),
                z: crate::fixed::fp_div(q.z, n),
            };
            let snsq: i64 = q_normsq(&scaled);
            if ROT_NSQ_LO <= snsq && snsq <= ROT_NSQ_HI {
                proof {
                    lemma_band_comp_bound(scaled@);
                }
                scaled
            } else {
                identity_quat()
            }
        }
    }
}

/// The identity rotation.
pub fn identity_quat() -> (r: Quat)
    ensures
        r@ == q_identity(),
        in_band(spec_q_normsq(r@)),
        q_bounded(r@, QC_MAX as int),
{
    proof {
        lemma_identity_in_band();
    }
    Quat { w: FP_ONE, x: 0, y: 0, z: 0 }
}

/// Fixed-point rotation matrix of an in-band quaternion.
pub fn rot_mat(q: &Quat) -> (m: Mat3)
    requires
        q_bounded(q@, QC_MAX as int),
    ensures
        m@ == spec_rot_mat(q@),
        m3_bounded(m@, ROT_ENTRY_MAX as int),
{
    proof {
        let c = QC_MAX as int;
        lemma_abs_mul(q.w as int, q.w as int, c, c);
        lemma_abs_mul(q.w as int, q.x as int, c, c);
        lemma_abs_mul(q.w as int, q.y as int, c, c);
        lemma_abs_mul(q.w as int, q.z as int, c, c);
        lemma_abs_mul(q.x as int, q.x as int, c, c);
        lemma_abs_mul(q.x as int, q.y as int, c, c);
        lemma_abs_mul(q.x as int, q.z as int, c, c);
        lemma_abs_mul(q.y as int, q.y as int, c, c);
        lemma_abs_mul(q.y as int, q.z as int, c, c);
        lemma_abs_mul(q.z as int, q.z as int, c, c);
    }
    let tyz: i128 = 2 * (wmul(q.y, q.y) + wmul(q.z, q.z));
    let txz: i128 = 2 * (wmul(q.x, q.x) + wmul(q.z, q.z));
    let txy: i128 = 2 * (wmul(q.x, q.x) + wmul(q.y, q.y));
    let xy_zw: i128 = 2 * (wmul(q.x, q.y) - wmul(q.z, q.w));
    let xy_pzw: i128 = 2 * (wmul(q.x, q.y) + wmul(q.z, q.w));
    let xz_yw: i128 = 2 * (wmul(q.x, q.z) + wmul(q.y, q.w));
    let xz_myw: i128 = 2 * (wmul(q.x, q.z) - wmul(q.y, q.w));
    let yz_xw: i128 = 2 * (wmul(q.y, q.z) - wmul(q.x, q.w));
    let yz_pxw: i128 = 2 * (wmul(q.y, q.z) + wmul(q.x, q.w));
    proof {
        let one = FP_ONE as int;
        lemma_trunc_div_bound(tyz as int, one, 300000);
        lemma_trunc_div_bound(txz as int, one, 300000);
        lemma_trunc_div_bound(txy as int, one, 300000);
        lemma_trunc_div_bound(xy_zw as int, one, 300000);
        lemma_trunc_div_bound(xy_pzw as int, one, 300000);
        lemma_trunc_div_bound(xz_yw as int, one, 300000);
        lemma_trunc_div_bound(xz_myw as int, one, 300000);
        lemma_trunc_div_bound(yz_xw as int, one, 300000);
        lemma_trunc_div_bound(yz_pxw as int, one, 300000);
    }
    Mat3 {
        r0: Vec3 {
            x: FP_ONE - div_fp_i128(tyz),
            y: div_fp_i128(xy_zw),
            z: div_fp_i128(xz_yw),
        },
        r1: Vec3 {
            x: div_fp_i128(xy_pzw),
            y: FP_ONE - div_fp_i128(txz),
            z: div_fp_i128(yz_xw),
        },
        r2: Vec3 {
            x: div_fp_i128(xz_myw),
            y: div_fp_i128(yz_pxw),
            z: FP_ONE - div_fp_i128(txy),
        },
    }
}

/// Fixed-point dot product of a matrix row with a coordinate vector.
fn row_dot(r: &Vec3, v: &Vec3) -> (d: i64)
    requires
        v3_bounded(r@, ROT_ENTRY_MAX as int),
        v3_bounded(v@, FP_MAX as int),
    ensures
        d == v3_dot(r@, v@),
        -(M3V_MAX as int) <= d <= M3V_MAX as int,
{
    proof {
        lemma_abs_mul(r.x as int, v.x as int, ROT_ENTRY_MAX as int, FP_MAX as int);
        lemma_abs_mul(r.y as int, v.y as int, ROT_ENTRY_MAX as int, FP_MAX as int);
        lemma_abs_mul(r.z as int, v.z as int, ROT_ENTRY_MAX as int, FP_MAX as int);
        lemma_trunc_div_bound(
            (r.x as int) * (v.x as int) + (r.y as int) * (v.y as int) + (r.z as int) * (
            v.z as int),
            FP_ONE as int,
            M3V_MAX as int,
        );
    }
    let p: i128 = wmul(r.x, v.x) + wmul(r.y, v.y) + wmul(r.z, v.z);
    div_fp_i128(p)
}

/// Apply an in-band rotation matrix to a coordinate vector.
pub fn m3_mul_v3(m: &Mat3, v: &Vec3) -> (r: Vec3)
    requires
        m3_bounded(m@, ROT_ENTRY_MAX as int),
        v3_bounded(v@, FP_MAX as int),
    ensures
        r@ == spec_m3_mul_v3(m@, v@),
        v3_bounded(r@, M3V_MAX as int),
{
    Vec3 { x: row_dot(&m.r0, v), y: row_dot(&m.r1, v), z: row_dot(&m.r2, v) }
}

/// Apply the transpose of an in-band rotation matrix to a coordinate vector.
pub fn m3_tmul_v3(m: &Mat3, v: &Vec3) -> (r: Vec3)
    requires
        m3_bounded(m@, ROT_ENTRY_MAX as int),
        v3_bounded(v@, FP_MAX as int),
    ensures
        r@ == spec_m3_tmul_v3(m@, v@),
        v3_bounded(r@, M3V_MAX as int),
{
    let c0 = Vec3 { x: m.r0.x, y: m.r1.x, z: m.r2.x };
    let c1 = Vec3 { x: m.r0.y, y: m.r1.y, z: m.r2.y };
    let c2 = Vec3 { x: m.r0.z, y: m.r1.z, z: m.r2.z };
    Vec3 { x: row_dot(&c0, v), y: row_dot(&c1, v), z: row_dot(&c2, v) }
}

/// Scale a direction vector to unit fixed-point length; see
/// `spec_normalize3` for the exact meaning.
pub fn normalize3(v: &Vec3) -> (r: Vec3)
    requires
        v3_bounded(v@, 400000),
    ensures
        r@ == spec_normalize3(v@),
        v3_bounded(r@, 400000),
{
    proof {
        lemma_abs_mul(v.x as int, v.x as int, 400000, 400000);
        lemma_abs_mul(v.y as int, v.y as int, 400000, 400000);
        lemma_abs_mul(v.z as int, v.z as int, 400000, 400000);
        let xx = v.x as int;
        let yy = v.y as int;
        let zz = v.z as int;
        assert(xx * xx >= 0 && yy * yy >= 0 && zz * zz >= 0) by (nonlinear_arith);
    }
    let nsq: i128 = wmul(v.x, v.x) + wmul(v.y, v.y) + wmul(v.z, v.z);
    let nr: u64 = isqrt(nsq as u64);
    proof {
        lemma_sq_lt(nr as int, 4294967296);
    }
    let n: i64 = nr as i64;
    if n == 0 {
        *v
    } else {
        proof {
            let ni = n as int;
            let nsqi = nsq as int;
            let xx = v.x as int;
            let yy = v.y as int;
            let zz = v.z as int;
            assert(xx * xx <= nsqi && yy * yy <= nsqi && zz * zz <= nsqi) by (nonlinear_arith)
                requires
                    nsqi == xx * xx + yy * yy + zz * zz,
            ;
            lemma_sq_lt(xx, ni + 1);
            lemma_sq_lt(yy, ni + 1);
            lemma_sq_lt(zz, ni + 1);
            lemma_abs_mul(xx, FP_ONE as int, ni, FP_ONE as int);
            lemma_abs_mul(yy, FP_ONE as int, ni, FP_ONE as int);
            lemma_abs_mul(zz, FP_ONE as int, ni, FP_ONE as int);
            assert(ni * (FP_ONE as int) == (FP_ONE as int) * ni) by (nonlinear_arith);
            lemma_trunc_div_bound(xx * (FP_ONE as int), ni, FP_ONE as int);
            lemma_trunc_div_bound(yy * (FP_ONE as int), ni, FP_ONE as int);
            lemma_trunc_div_bound(zz * (FP_ONE as int), ni, FP_ONE as int);
        }
        Vec3 {
            x: crate::fixed::fp_div(v.x, n),
            y: crate::fixed::fp_div(v.y, n),
            z: crate::fixed::fp_div(v.z, n),
        }
    }
}

/// Monomial identities among the squares and pairwise products of four
/// integers; the building blocks of the orthonormality proof below.
proof fn lemma_quat_monomials(
    w: int,
    x: int,
    y: int,
    z: int,
    sw: int,
    sx: int,
    sy: int,
    sz: int,
    pxy: int,
    pxz: int,
    pxw: int,
    pyz: int,
    pyw: int,
    pzw: int,
)
    requires
        sw == w * w,
        sx == x * x,
        sy == y * y,
        sz == z * z,
        pxy == x * y,
        pxz == x * z,
        pxw == x * w,
        pyz == y * z,
        pyw == y * w,
        pzw == z * w,
    ensures
        pxy * pxy == sx * sy,
        pxz * pxz == sx * sz,
        pxw * pxw == sx * sw,
        pyz * pyz == sy * sz,
        pyw * pyw == sy * sw,
        pzw * pzw == sz * sw,
        pxy * pzw == pxz * pyw,
        pxy * pzw == pyz * pxw,
        sx * pyz == pxy * pxz,
        sy * pxw == pxy * pyw,
        sz * pxw == pzw * pxz,
        sw * pyz == pzw * pyw,
{
    assert(pxy * pxy == sx * sy) by (nonlinear_arith)
        requires
            sx == x * x,
            sy == y * y,
            pxy == x * y,
    ;
    assert(pxz * pxz == sx * sz) by (nonlinear_arith)
        requires
            sx == x * x,
            sz == z * z,
            pxz == x * z,
    ;
    assert(pxw * pxw == sx * sw) by (nonlinear_arith)
        requires
            sx == x * x,
            sw == w * w,
            pxw == x * w,
    ;
    assert(pyz * pyz == sy * sz) by (nonlinear_arith)
        requires
            sy == y * y,
            sz == z * z,
            pyz == y * z,
    ;
    assert(pyw * pyw == sy * sw) by (nonlinear_arith)
        requires
            sy == y * y,
            sw == w * w,
            pyw == y * w,
    ;
    assert(pzw * pzw == sz * sw) by (nonlinear_arith)
        requires
            sz == z * z,
            sw == w * w,
            pzw == z * w,
    ;
    assert(pxy * pzw == pxz * pyw) by (nonlinear_arith)
        requires
            pxy == x * y,
            pzw == z * w,
            pxz == x * z,
            pyw == y * w,
    ;
    assert(pxy * pzw == pyz * pxw) by (nonlinear_arith)
        requires
            pxy == x * y,
            pzw == z * w,
            pyz == y * z,
            pxw == x * w,
    ;
    assert(sx * pyz == pxy * pxz) by (nonlinear_arith)
        requires
            sx == x * x,
            pyz == y * z,
            pxy == x * y,
            pxz == x * z,
    ;
    assert(sy * pxw == pxy * pyw) by (nonlinear_arith)
        requires
            sy == y * y,
            pxw == x * w,
            pxy == x * y,
            pyw == y * w,
    ;
    assert(sz * pxw == pzw * pxz) by (nonlinear_arith)
        requires
            sz == z * z,
            pxw == x * w,
            pzw == z * w,
            pxz == x * z,
    ;
    assert(sw * pyz == pzw * pyw) by (nonlinear_arith)
        requires
            sw == w * w,
            pyz == y * z,
            pzw == z * w,
            pyw == y * w,
    ;
}

/// Rows one and two of the wide rotation matrix of any quaternion `q` (the
/// rows that the up and view directions are read from) have squared length
/// `spec_q_normsq(q)^2` and are orthogonal: the matrix of a unit quaternion
/// sends the basis directions to unit, mutually perpendicular vectors.
pub proof fn lemma_rot_wide_orthonormal(q: QuatView)
    ensures
        v3_dot_wide(spec_rot_wide(q).r1, spec_rot_wide(q).r1) == spec_q_normsq(q) * spec_q_normsq(
            q,
        ),
        v3_dot_wide(spec_rot_wide(q).r2, spec_rot_wide(q).r2) == spec_q_normsq(q) * spec_q_normsq(
            q,
        ),
        v3_dot_wide(spec_rot_wide(q).r1, spec_rot_wide(q).r2) == 0,
{
    let w = q.w;
    let x = q.x;
    let y = q.y;
    let z = q.z;
    let sw = w * w;
    let sx = x * x;
    let sy = y * y;
    let sz = z * z;
    let pxy = x * y;
    let pxz = x * z;
    let pxw = x * w;
    let pyz = y * z;
    let pyw = y * w;
    let pzw = z * w;
    lemma_quat_monomials(w, x, y, z, sw, sx, sy, sz, pxy, pxz, pxw, pyz, pyw, pzw);
    let nsq = sw + sx + sy + sz;
    let cc = sw + sy;
    let dd = sx + sz;
    let ee = sw + sz;
    let ff = sx + sy;
    let e10 = 2 * (pxy + pzw);
    let e11 = cc - dd;
    let e12 = 2 * (pyz - pxw);
    let e20 = 2 * (pxz - pyw);
    let e21 = 2 * (pyz + pxw);
    let e22 = ee - ff;
    assert(spec_rot_wide(q).r1 == v3(e10, e11, e12));
    assert(spec_rot_wide(q).r2 == v3(e20, e21, e22));

    // Row one: expand the two off-diagonal squares, fold the diagonal square.
    assert((2 * (pxy + pzw)) * (2 * (pxy + pzw)) == 4 * (pxy * pxy) + 8 * (pxy * pzw) + 4 * (pzw
        * pzw)) by (nonlinear_arith);
    assert((2 * (pyz - pxw)) * (2 * (pyz - pxw)) == 4 * (pyz * pyz) - 8 * (pyz * pxw) + 4 * (pxw
        * pxw)) by (nonlinear_arith);
    assert((cc - dd) * (cc - dd) + 4 * (cc * dd) == (cc + dd) * (cc + dd)) by (nonlinear_arith);
    assert(cc * dd == sw * sx + sw * sz + sy * sx + sy * sz) by (nonlinear_arith)
        requires
            cc == sw + sy,
            dd == sx + sz,
    ;
    assert(e10 * e10 + e12 * e12 == 4 * (cc * dd));
    assert(e10 * e10 + e11 * e11 + e12 * e12 == nsq * nsq);

    // Row two, in the same way.
    assert((2 * (pxz - pyw)) * (2 * (pxz - pyw)) == 4 * (pxz * pxz) - 8 * (pxz * pyw) + 4 * (pyw
        * pyw)) by (nonlinear_arith);
    assert((2 * (pyz + pxw)) * (2 * (pyz + pxw)) == 4 * (pyz * pyz) + 8 * (pyz * pxw) + 4 * (pxw
        * pxw)) by (nonlinear_arith);
    assert((ee - ff) * (ee - ff) + 4 * (ee * ff) == (ee + ff) * (ee + ff)) by (nonlinear_arith);
    assert(ee * ff == sw * sx + sw * sy + sz * sx + sz * sy) by (nonlinear_arith)
        requires
            ee == sw + sz,
            ff == sx + sy,
    ;
    assert(e20 * e20 + e21 * e21 == 4 * (ee * ff));
    assert(e20 * e20 + e21 * e21 + e22 * e22 == nsq * nsq);

    // Orthogonality of the two rows: distribute each of the three products
    // into atomic monomials and let the cross terms cancel.
    assert((2 * (pxy + pzw)) * (2 * (pxz - pyw)) == 4 * (pxy * pxz) - 4 * (pxy * pyw) + 4 * (pzw
        * pxz) - 4 * (pzw * pyw)) by (nonlinear_arith);
    assert((cc - dd) * (2 * (pyz + pxw)) == 2 * (sw * pyz) + 2 * (sy * pyz) + 2 * (sw * pxw) + 2
        * (sy * pxw) - 2 * (sx * pyz) - 2 * (sz * pyz) - 2 * (sx * pxw) - 2 * (sz * pxw))
        by (nonlinear_arith)
        requires
            cc == sw + sy,
            dd == sx + sz,
    ;
    assert((2 * (pyz - pxw)) * (ee - ff) == 2 * (sw * pyz) + 2 * (sz * pyz) - 2 * (sx * pyz) - 2
        * (sy * pyz) - 2 * (sw * pxw) - 2 * (sz * pxw) + 2 * (sx * pxw) + 2 * (sy * pxw))
        by (nonlinear_arith)
        requires
            ee == sw + sz,
            ff == sx + sy,
    ;
    assert(e10 * e20 + e11 * e21 + e12 * e22 == 0);
}

/// Monomial identities among the pairwise products of two quaternions'
/// components: each says that two ways of grouping the same four factors
/// agree.
proof fn lemma_cross_monomials(a: QuatView, b: QuatView, m: Seq<int>)
    requires
        m.len() == 16,
        forall|i: int, j: int| 0 <= i < 4 && 0 <= j < 4 ==> m[4 * i + j] == quat_comp(a, i)
            * quat_comp(b, j),
    ensures
        forall|i: int, j: int, k: int, l: int|
            0 <= i < 4 && 0 <= j < 4 && 0 <= k < 4 && 0 <= l < 4 ==> #[trigger] (m[4 * i + j]
                * m[4 * k + l]) == m[4 * i + l] * m[4 * k + j],
{
    assert forall|i: int, j: int, k: int, l: int|
        0 <= i < 4 && 0 <= j < 4 && 0 <= k < 4 && 0 <= l < 4 implies #[trigger] (m[4 * i + j]
            * m[4 * k + l]) == m[4 * i + l] * m[4 * k + j] by {
        let ai = quat_comp(a, i);
        let ak = quat_comp(a, k);
        let bj = quat_comp(b, j);
        let bl = quat_comp(b, l);
        assert((ai * bj) * (ak * bl) == (ai * bl) * (ak * bj)) by (nonlinear_arith);
    }
}

/// The component of a quaternion selected by an index, scalar part first.
pub open spec fn quat_comp(q: QuatView, i: int) -> int {
    if i == 0 {
        q.w
    } else if i == 1 {
        q.x
    } else if i == 2 {
        q.y
    } else {
        q.z
    }
}

/// The squared norm of a quaternion product is the product of the squared
/// norms (the four-square identity): composing rotations by unit quaternions
/// keeps the accumulated rotation at unit norm, before rounding.
pub proof fn lemma_q_mul_wide_normsq(a: QuatView, b: QuatView)
    ensures
        spec_q_normsq(spec_q_mul_wide(a, b)) == spec_q_normsq(a) * spec_q_normsq(b),
{
    let m = Seq::new(16, |t: int| quat_comp(a, t / 4) * quat_comp(b, t % 4));
    assert forall|i: int, j: int| 0 <= i < 4 && 0 <= j < 4 implies m[4 * i + j] == quat_comp(
        a,
        i,
    ) * quat_comp(b, j) by {
        assert((4 * i + j) / 4 == i && (4 * i + j) % 4 == j) by (nonlinear_arith)
            requires
                0 <= i < 4,
                0 <= j < 4,
        ;
    }
    lemma_cross_monomials(a, b, m);
    let mww = m[0];
    let mwx = m[1];
    let mwy = m[2];
    let mwz = m[3];
    let mxw = m[4];
    let mxx = m[5];
    let mxy = m[6];
    let mxz = m[7];
    let myw = m[8];
    let myx = m[9];
    let myy = m[10];
    let myz = m[11];
    let mzw = m[12];
    let mzx = m[13];
    let mzy = m[14];
    let mzz = m[15];
    let p = spec_q_mul_wide(a, b);
    assert(p.w == mww - mxx - myy - mzz && p.x == mwx + mxw + myz - mzy && p.y == mwy - mxz
        + myw + mzx && p.z == mwz + mxy - myx + mzw);
    // Square each component over the atomic products.
    assert(p.w * p.w == mww * mww + mxx * mxx + myy * myy + mzz * mzz - 2 * (mww * mxx) - 2 * (
    mww * myy) - 2 * (mww * mzz) + 2 * (mxx * myy) + 2 * (mxx * mzz) + 2 * (myy * mzz))
        by (nonlinear_arith)
        requires
            p.w == mww - mxx - myy - mzz,
    ;
    assert(p.x * p.x == mwx * mwx + mxw * mxw + myz * myz + mzy * mzy + 2 * (mwx * mxw) + 2 * (
    mwx * myz) - 2 * (mwx * mzy) + 2 * (mxw * myz) - 2 * (mxw * mzy) - 2 * (myz * mzy))
        by (nonlinear_arith)
        requires
            p.x == mwx + mxw + myz - mzy,
    ;
    assert(p.y * p.y == mwy * mwy + mxz * mxz + myw * myw + mzx * mzx - 2 * (mwy * mxz) + 2 * (
    mwy * myw) + 2 * (mwy * mzx) - 2 * (mxz * myw) - 2 * (mxz * mzx) + 2 * (myw * mzx))
        by (nonlinear_arith)
        requires
            p.y == mwy - mxz + myw + mzx,
    ;
    assert(p.z * p.z == mwz * mwz + mxy * mxy + myx * myx + mzw * mzw + 2 * (mwz * mxy) - 2 * (
    mwz * myx) + 2 * (mwz * mzw) - 2 * (mxy * myx) + 2 * (mxy * mzw) - 2 * (myx * mzw))
        by (nonlinear_arith)
        requires
            p.z == mwz + mxy - myx + mzw,
    ;
    // The cross terms cancel pairwise by the grouping identities, leaving
    // the sum of all sixteen squared atomic products.
    assert(p.w * p.w + p.x * p.x + p.y * p.y + p.z * p.z == mww * mww + mwx * mwx + mwy * mwy
        + mwz * mwz + mxw * mxw + mxx * mxx + mxy * mxy + mxz * mxz + myw * myw + myx * myx + myy
        * myy + myz * myz + mzw * mzw + mzx * mzx + mzy * mzy + mzz * mzz);
    // Each squared atomic product is a product of squared components, and
    // the sum of those factors as the product of the two squared norms.
    let saw = a.w * a.w;
    let sax = a.x * a.x;
    let say = a.y * a.y;
    let saz = a.z * a.z;
    let sbw = b.w * b.w;
    let sbx = b.x * b.x;
    let sby = b.y * b.y;
    let sbz = b.z * b.z;
    assert(mww * mww == saw * sbw && mwx * mwx == saw * sbx && mwy * mwy == saw * sby && mwz
        * mwz == saw * sbz) by (nonlinear_arith)
        requires
            mww == a.w * b.w && mwx == a.w * b.x && mwy == a.w * b.y && mwz == a.w * b.z,
            saw == a.w * a.w && sbw == b.w * b.w && sbx == b.x * b.x && sby == b.y * b.y && sbz
                == b.z * b.z,
    ;
    assert(mxw * mxw == sax * sbw && mxx * mxx == sax * sbx && mxy * mxy == sax * sby && mxz
        * mxz == sax * sbz) by (nonlinear_arith)
        requires
            mxw == a.x * b.w && mxx == a.x * b.x && mxy == a.x * b.y && mxz == a.x * b.z,
            sax == a.x * a.x && sbw == b.w * b.w && sbx == b.x * b.x && sby == b.y * b.y && sbz
                == b.z * b.z,
    ;
    assert(myw * myw == say * sbw && myx * myx == say * sbx && myy * myy == say * sby && myz
        * myz == say * sbz) by (nonlinear_arith)
        requires
            myw == a.y * b.w && myx == a.y * b.x && myy == a.y * b.y && myz == a.y * b.z,
            say == a.y * a.y && sbw == b.w * b.w && sbx == b.x * b.x && sby == b.y * b.y && sbz
                == b.z * b.z,
    ;
    assert(mzw * mzw == saz * sbw && mzx * mzx == saz * sbx && mzy * mzy == saz * sby && mzz
        * mzz == saz * sbz) by (nonlinear_arith)
        requires
            mzw == a.z * b.w && mzx == a.z * b.x && mzy == a.z * b.y && mzz == a.z * b.z,
            saz == a.z * a.z && sbw == b.w * b.w && sbx == b.x * b.x && sby == b.y * b.y && sbz
                == b.z * b.z,
    ;
    let sb = sbw + sbx + sby + sbz;
    assert((saw + sax + say + saz) * sb == saw * sb + sax * sb + say * sb + saz * sb)
        by (nonlinear_arith);
    assert(saw * sb == saw * sbw + saw * sbx + saw * sby + saw * sbz) by (nonlinear_arith)
        requires
            sb == sbw + sbx + sby + sbz,
    ;
    assert(sax * sb == sax * sbw + sax * sbx + sax * sby + sax * sbz) by (nonlinear_arith)
        requires
            sb == sbw + sbx + sby + sbz,
    ;
    assert(say * sb == say * sbw + say * sbx + say * sby + say * sbz) by (nonlinear_arith)
        requires
            sb == sbw + sbx + sby + sbz,
    ;
    assert(saz * sb == saz * sbw + saz * sbx + saz * sby + saz * sbz) by (nonlinear_arith)
        requires
            sb == sbw + sbx + sby + sbz,
    ;
}

/// Negating a quaternion leaves its rotation matrix unchanged: a quaternion
/// and its negation describe the same rotation.
pub proof fn lemma_rot_mat_neg(q: QuatView)
    ensures
        spec_rot_mat(q_neg(q)) == spec_rot_mat(q),
        spec_q_normsq(q_neg(q)) == spec_q_normsq(q),
{
    let n = q_neg(q);
    assert(n.y * n.y + n.z * n.z == q.y * q.y + q.z * q.z) by (nonlinear_arith)
        requires
            n.y == -q.y,
            n.z == -q.z,
    ;
    assert(n.x * n.x + n.z * n.z == q.x * q.x + q.z * q.z) by (nonlinear_arith)
        requires
            n.x == -q.x,
            n.z == -q.z,
    ;
    assert(n.x * n.x + n.y * n.y == q.x * q.x + q.y * q.y) by (nonlinear_arith)
        requires
            n.x == -q.x,
            n.y == -q.y,
    ;
    assert(n.w * n.w == q.w * q.w) by (nonlinear_arith)
        requires
            n.w == -q.w,
    ;
    assert(n.x * n.y - n.z * n.w == q.x * q.y - q.z * q.w && n.x * n.y + n.z * n.w == q.x * q.y
        + q.z * q.w) by (nonlinear_arith)
        requires
            n.x == -q.x,
            n.y == -q.y,
            n.z == -q.z,
            n.w == -q.w,
    ;
    assert(n.x * n.z + n.y * n.w == q.x * q.z + q.y * q.w && n.x * n.z - n.y * n.w == q.x * q.z
        - q.y * q.w) by (nonlinear_arith)
        requires
            n.x == -q.x,
            n.y == -q.y,
            n.z == -q.z,
            n.w == -q.w,
    ;
    assert(n.y * n.z - n.x * n.w == q.y * q.z - q.x * q.w && n.y * n.z + n.x * n.w == q.y * q.z
        + q.x * q.w) by (nonlinear_arith)
        requires
            n.x == -q.x,
            n.y == -q.y,
            n.z == -q.z,
            n.w == -q.w,
    ;
}

/// Composing the half-turn quaternion `(-1, 0, 0, 0)` with any quaternion
/// negates it exactly, also in fixed point.
pub proof fn lemma_neg_unit_times(r: QuatView)
    ensures
        spec_q_mul(QuatView { w: -(FP_ONE as int), x: 0, y: 0, z: 0 }, r) == q_neg(r),
{
    let s = FP_ONE as int;
    let a = QuatView { w: -s, x: 0, y: 0, z: 0 };
    let wide = spec_q_mul_wide(a, r);
    assert(wide.w == -s * r.w && wide.x == -s * r.x && wide.y == -s * r.y && wide.z == -s * r.z)
        by (nonlinear_arith)
        requires
            wide == spec_q_mul_wide(a, r),
            a.w == -s,
            a.x == 0 && a.y == 0 && a.z == 0,
            wide.w == a.w * r.w - a.x * r.x - a.y * r.y - a.z * r.z,
            wide.x == a.w * r.x + a.x * r.w + a.y * r.z - a.z * r.y,
            wide.y == a.w * r.y - a.x * r.z + a.y * r.w + a.z * r.x,
            wide.z == a.w * r.z + a.x * r.y - a.y * r.x + a.z * r.w,
    ;
    assert(-s * r.w == (-r.w) * s && -s * r.x == (-r.x) * s && -s * r.y == (-r.y) * s && -s * r.z
        == (-r.z) * s) by (nonlinear_arith);
    crate::fixed::lemma_trunc_div_exact(-r.w, s);
    crate::fixed::lemma_trunc_div_exact(-r.x, s);
    crate::fixed::lemma_trunc_div_exact(-r.y, s);
    crate::fixed::lemma_trunc_div_exact(-r.z, s);
}

/// Squaring a pure quaternion that lies exactly on the fixed-point unit
/// sphere yields the half-turn quaternion `(-1, 0, 0, 0)`.
pub proof fn lemma_pure_unit_square(b: QuatView)
    requires
        b.w == 0,
        b.x * b.x + b.y * b.y + b.z * b.z == (FP_ONE as int) * (FP_ONE as int),
    ensures
        spec_q_mul(b, b) == (QuatView { w: -(FP_ONE as int), x: 0, y: 0, z: 0 }),
{
    let s = FP_ONE as int;
    let wide = spec_q_mul_wide(b, b);
    assert(wide.w == -(s * s) && wide.x == 0 && wide.y == 0 && wide.z == 0) by (nonlinear_arith)
        requires
            b.w == 0,
            b.x * b.x + b.y * b.y + b.z * b.z == s * s,
            wide.w == b.w * b.w - b.x * b.x - b.y * b.y - b.z * b.z,
            wide.x == b.w * b.x + b.x * b.w + b.y * b.z - b.z * b.y,
            wide.y == b.w * b.y - b.x * b.z + b.y * b.w + b.z * b.x,
            wide.z == b.w * b.z + b.x * b.y - b.y * b.x + b.z * b.w,
    ;
    assert(-(s * s) == (-s) * s) by (nonlinear_arith);
    crate::fixed::lemma_trunc_div_exact(-s, s);
    crate::fixed::lemma_trunc_div_exact(0, s);
}

/// Component bound for a fixed-point quaternion product.
pub proof fn lemma_q_mul_comp_bound(a: QuatView, b: QuatView, aa: int, bb: int, cc: int)
    requires
        q_bounded(a, aa),
        q_bounded(b, bb),
        aa >= 0,
        bb >= 0,
        cc >= 0,
        4 * (aa * bb) <= cc * (FP_ONE as int),
    ensures
        q_bounded(spec_q_mul(a, b), cc),
{
    lemma_abs_mul(a.w, b.w, aa, bb);
    lemma_abs_mul(a.w, b.x, aa, bb);
    lemma_abs_mul(a.w, b.y, aa, bb);
    lemma_abs_mul(a.w, b.z, aa, bb);
    lemma_abs_mul(a.x, b.w, aa, bb);
    lemma_abs_mul(a.x, b.x, aa, bb);
    lemma_abs_mul(a.x, b.y, aa, bb);
    lemma_abs_mul(a.x, b.z, aa, bb);
    lemma_abs_mul(a.y, b.w, aa, bb);
    lemma_abs_mul(a.y, b.x, aa, bb);
    lemma_abs_mul(a.y, b.y, aa, bb);
    lemma_abs_mul(a.y, b.z, aa, bb);
    lemma_abs_mul(a.z, b.w, aa, bb);
    lemma_abs_mul(a.z, b.x, aa, bb);
    lemma_abs_mul(a.z, b.y, aa, bb);
    lemma_abs_mul(a.z, b.z, aa, bb);
    let wide = spec_q_mul_wide(a, b);
    lemma_trunc_div_bound(wide.w, FP_ONE as int, cc);
    lemma_trunc_div_bound(wide.x, FP_ONE as int, cc);
    lemma_trunc_div_bound(wide.y, FP_ONE as int, cc);
    lemma_trunc_div_bound(wide.z, FP_ONE as int, cc);
}

/// The rotation matrix of the identity quaternion is the identity matrix at
/// scale `FP_ONE`.
pub proof fn lemma_rot_mat_identity()
    ensures
        spec_rot_mat(q_identity()) == (Mat3View {
            r0: v3(FP_ONE as int, 0, 0),
            r1: v3(0, FP_ONE as int, 0),
            r2: v3(0, 0, FP_ONE as int),
        }),
{
    crate::fixed::lemma_trunc_div_exact(0, FP_ONE as int);
    let q = q_identity();
    assert(q.x * q.x == 0 && q.y * q.y == 0 && q.z * q.z == 0 && q.x * q.y == 0 && q.x * q.z
        == 0 && q.y * q.z == 0 && q.x * q.w == 0 && q.y * q.w == 0 && q.z * q.w == 0)
        by (nonlinear_arith)
        requires
            q.x == 0,
            q.y == 0,
            q.z == 0,
    ;
    assert(spec_rot_mat(q).r0 == v3(FP_ONE as int, 0, 0));
    assert(spec_rot_mat(q).r1 == v3(0, FP_ONE as int, 0));
    assert(spec_rot_mat(q).r2 == v3(0, 0, FP_ONE as int));
}

/// The identity quaternion lies in the accepted band.
pub proof fn lemma_identity_in_band()
    ensures
        spec_q_normsq(q_identity()) == UNIT_NSQ as int,
        in_band(UNIT_NSQ as int),
        q_bounded(q_identity(), QC_MAX as int),
{
    assert((FP_ONE as int) * (FP_ONE as int) == UNIT_NSQ as int) by (nonlinear_arith)
        requires
            FP_ONE == 65536,
            UNIT_NSQ == 4294967296,
    ;
}

} // verus!
