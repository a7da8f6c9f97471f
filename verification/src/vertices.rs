//! Mesh vertex preprocessing: bounding-box center extraction and coordinate
//! normalization, over flat `x, y, z` coordinate arrays in fixed point.

use vstd::prelude::*;
use crate::fixed::{
    FP_ONE, FP_MAX, trunc_div, spec_fp_div, fp_div, lemma_abs_mul, lemma_trunc_div_bound,
};
use crate::linalg::{Vec3, v3, v3_bounded};

verus! {

pub open spec fn min2(a: int, b: int) -> int {
    if b < a {
        b
    } else {
        a
    }
}

pub open spec fn max2(a: int, b: int) -> int {
    if b > a {
        b
    } else {
        a
    }
}

/// Minimum over the whole coordinate array, up to index `k` (exclusive).
pub open spec fn seq_min(s: Seq<i64>, k: int) -> int
    recommends
        1 <= k <= s.len(),
    decreases k,
{
    if k <= 1 {
        s[0] as int
    } else {
        min2(seq_min(s, k - 1), s[k - 1] as int)
    }
}

/// Maximum over the whole coordinate array, up to index `k` (exclusive).
pub open spec fn seq_max(s: Seq<i64>, k: int) -> int
    recommends
        1 <= k <= s.len(),
    decreases k,
{
    if k <= 1 {
        s[0] as int
    } else {
        max2(seq_max(s, k - 1), s[k - 1] as int)
    }
}

/// Minimum of one axis (0, 1 or 2) over the first `k` vertices of a flat
/// `x, y, z` array.
pub open spec fn axis_min(s: Seq<i64>, axis: int, k: int) -> int
    recommends
        1 <= k,
        3 * k <= s.len(),
        0 <= axis < 3,
    decreases k,
{
    if k <= 1 {
        s[axis] as int
    } else {
        min2(axis_min(s, axis, k - 1), s[3 * (k - 1) + axis] as int)
    }
}

/// Maximum of one axis over the first `k` vertices of a flat array.
pub open spec fn axis_max(s: Seq<i64>, axis: int, k: int) -> int
    recommends
        1 <= k,
        3 * k <= s.len(),
        0 <= axis < 3,
    decreases k,
{
    if k <= 1 {
        s[axis] as int
    } else {
        max2(axis_max(s, axis, k - 1), s[3 * (k - 1) + axis] as int)
    }
}

pub open spec fn all_bounded(s: Seq<i64>, m: int) -> bool {
    forall|i: int| 0 <= i < s.len() ==> -m <= #[trigger] s[i] <= m
}

/// The value a coordinate is mapped to by normalization into `[-1, 1]`:
/// `(x - min) / (max - min) * 2 - 1` in fixed point.
pub open spec fn spec_normalized(x: int, mn: int, mx: int) -> int
    recommends
        mn < mx,
{
    spec_fp_div(2 * (x - mn), mx - mn) - FP_ONE as int
}

/// Normalize all coordinates into the fixed-point interval `[-1, 1]`,
/// mapping the global minimum to `-1` and the global maximum to `1`.  The
/// array must contain two distinct values; degenerate input is the caller's
/// responsibility, as is an empty array.
pub fn normalize_vertices(vertices: &mut Vec<i64>)
    requires
        old(vertices)@.len() >= 1,
        all_bounded(old(vertices)@, FP_MAX as int),
        seq_min(old(vertices)@, old(vertices)@.len() as int) < seq_max(
            old(vertices)@,
            old(vertices)@.len() as int,
        ),
    ensures
        final(vertices)@.len() == old(vertices)@.len(),
        forall|i: int|
            0 <= i < old(vertices)@.len() ==> final(vertices)@[i] as int == spec_normalized(
                old(vertices)@[i] as int,
                seq_min(old(vertices)@, old(vertices)@.len() as int),
                seq_max(old(vertices)@, old(vertices)@.len() as int),
            ),
{
    let n = vertices.len();
    let mut mn: i64 = vertices[0];
    let mut mx: i64 = vertices[0];
    let mut i: usize = 1;
    while i < n
        invariant
            1 <= i <= n,
            n == vertices@.len(),
            all_bounded(vertices@, FP_MAX as int),
            mn as int == seq_min(vertices@, i as int),
            mx as int == seq_max(vertices@, i as int),
            seq_min(vertices@, vertices@.len() as int) < seq_max(
                vertices@,
                vertices@.len() as int,
            ),
        decreases n - i,
    {
        let x = vertices[i];
        if x < mn {
            mn = x;
        }
        if x > mx {
            mx = x;
        }
        i = i + 1;
    }
    proof {
        lemma_extremes_bound(vertices@, n as int);
        lemma_extremes_order(vertices@, n as int);
    }
    let range = mx - mn;
    let mut k: usize = 0;
    while k < n
        invariant
            0 <= k <= n,
            n == vertices@.len(),
            n == old(vertices)@.len(),
            range == mx - mn,
            1 <= range,
            -(FP_MAX as int) <= mn <= FP_MAX as int,
            -(FP_MAX as int) <= mx <= FP_MAX as int,
            all_bounded(old(vertices)@, FP_MAX as int),
            mn as int == seq_min(old(vertices)@, n as int),
            mx as int == seq_max(old(vertices)@, n as int),
            forall|j: int| k <= j < n ==> vertices@[j] == old(vertices)@[j],
            forall|j: int|
                0 <= j < k ==> vertices@[j] as int == spec_normalized(
                    old(vertices)@[j] as int,
                    mn as int,
                    mx as int,
                ),
        decreases n - k,
    {
        let x = vertices[k];
        proof {
            lemma_element_in_extremes(old(vertices)@, n as int, k as int);
            lemma_abs_mul(
                2 * (x as int - mn as int),
                FP_ONE as int,
                4 * (FP_MAX as int),
                FP_ONE as int,
            );
            assert(4 * (FP_MAX as int) * (FP_ONE as int) * 1 <= 4 * (FP_MAX as int) * (
            FP_ONE as int) * (range as int)) by (nonlinear_arith)
                requires
                    range as int >= 1,
                    4 * (FP_MAX as int) * (FP_ONE as int) >= 0,
            ;
            lemma_trunc_div_bound(
                2 * (x as int - mn as int) * (FP_ONE as int),
                range as int,
                4 * (FP_MAX as int) * (FP_ONE as int),
            );
        }
        let scaled = fp_div(2 * (x - mn), range);
        vertices.set(k, scaled - FP_ONE);
        k = k + 1;
    }
}

/// The bounding-box center of a flat `x, y, z` vertex array: the midpoint of
/// the per-axis extremes.
pub fn get_center(vertices: &Vec<i64>) -> (c: Vec3)
    requires
        vertices@.len() >= 3,
        vertices@.len() % 3 == 0,
        all_bounded(vertices@, FP_MAX as int),
    ensures
        ({
            let kk = vertices@.len() as int / 3;
            c@ == v3(
                trunc_div(axis_min(vertices@, 0, kk) + axis_max(vertices@, 0, kk), 2),
                trunc_div(axis_min(vertices@, 1, kk) + axis_max(vertices@, 1, kk), 2),
                trunc_div(axis_min(vertices@, 2, kk) + axis_max(vertices@, 2, kk), 2),
            )
        }),
        v3_bounded(c@, FP_MAX as int),
{
    let n = vertices.len();
    let num_vertices = n / 3;
    let mut min_x: i64 = vertices[0];
    let mut min_y: i64 = vertices[1];
    let mut min_z: i64 = vertices[2];
    let mut max_x: i64 = vertices[0];
    let mut max_y: i64 = vertices[1];
    let mut max_z: i64 = vertices[2];
    let mut i: usize = 1;
    while i < num_vertices
        invariant
            1 <= i <= num_vertices,
            n == vertices@.len(),
            num_vertices == n as int / 3,
            n as int % 3 == 0,
            n >= 3,
            all_bounded(vertices@, FP_MAX as int),
            min_x as int == axis_min(vertices@, 0, i as int),
            min_y as int == axis_min(vertices@, 1, i as int),
            min_z as int == axis_min(vertices@, 2, i as int),
            max_x as int == axis_max(vertices@, 0, i as int),
            max_y as int == axis_max(vertices@, 1, i as int),
            max_z as int == axis_max(vertices@, 2, i as int),
        decreases num_vertices - i,
    {
        proof {
            assert(3 * (i as int) + 2 < n as int) by (nonlinear_arith)
                requires
                    i < n as int / 3,
                    n as int % 3 == 0,
                    n >= 3,
            ;
        }
        let x = vertices[3 * i];
        if x < min_x {
            min_x = x;
        }
        if x > max_x {
            max_x = x;
        }
        let y = vertices[3 * i + 1];
        if y < min_y {
            min_y = y;
        }
        if y > max_y {
            max_y = y;
        }
        let z = vertices[3 * i + 2];
        if z < min_z {
            min_z = z;
        }
        if z > max_z {
            max_z = z;
        }
        i = i + 1;
    }
    proof {
        lemma_axis_extremes_bound(vertices@, 0, num_vertices as int);
        lemma_axis_extremes_bound(vertices@, 1, num_vertices as int);
        lemma_axis_extremes_bound(vertices@, 2, num_vertices as int);
    }
    Vec3 {
        x: mid(min_x, max_x),
        y: mid(min_y, max_y),
        z: mid(min_z, max_z),
    }
}

/// Midpoint of two bounded coordinates, truncated toward zero.
fn mid(a: i64, b: i64) -> (m: i64)
    requires
        -(FP_MAX as int) <= a <= FP_MAX as int,
        -(FP_MAX as int) <= b <= FP_MAX as int,
    ensures
        m == trunc_div(a as int + b as int, 2),
        -(FP_MAX as int) <= m <= FP_MAX as int,
{
    proof {
        lemma_trunc_div_bound(a as int + b as int, 2, FP_MAX as int);
    }
    let s: i64 = a + b;
    if s >= 0 {
        s / 2
    } else {
        -((-s) / 2)
    }
}

/// The extremes of a bounded array are bounded.
proof fn lemma_extremes_bound(s: Seq<i64>, k: int)
    requires
        1 <= k <= s.len(),
        all_bounded(s, FP_MAX as int),
    ensures
        -(FP_MAX as int) <= seq_min(s, k) <= FP_MAX as int,
        -(FP_MAX as int) <= seq_max(s, k) <= FP_MAX as int,
    decreases k,
{
    if k > 1 {
        lemma_extremes_bound(s, k - 1);
    }
}

/// The minimum never exceeds the maximum.
proof fn lemma_extremes_order(s: Seq<i64>, k: int)
    requires
        1 <= k <= s.len(),
    ensures
        seq_min(s, k) <= seq_max(s, k),
    decreases k,
{
    if k > 1 {
        lemma_extremes_order(s, k - 1);
    }
}

/// Every element up to `k` lies between the extremes.
proof fn lemma_element_in_extremes(s: Seq<i64>, k: int, j: int)
    requires
        1 <= k <= s.len(),
        0 <= j < k,
    ensures
        seq_min(s, k) <= s[j] as int <= seq_max(s, k),
    decreases k,
{
    if k > 1 && j < k - 1 {
        lemma_element_in_extremes(s, k - 1, j);
    }
}

/// Per-axis extremes of a bounded array are bounded.
proof fn lemma_axis_extremes_bound(s: Seq<i64>, axis: int, k: int)
    requires
        1 <= k,
        3 * k <= s.len(),
        0 <= axis < 3,
        all_bounded(s, FP_MAX as int),
    ensures
        -(FP_MAX as int) <= axis_min(s, axis, k) <= FP_MAX as int,
        -(FP_MAX as int) <= axis_max(s, axis, k) <= FP_MAX as int,
    decreases k,
{
    if k > 1 {
        lemma_axis_extremes_bound(s, axis, k - 1);
    }
}

} // verus!
