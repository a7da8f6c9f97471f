//! Index generation for the sampled-ray wireframe: the eight edge points of
//! a three-by-three grid, each traced with a fixed number of samples, are
//! stitched into triangle strips side by side.

use vstd::prelude::*;

verus! {

/// Samples traced per grid point.
pub const SAMPLES_PER_POINT: u16 = 100;

/// One triangle of the sample mesh, as three vertex indices.
#[derive(Clone, Copy, PartialEq, Eq, Structural, Debug)]
pub struct TriangleIndices {
    pub a: u16,
    pub b: u16,
    pub c: u16,
}

/// The `v`-th of the four triangles stitched between samples `j` and `j + 1`
/// of the three grid points `a`, `b` and `c`.
pub open spec fn spec_side_triangle(a: u16, b: u16, c: u16, j: int, v: int) -> TriangleIndices
    recommends
        0 <= j < SAMPLES_PER_POINT - 1,
        0 <= v < 4,
{
    let aa = a * (SAMPLES_PER_POINT as int) + j;
    let bb = b * (SAMPLES_PER_POINT as int) + j;
    let cc = c * (SAMPLES_PER_POINT as int) + j;
    if v == 0 {
        TriangleIndices { a: aa as u16, b: (bb + 1) as u16, c: (aa + 1) as u16 }
    } else if v == 1 {
        TriangleIndices { a: aa as u16, b: bb as u16, c: (bb + 1) as u16 }
    } else if v == 2 {
        TriangleIndices { a: bb as u16, b: cc as u16, c: (bb + 1) as u16 }
    } else {
        TriangleIndices { a: cc as u16, b: (cc + 1) as u16, c: (bb + 1) as u16 }
    }
}

/// Append the triangles that stitch together the samples of the three grid
/// points `a`, `b` and `c`: four triangles per consecutive sample pair.
pub fn push_indices_for_side(result: &mut Vec<TriangleIndices>, a: u16, b: u16, c: u16)
    requires
        a < 8,
        b < 8,
        c < 8,
    ensures
        final(result)@.len() == old(result)@.len() + 4 * (SAMPLES_PER_POINT - 1),
        forall|j: int| 0 <= j < old(result)@.len() ==> final(result)@[j] == old(result)@[j],
        forall|j: int, v: int|
            0 <= j < SAMPLES_PER_POINT - 1 && 0 <= v < 4 ==> final(result)@[old(result)@.len()
                + 4 * j + v] == spec_side_triangle(a, b, c, j, v),
{
    let base = a * SAMPLES_PER_POINT;
    let base_b = b * SAMPLES_PER_POINT;
    let base_c = c * SAMPLES_PER_POINT;
    let mut i: u16 = 0;
    while i < SAMPLES_PER_POINT - 1
        invariant
            0 <= i <= SAMPLES_PER_POINT - 1,
            a < 8 && b < 8 && c < 8,
            base == a * SAMPLES_PER_POINT,
            base_b == b * SAMPLES_PER_POINT,
            base_c == c * SAMPLES_PER_POINT,
            result@.len() == old(result)@.len() + 4 * i,
            forall|j: int| 0 <= j < old(result)@.len() ==> result@[j] == old(result)@[j],
            forall|j: int, v: int|
                0 <= j < i && 0 <= v < 4 ==> result@[old(result)@.len() + 4 * j + v]
                    == spec_side_triangle(a, b, c, j, v),
        decreases SAMPLES_PER_POINT - 1 - i,
    {
        let aa = base + i;
        let bb = base_b + i;
        let cc = base_c + i;
        result.push(TriangleIndices { a: aa, b: bb + 1, c: aa + 1 });
        result.push(TriangleIndices { a: aa, b: bb, c: bb + 1 });
        result.push(TriangleIndices { a: bb, b: cc, c: bb + 1 });
        result.push(TriangleIndices { a: cc, b: cc + 1, c: bb + 1 });
        i = i + 1;
    }
}

/// The triangle indices of the whole sampled-ray mesh: the four sides of the
/// grid's edge ring, in order.
pub fn create_indices() -> (result: Vec<TriangleIndices>)
    ensures
        result@.len() == 16 * (SAMPLES_PER_POINT - 1),
        forall|j: int, v: int|
            0 <= j < SAMPLES_PER_POINT - 1 && 0 <= v < 4 ==> result@[4 * j + v]
                == spec_side_triangle(0, 1, 2, j, v),
        forall|j: int, v: int|
            0 <= j < SAMPLES_PER_POINT - 1 && 0 <= v < 4 ==> result@[4 * (
            SAMPLES_PER_POINT as int - 1) + 4 * j + v] == spec_side_triangle(2, 3, 4, j, v),
        forall|j: int, v: int|
            0 <= j < SAMPLES_PER_POINT - 1 && 0 <= v < 4 ==> result@[8 * (
            SAMPLES_PER_POINT as int - 1) + 4 * j + v] == spec_side_triangle(4, 5, 6, j, v),
        forall|j: int, v: int|
            0 <= j < SAMPLES_PER_POINT - 1 && 0 <= v < 4 ==> result@[12 * (
            SAMPLES_PER_POINT as int - 1) + 4 * j + v] == spec_side_triangle(6, 7, 0, j, v),
{
    let mut result: Vec<TriangleIndices> = Vec::new();
    push_indices_for_side(&mut result, 0, 1, 2);
    push_indices_for_side(&mut result, 2, 3, 4);
    push_indices_for_side(&mut result, 4, 5, 6);
    push_indices_for_side(&mut result, 6, 7, 0);
    result
}

} // verus!
