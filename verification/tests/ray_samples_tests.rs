use mirage::ray_samples::{create_indices, push_indices_for_side, TriangleIndices, SAMPLES_PER_POINT};

fn tri(a: u16, b: u16, c: u16) -> TriangleIndices {
    TriangleIndices { a, b, c }
}

#[test]
fn create_indices_length() {
    let indices = create_indices();
    assert_eq!(indices.len(), 16 * (SAMPLES_PER_POINT as usize - 1));
}

#[test]
fn first_quad_of_first_side() {
    let indices = create_indices();
    // Side (0, 1, 2), sample 0: bases 0, 100, 200.
    assert_eq!(indices[0], tri(0, 101, 1));
    assert_eq!(indices[1], tri(0, 100, 101));
    assert_eq!(indices[2], tri(100, 200, 101));
    assert_eq!(indices[3], tri(200, 201, 101));
}

#[test]
fn second_quad_uses_next_sample() {
    let indices = create_indices();
    assert_eq!(indices[4], tri(1, 102, 2));
    assert_eq!(indices[5], tri(1, 101, 102));
    assert_eq!(indices[6], tri(101, 201, 102));
    assert_eq!(indices[7], tri(201, 202, 102));
}

#[test]
fn sides_start_at_their_grid_points() {
    let indices = create_indices();
    let stride = 4 * (SAMPLES_PER_POINT as usize - 1);
    // Side (2, 3, 4): bases 200, 300, 400.
    assert_eq!(indices[stride], tri(200, 301, 201));
    // Side (4, 5, 6): bases 400, 500, 600.
    assert_eq!(indices[2 * stride], tri(400, 501, 401));
    // Side (6, 7, 0): bases 600, 700, 0.
    assert_eq!(indices[3 * stride], tri(600, 701, 601));
    assert_eq!(indices[3 * stride + 2], tri(700, 0, 701));
}

#[test]
fn push_indices_appends() {
    let mut result = vec![tri(9, 9, 9)];
    push_indices_for_side(&mut result, 1, 2, 3);
    assert_eq!(result.len(), 1 + 4 * (SAMPLES_PER_POINT as usize - 1));
    assert_eq!(result[0], tri(9, 9, 9));
    assert_eq!(result[1], tri(100, 201, 101));
    assert_eq!(result[2], tri(100, 200, 201));
    assert_eq!(result[3], tri(200, 300, 201));
    assert_eq!(result[4], tri(300, 301, 201));
}
