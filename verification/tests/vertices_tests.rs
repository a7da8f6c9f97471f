use mirage::linalg::Vec3;
use mirage::vertices::{get_center, normalize_vertices};

const ONE: i64 = 65536;

#[test]
fn center_of_two_vertices() {
    let vertices = vec![0, 0, 0, ONE, 2 * ONE, 3 * ONE];
    let center = get_center(&vertices);
    assert_eq!(center, Vec3 { x: ONE / 2, y: ONE, z: 3 * ONE / 2 });
}

#[test]
fn center_of_single_vertex() {
    let vertices = vec![5 * ONE, -3 * ONE, ONE];
    let center = get_center(&vertices);
    assert_eq!(center, Vec3 { x: 5 * ONE, y: -3 * ONE, z: ONE });
}

#[test]
fn center_ignores_order() {
    let vertices = vec![2 * ONE, 0, 0, -2 * ONE, 0, 0, ONE, ONE, -ONE];
    let center = get_center(&vertices);
    // x spans [-2, 2], y spans [0, 1], z spans [-1, 0].
    assert_eq!(center, Vec3 { x: 0, y: ONE / 2, z: -ONE / 2 });
}

#[test]
fn normalize_maps_extremes_to_unit_interval() {
    let mut vertices = vec![0, ONE / 2, ONE];
    normalize_vertices(&mut vertices);
    assert_eq!(vertices, vec![-ONE, 0, ONE]);
}

#[test]
fn normalize_shifted_range() {
    let mut vertices = vec![ONE, 2 * ONE, 3 * ONE, 2 * ONE, ONE, 3 * ONE];
    normalize_vertices(&mut vertices);
    // The range [1, 3] maps 1 to -1, 2 to 0 and 3 to 1, over every
    // coordinate of every vertex.
    assert_eq!(vertices, vec![-ONE, 0, ONE, 0, -ONE, ONE]);
}
