use mirage::arcball::ArcballCamera;
use mirage::linalg::{Quat, Vec3};

const ONE: i64 = 65536;

fn test_camera() -> ArcballCamera {
    ArcballCamera::new(Vec3 { x: 0, y: 0, z: 0 }, ONE, 800 * ONE, 600 * ONE)
}

#[test]
fn new_camera_fields() {
    let cam = test_camera();
    assert_eq!(cam.center, Vec3 { x: 0, y: 0, z: 0 });
    assert_eq!(cam.translation, Vec3 { x: 0, y: 0, z: -ONE });
    assert_eq!(cam.center_translation, Vec3 { x: 0, y: 0, z: 0 });
    assert_eq!(cam.rotation, Quat { w: ONE, x: 0, y: 0, z: 0 });
    assert_eq!(cam.zoom_speed, ONE);
}

#[test]
fn zoom_out_one_unit_gives_eye_two_back() {
    // Zoom by -1 over one second from the initial one-unit offset: the eye
    // sits exactly two units behind the center on the z axis.
    let mut cam = test_camera();
    cam.zoom(-ONE, ONE);
    let eye = cam.eye_pos();
    assert_eq!(eye, Vec3 { x: 0, y: 0, z: 2 * ONE });
}

#[test]
fn eye_extraction_round_trip_with_offset_center() {
    // With zero rotation and zero pan the eye is the center moved back by
    // the accumulated zoom translation.
    let center = Vec3 { x: 3 * ONE, y: -2 * ONE, z: ONE };
    let mut cam = ArcballCamera::new(center, ONE, 800 * ONE, 600 * ONE);
    cam.zoom(-ONE, ONE);
    let eye = cam.eye_pos();
    assert_eq!(eye, Vec3 { x: 3 * ONE, y: -2 * ONE, z: ONE + 2 * ONE });
}

#[test]
fn directions_of_identity_orientation() {
    let cam = test_camera();
    assert_eq!(cam.eye_dir(), Vec3 { x: 0, y: 0, z: -ONE });
    assert_eq!(cam.up_dir(), Vec3 { x: 0, y: ONE, z: 0 });
}

#[test]
fn rotate_without_motion_keeps_view() {
    // A drag whose two samples are both the screen center negates the
    // rotation quaternion exactly and leaves every derived quantity
    // unchanged.
    let mut cam = test_camera();
    let mat_before = cam.get_mat4();
    let eye_before = cam.eye_pos();
    let dir_before = cam.eye_dir();
    let up_before = cam.up_dir();
    cam.rotate(400 * ONE, 300 * ONE, 400 * ONE, 300 * ONE);
    assert_eq!(cam.rotation, Quat { w: -ONE, x: 0, y: 0, z: 0 });
    assert_eq!(cam.get_mat4(), mat_before);
    assert_eq!(cam.eye_pos(), eye_before);
    assert_eq!(cam.eye_dir(), dir_before);
    assert_eq!(cam.up_dir(), up_before);
}

#[test]
fn rotate_with_motion_changes_rotation() {
    let mut cam = test_camera();
    cam.rotate(400 * ONE, 300 * ONE, 500 * ONE, 300 * ONE);
    assert_ne!(cam.rotation, Quat { w: ONE, x: 0, y: 0, z: 0 });
    assert_ne!(cam.rotation, Quat { w: -ONE, x: 0, y: 0, z: 0 });
}

#[test]
fn directions_stay_orthonormal_after_drags() {
    // After a chain of drags the view and up directions stay unit length
    // and mutually orthogonal up to fixed-point rounding.
    let mut cam = test_camera();
    let drags = [
        (400, 300, 500, 320),
        (500, 320, 430, 180),
        (430, 180, 20, 590),
        (20, 590, 799, 10),
        (799, 10, 400, 300),
    ];
    for (ax, ay, bx, by) in drags {
        cam.rotate(ax * ONE, ay * ONE, bx * ONE, by * ONE);
        let d = cam.eye_dir();
        let u = cam.up_dir();
        let d_nsq = d.x * d.x + d.y * d.y + d.z * d.z;
        let u_nsq = u.x * u.x + u.y * u.y + u.z * u.z;
        let dot = d.x * u.x + d.y * u.y + d.z * u.z;
        let unit = ONE * ONE;
        assert!((d_nsq - unit).abs() < 4_000_000, "eye_dir norm drifted: {}", d_nsq);
        assert!((u_nsq - unit).abs() < 4_000_000, "up_dir norm drifted: {}", u_nsq);
        assert!(dot.abs() < 4_000_000, "directions not orthogonal: {}", dot);
    }
}

#[test]
fn pan_moves_pivot_translation() {
    let mut cam = test_camera();
    // A pan of 80 pixels right and 60 pixels down with identity rotation:
    // the delta is scaled by the reciprocal screen size only.
    cam.pan(80 * ONE, 60 * ONE);
    assert_eq!(
        cam.center_translation,
        Vec3 { x: ONE / 10, y: -ONE / 10, z: 0 }
    );
    // The eye follows the pivot.
    let eye = cam.eye_pos();
    assert_eq!(eye, Vec3 { x: -ONE / 10, y: ONE / 10, z: ONE });
}

#[test]
fn update_screen_changes_mapping() {
    let mut cam = test_camera();
    cam.update_screen(400 * ONE, 300 * ONE);
    assert_eq!(cam.screen_w, 400 * ONE);
    assert_eq!(cam.screen_h, 300 * ONE);
    // The center pixel of the new screen is a no-motion drag again.
    let before = cam.get_mat4();
    cam.rotate(200 * ONE, 150 * ONE, 200 * ONE, 150 * ONE);
    assert_eq!(cam.get_mat4(), before);
}

#[test]
fn view_matrix_of_fresh_camera() {
    let cam = test_camera();
    let m = cam.get_mat4();
    // Identity rotation, center at the origin: the matrix is a pure
    // translation one unit back.
    assert_eq!(m.r0.x, ONE);
    assert_eq!(m.r0.y, 0);
    assert_eq!(m.r0.w, 0);
    assert_eq!(m.r1.y, ONE);
    assert_eq!(m.r2.z, ONE);
    assert_eq!(m.r2.w, -ONE);
    assert_eq!(m.r3.w, ONE);
}
