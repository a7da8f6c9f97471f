use mirage::arcball::CameraOperation;
use mirage::linalg::Vec3;
use mirage::scheduler::begin_frame;
use mirage::view::{normalized_pick, OverlayMode, Settings, ViewController};

const ONE: i64 = 65536;

fn test_view() -> ViewController {
    ViewController::new(Vec3 { x: 0, y: 0, z: 0 }, 800 * ONE, 600 * ONE)
}

#[test]
fn fresh_view_state() {
    let v = test_view();
    assert!(v.needs_redraw);
    assert_eq!(v.prev_pointer_pos, None);
    assert!(!v.rotate_scene);
    assert_eq!(v.settings, Settings::initial());
    assert_eq!(v.camera.translation, Vec3 { x: 0, y: 0, z: -2 * ONE });
}

#[test]
fn first_pointer_sample_only_records() {
    // Drag-start suppression: the first sample after idling must not move
    // the camera and must not dirty the view.
    let mut main = test_view();
    let mut reference = test_view();
    begin_frame(&mut main, &mut reference);
    assert!(!main.needs_redraw);
    let camera_before = main.camera;
    main.on_pointer_moved(CameraOperation::Rotate, 100 * ONE, 100 * ONE);
    assert_eq!(main.camera, camera_before);
    assert!(!main.needs_redraw);
    assert_eq!(main.prev_pointer_pos, Some((100 * ONE, 100 * ONE)));
}

#[test]
fn second_pointer_sample_applies_exact_delta() {
    // The second sample applies exactly the delta between sample one and
    // sample two: the same rotation as calling the camera directly.
    let mut main = test_view();
    main.on_pointer_moved(CameraOperation::Rotate, 100 * ONE, 100 * ONE);
    let mut expected = main.camera;
    expected.rotate(100 * ONE, 100 * ONE, 160 * ONE, 90 * ONE);
    main.on_pointer_moved(CameraOperation::Rotate, 160 * ONE, 90 * ONE);
    assert_eq!(main.camera, expected);
    assert!(main.needs_redraw);
    assert_eq!(main.prev_pointer_pos, Some((160 * ONE, 90 * ONE)));
}

#[test]
fn pan_sample_applies_exact_delta() {
    let mut main = test_view();
    main.on_pointer_moved(CameraOperation::Pan, 100 * ONE, 100 * ONE);
    let mut expected = main.camera;
    expected.pan(60 * ONE, -10 * ONE);
    main.on_pointer_moved(CameraOperation::Pan, 160 * ONE, 90 * ONE);
    assert_eq!(main.camera, expected);
    assert!(main.needs_redraw);
}

#[test]
fn idle_operation_moves_nothing() {
    let mut main = test_view();
    let mut reference = test_view();
    begin_frame(&mut main, &mut reference);
    main.on_pointer_moved(CameraOperation::Idle, 100 * ONE, 100 * ONE);
    let camera_before = main.camera;
    main.on_pointer_moved(CameraOperation::Idle, 120 * ONE, 100 * ONE);
    assert_eq!(main.camera, camera_before);
    assert!(!main.needs_redraw);
}

#[test]
fn drag_release_forgets_position() {
    let mut main = test_view();
    main.on_pointer_moved(CameraOperation::Rotate, 100 * ONE, 100 * ONE);
    main.on_drag_released();
    assert_eq!(main.prev_pointer_pos, None);
    // The next sample is a drag start again and must not move the camera.
    let camera_before = main.camera;
    main.on_pointer_moved(CameraOperation::Rotate, 300 * ONE, 300 * ONE);
    assert_eq!(main.camera, camera_before);
}

#[test]
fn reset_camera_is_idempotent() {
    // Resetting twice in a row yields bit-identical camera state.
    let mut v = test_view();
    v.on_pointer_moved(CameraOperation::Rotate, 100 * ONE, 100 * ONE);
    v.on_pointer_moved(CameraOperation::Rotate, 300 * ONE, 200 * ONE);
    v.on_zoom(-3 * ONE);
    v.reset_camera();
    let first = v.camera;
    v.reset_camera();
    assert_eq!(v.camera, first);
    assert!(v.needs_redraw);
}

#[test]
fn reset_restores_fresh_state() {
    let mut v = test_view();
    let fresh = v.camera;
    v.on_zoom(-3 * ONE);
    assert_ne!(v.camera, fresh);
    v.reset_camera();
    assert_eq!(v.camera, fresh);
}

#[test]
fn zoom_marks_dirty() {
    let mut main = test_view();
    let mut reference = test_view();
    begin_frame(&mut main, &mut reference);
    main.on_zoom(ONE);
    assert!(main.needs_redraw);
}

#[test]
fn settings_mutations_dirty_once_and_dispatch_once() {
    // Dirty-flag discipline: several settings writes without a frame in
    // between leave the flag simply true, the next frame issues exactly one
    // compute dispatch, and a frame without changes issues none.
    let mut main = test_view();
    let mut reference = test_view();
    begin_frame(&mut main, &mut reference);
    assert!(!main.needs_redraw);
    for delta in 1..=5i32 {
        let s = Settings {
            central_difference_delta: delta,
            ..main.settings
        };
        main.update_settings(s);
        assert!(main.needs_redraw);
    }
    let plan = begin_frame(&mut main, &mut reference);
    assert!(plan.dispatch_main);
    assert!(plan.submit);
    assert!(!main.needs_redraw);
    let plan2 = begin_frame(&mut main, &mut reference);
    assert!(!plan2.dispatch_main);
    assert!(!plan2.submit);
}

#[test]
fn camera_uniform_modes() {
    let mut v = test_view();
    let moving = v.camera_uniform();
    assert_eq!(moving.view_matrix.r0.x, ONE);
    assert_eq!(moving.view_matrix.r2.w, 0);
    assert_eq!(moving.origin.z, 2 * ONE);
    assert_eq!(moving.view_direction.z, -ONE);
    assert_eq!(moving.up.y, ONE);
    v.set_rotate_scene(true);
    let stationary = v.camera_uniform();
    assert_eq!(stationary.origin.x, 0);
    assert_eq!(stationary.origin.z, 0);
    assert_eq!(stationary.view_direction.z, -ONE);
    assert_eq!(stationary.up.y, ONE);
    // The view matrix now carries the camera's own translation.
    assert_eq!(stationary.view_matrix.r2.w, -2 * ONE);
}

#[test]
fn overlay_codes_and_names() {
    assert_eq!(OverlayMode::Disabled.code(), 0);
    assert_eq!(OverlayMode::LyapunovExponents.code(), 1);
    assert_eq!(OverlayMode::Disabled.to_string(), "Disabled");
    assert_eq!(OverlayMode::LyapunovExponents.to_string(), "Lyapunov exponents");
}

#[test]
fn normalized_pick_position() {
    let p = normalized_pick(200 * ONE, 150 * ONE, 800 * ONE, 600 * ONE);
    assert_eq!(p.0, ONE / 4);
    assert_eq!(p.1, 3 * ONE / 4);
}

#[test]
fn resize_updates_camera_and_dirties() {
    let mut v = test_view();
    v.resize(1024 * ONE, 768 * ONE);
    assert_eq!(v.camera.screen_w, 1024 * ONE);
    assert_eq!(v.camera.screen_h, 768 * ONE);
    assert!(v.needs_redraw);
}
