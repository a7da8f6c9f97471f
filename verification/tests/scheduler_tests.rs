use mirage::linalg::Vec3;
use mirage::scheduler::{begin_frame, FrameScheduler};
use mirage::view::ViewController;

const ONE: i64 = 65536;

fn test_view() -> ViewController {
    ViewController::new(Vec3 { x: 0, y: 0, z: 0 }, 800 * ONE, 600 * ONE)
}

#[test]
fn begin_frame_reads_and_clears_flags() {
    let mut main = test_view();
    let mut reference = test_view();
    // Both views start dirty: everything renders.
    let plan = begin_frame(&mut main, &mut reference);
    assert!(plan.dispatch_main);
    assert!(plan.render_reference);
    assert!(plan.submit);
    assert!(!main.needs_redraw);
    assert!(!reference.needs_redraw);
    // Only the reference view dirty: no compute dispatch, but a render.
    reference.on_zoom(ONE);
    let plan = begin_frame(&mut main, &mut reference);
    assert!(!plan.dispatch_main);
    assert!(plan.render_reference);
    assert!(plan.submit);
    // Only the main view dirty: the reference view re-renders along.
    main.on_zoom(ONE);
    let plan = begin_frame(&mut main, &mut reference);
    assert!(plan.dispatch_main);
    assert!(plan.render_reference);
    assert!(plan.submit);
}

#[test]
fn deferred_actions_apply_in_order_and_clear() {
    let mut scheduler = FrameScheduler::new();
    let mut main = test_view();
    let mut reference = test_view();
    begin_frame(&mut main, &mut reference);
    scheduler.queue_rotate_scene(true);
    scheduler.queue_field_weight(12345);
    scheduler.queue_field_function(b"return v0;".to_vec());
    let reload = scheduler.apply_deferred(&mut main);
    assert!(main.rotate_scene);
    assert_eq!(main.settings.field_weight, 12345);
    assert!(main.needs_redraw);
    assert_eq!(reload, Some(b"return v0;".to_vec()));
    assert!(scheduler.pending_rotate_scene.is_none());
    assert!(scheduler.pending_field_weight.is_none());
    assert!(scheduler.pending_field_function.is_none());
}

#[test]
fn apply_deferred_without_changes_is_inert() {
    let mut scheduler = FrameScheduler::new();
    let mut main = test_view();
    let mut reference = test_view();
    begin_frame(&mut main, &mut reference);
    let settings_before = main.settings;
    let reload = scheduler.apply_deferred(&mut main);
    assert_eq!(reload, None);
    assert!(!main.needs_redraw);
    assert_eq!(main.settings, settings_before);
    assert!(!main.rotate_scene);
}

#[test]
fn field_weight_change_rewrites_settings_wholesale() {
    let mut scheduler = FrameScheduler::new();
    let mut main = test_view();
    let overlay_before = main.settings.overlay_mode;
    scheduler.queue_field_weight(999);
    scheduler.apply_deferred(&mut main);
    assert_eq!(main.settings.field_weight, 999);
    assert_eq!(main.settings.overlay_mode, overlay_before);
}
