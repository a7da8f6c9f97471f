use mirage::linalg::Vec3;
use mirage::shader::{replace_first, with_field_function, CompileError, ShaderReloadCoordinator};
use mirage::view::ViewController;

const ONE: i64 = 65536;

const PLACEHOLDER: &str = "fn field_function(p_prev: vec3<f32>, p: vec3<f32>, v0: vec3<f32>, v: vec3<f32>, t: f32) -> vec3<f32> { return v; }";

fn test_view() -> ViewController {
    ViewController::new(Vec3 { x: 0, y: 0, z: 0 }, 800 * ONE, 600 * ONE)
}

#[test]
fn substitution_replaces_placeholder() {
    let template = format!("// head\n{}\n// tail", PLACEHOLDER);
    let body = "return v0;";
    let out = with_field_function(&template.as_bytes().to_vec(), &body.as_bytes().to_vec());
    let expected = format!(
        "// head\nfn field_function(p_prev: vec3<f32>, p: vec3<f32>, v0: vec3<f32>, v: vec3<f32>, t: f32) -> vec3<f32> {{\n{}\n}}\n// tail",
        body
    );
    assert_eq!(out, expected.as_bytes().to_vec());
}

#[test]
fn substitution_replaces_first_occurrence_only() {
    let template = format!("{}\n{}", PLACEHOLDER, PLACEHOLDER);
    let out = with_field_function(&template.as_bytes().to_vec(), &b"x".to_vec());
    let expected = format!(
        "fn field_function(p_prev: vec3<f32>, p: vec3<f32>, v0: vec3<f32>, v: vec3<f32>, t: f32) -> vec3<f32> {{\nx\n}}\n{}",
        PLACEHOLDER
    );
    assert_eq!(out, expected.as_bytes().to_vec());
}

#[test]
fn substitution_without_placeholder_is_identity() {
    let template = b"// no placeholder here".to_vec();
    let out = with_field_function(&template, &b"return v0;".to_vec());
    assert_eq!(out, template);
}

#[test]
fn empty_body_still_wrapped() {
    let template = PLACEHOLDER.as_bytes().to_vec();
    let out = with_field_function(&template, &Vec::new());
    let expected = "fn field_function(p_prev: vec3<f32>, p: vec3<f32>, v0: vec3<f32>, v: vec3<f32>, t: f32) -> vec3<f32> {\n\n}";
    assert_eq!(out, expected.as_bytes().to_vec());
}

#[test]
fn failed_reload_keeps_pipeline_and_source() {
    // Shader reload atomicity: after a failed compile the pipeline handle
    // and the stored source are exactly the ones from before, and the
    // diagnostic is recorded.
    let template = format!("{}\n", PLACEHOLDER).as_bytes().to_vec();
    let mut coordinator: ShaderReloadCoordinator<u32> =
        ShaderReloadCoordinator::new(template.clone(), 7);
    let mut main = test_view();
    let bad = b"this does not compile".to_vec();
    let src = coordinator.source_for_reload(Some(&bad), &b"oops".to_vec());
    assert_eq!(src, bad);
    let ok = coordinator.apply_outcome(
        &mut main,
        Some(bad),
        Err(CompileError { message: "unknown identifier".to_string() }),
    );
    assert!(!ok);
    assert_eq!(coordinator.pipeline, 7);
    assert_eq!(coordinator.shader_src, template);
    assert_eq!(
        coordinator.last_error.as_ref().map(|e| e.message.as_str()),
        Some("unknown identifier")
    );
}

#[test]
fn successful_reload_swaps_pipeline_and_dirties() {
    let template = format!("{}\n", PLACEHOLDER).as_bytes().to_vec();
    let new_template = format!("// v2\n{}\n", PLACEHOLDER).as_bytes().to_vec();
    let mut coordinator: ShaderReloadCoordinator<u32> =
        ShaderReloadCoordinator::new(template, 7);
    let mut main = test_view();
    let mut reference = test_view();
    mirage::scheduler::begin_frame(&mut main, &mut reference);
    assert!(!main.needs_redraw);
    let ok = coordinator.apply_outcome(&mut main, Some(new_template.clone()), Ok(9));
    assert!(ok);
    assert_eq!(coordinator.pipeline, 9);
    assert_eq!(coordinator.shader_src, new_template);
    assert!(coordinator.last_error.is_none());
    assert!(main.needs_redraw);
}

#[test]
fn successful_reload_without_new_template_keeps_source() {
    let template = format!("{}\n", PLACEHOLDER).as_bytes().to_vec();
    let mut coordinator: ShaderReloadCoordinator<u32> =
        ShaderReloadCoordinator::new(template.clone(), 7);
    let mut main = test_view();
    let src = coordinator.source_for_reload(None, &b"return v0;".to_vec());
    assert!(src.starts_with(b"fn field_function"));
    let ok = coordinator.apply_outcome(&mut main, None, Ok(8));
    assert!(ok);
    assert_eq!(coordinator.pipeline, 8);
    assert_eq!(coordinator.shader_src, template);
}

#[test]
fn variant_source_for_high_accuracy() {
    // The temporary high-accuracy render swaps one constant in the stored
    // template without touching it.
    let template = b"let h_initial = 0.1;\nrest".to_vec();
    let coordinator: ShaderReloadCoordinator<u32> =
        ShaderReloadCoordinator::new(template.clone(), 1);
    let variant = coordinator.variant_source(
        &b"let h_initial = 0.1;".to_vec(),
        &b"let h_initial = 0.001;".to_vec(),
    );
    assert_eq!(variant, b"let h_initial = 0.001;\nrest".to_vec());
    assert_eq!(coordinator.shader_src, template);
}

#[test]
fn replace_first_basics() {
    assert_eq!(
        replace_first(&b"abcabc".to_vec(), &b"bc".to_vec(), &b"X".to_vec()),
        b"aXabc".to_vec()
    );
    assert_eq!(
        replace_first(&b"abc".to_vec(), &b"zz".to_vec(), &b"X".to_vec()),
        b"abc".to_vec()
    );
    assert_eq!(
        replace_first(&b"abc".to_vec(), &b"abc".to_vec(), &b"".to_vec()),
        b"".to_vec()
    );
}
