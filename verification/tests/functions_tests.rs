use mirage::functions::PredefinedFunction;

#[test]
fn names_of_all_variants() {
    assert_eq!(PredefinedFunction::Custom.to_string(), "Custom");
    assert_eq!(PredefinedFunction::MirageSpherical.to_string(), "Mirage (spherical)");
    assert_eq!(PredefinedFunction::MiragePlane.to_string(), "Mirage (plane)");
    assert_eq!(
        PredefinedFunction::MirageSphericalSigmoid.to_string(),
        "Mirage (spherical sigmoid)"
    );
    assert_eq!(PredefinedFunction::MiragePlaneSigmoid.to_string(), "Mirage (plane sigmoid)");
    assert_eq!(PredefinedFunction::TranslationX.to_string(), "Translation (x-axis)");
    assert_eq!(PredefinedFunction::TranslationZ.to_string(), "Translation (z-axis)");
    assert_eq!(PredefinedFunction::Rotation.to_string(), "Rotation");
    assert_eq!(PredefinedFunction::LorenzAttractor.to_string(), "Lorenz attractor");
    assert_eq!(PredefinedFunction::RoesslerAttractor.to_string(), "Roessler attractor");
}

#[test]
fn custom_code_is_empty() {
    assert_eq!(PredefinedFunction::Custom.to_code(), "");
}

#[test]
fn rotation_code() {
    assert_eq!(
        PredefinedFunction::Rotation.to_code(),
        "return normalize(v0 + rotateZ(v0, PI / 2.0 * t));"
    );
}

#[test]
fn translation_codes() {
    assert_eq!(
        PredefinedFunction::TranslationX.to_code(),
        "let dx = 0.5 * t;\nlet dy = 0.0;\nlet dz = 0.0;\nreturn translate(v0, dx, dy, dz);"
    );
    assert_eq!(
        PredefinedFunction::TranslationZ.to_code(),
        "let dx = 0.0;\nlet dy = 0.0;\nlet dz = 0.5 * t;\nreturn translate(v0, dx, dy, dz);"
    );
}

#[test]
fn lorenz_code() {
    let code = PredefinedFunction::LorenzAttractor.to_code();
    assert_eq!(
        code,
        "let rho = 28.0;\nlet sigma = 10.0;\nlet beta = 8.0 / 3.0;\nreturn vec3<f32>(\n    sigma * (p.y - p.x),\n    p.x * (rho - p.z) - p.y,\n    p.x * p.y - beta * p.z,\n);"
    );
}

#[test]
fn roessler_code() {
    let code = PredefinedFunction::RoesslerAttractor.to_code();
    assert_eq!(
        code,
        "let a = 0.1;\nlet b = 0.1;\nlet c = 14.0;\nreturn vec3<f32>(\n    -p.y - p.z,\n    p.x + a * p.y,\n    b + p.z * (p.x - c),\n);"
    );
}

#[test]
fn mirage_codes_mention_their_shapes() {
    assert!(PredefinedFunction::MirageSpherical.to_code().contains("normalize(center_dest)"));
    assert!(PredefinedFunction::MiragePlane.to_code().contains("point_plane_distance"));
    assert!(PredefinedFunction::MirageSphericalSigmoid.to_code().contains("sigmoid("));
    assert!(PredefinedFunction::MiragePlaneSigmoid.to_code().contains("sigmoid("));
    assert!(PredefinedFunction::MirageSpherical.to_code().ends_with("refraction(t_in, t_out, v, normal);"));
    assert!(PredefinedFunction::MiragePlane.to_code().ends_with("refraction(t_in, t_out, v, plane_n);"));
}
