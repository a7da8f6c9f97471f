//! The predefined deflection-field functions: a closed set of variants, each
//! carrying its display name and its shader-language function body as plain
//! data.

use vstd::prelude::*;
use vstd::string::StringExecFns;

verus! {

/// The selectable deflection-field functions; `Custom` stands for a
/// user-edited body.
#[derive(Clone, Copy, PartialEq, Eq, Structural, Debug)]
pub enum PredefinedFunction {
    Custom,
    MirageSpherical,
    MiragePlane,
    MirageSphericalSigmoid,
    MiragePlaneSigmoid,
    TranslationX,
    TranslationZ,
    Rotation,
    LorenzAttractor,
    RoesslerAttractor,
}

/// The display name of each variant.
pub open spec fn spec_name(f: PredefinedFunction) -> Seq<char> {
    match f {
        PredefinedFunction::Custom => "Custom"@,
        PredefinedFunction::MirageSpherical => "Mirage (spherical)"@,
        PredefinedFunction::MiragePlane => "Mirage (plane)"@,
        PredefinedFunction::MirageSphericalSigmoid => "Mirage (spherical sigmoid)"@,
        PredefinedFunction::MiragePlaneSigmoid => "Mirage (plane sigmoid)"@,
        PredefinedFunction::TranslationX => "Translation (x-axis)"@,
        PredefinedFunction::TranslationZ => "Translation (z-axis)"@,
        PredefinedFunction::Rotation => "Rotation"@,
        PredefinedFunction::LorenzAttractor => "Lorenz attractor"@,
        PredefinedFunction::RoesslerAttractor => "Roessler attractor"@,
    }
}

/// The shader-language body of each variant; `Custom` carries none.
pub open spec fn spec_code(f: PredefinedFunction) -> Seq<char> {
    match f {
        PredefinedFunction::Custom => ""@,
        PredefinedFunction::MirageSpherical => "let t_env = 15.0; // deg C
let t_src = 100.0; // deg C
let max_dist = 0.25;
let center = vec3<f32>(-0.5, 0.5, -0.5);

let center_dest = p - center;
let normal = normalize(center_dest);
let dist_in = length(p_prev - center);
let dist_out = length(center_dest);
let part_in = clamp(0.0, 1.0, dist_in / max_dist);
let part_out = clamp(0.0, 1.0, dist_out / max_dist);
let t_in = part_in * t_env + (1.0 - part_in) * t_src;
let t_out = part_out * t_env + (1.0 - part_out) * t_src;

return refraction(t_in, t_out, v, normal);"@,
        PredefinedFunction::MiragePlane => "let t_env = 15.0; // deg C
let t_src = 30.0; // deg C
let max_dist = 0.01;
let plane_p0 = vec3<f32>(0.0, 0.1, 0.0);
let plane_n = vec3<f32>(0.0, 1.0, 0.0);

let dist_in = point_plane_distance(p_prev, plane_n, plane_p0);
let dist_out = point_plane_distance(p, plane_n, plane_p0);
let part_in = clamp(0.0, 1.0, dist_in / max_dist);
let part_out = clamp(0.0, 1.0, dist_out / max_dist);
let t_in = part_in * t_env + (1.0 - part_in) * t_src;
let t_out = part_out * t_env + (1.0 - part_out) * t_src;

return refraction(t_in, t_out, v, plane_n);"@,
        PredefinedFunction::MirageSphericalSigmoid => "let t_env = 15.0; // deg C
let t_src = 100.0; // deg C
let max_dist = 0.25;
let center = vec3<f32>(-0.5, 0.5, -0.5);

let center_dest = p - center;
let normal = normalize(center_dest);
let dist_in = length(p_prev - center);
let dist_out = length(center_dest);
let part_in = clamp(0.0, 1.0, sigmoid(dist_in / max_dist * 12.0 - 6.0));
let part_out = clamp(0.0, 1.0, sigmoid(dist_out / max_dist * 12.0 - 6.0));
let t_in = part_in * t_env + (1.0 - part_in) * t_src;
let t_out = part_out * t_env + (1.0 - part_out) * t_src;

return refraction(t_in, t_out, v, normal);"@,
        PredefinedFunction::MiragePlaneSigmoid => "let t_env = 15.0; // deg C
let t_src = 30.0; // deg C
let max_dist = 0.01;
let plane_p0 = vec3<f32>(0.0, 0.1, 0.0);
let plane_n = vec3<f32>(0.0, 1.0, 0.0);

let dist_in = point_plane_distance(p_prev, plane_n, plane_p0);
let dist_out = point_plane_distance(p, plane_n, plane_p0);
let part_in = clamp(0.0, 1.0, sigmoid(dist_in / max_dist * 12.0 - 6.0));
let part_out = clamp(0.0, 1.0, sigmoid(dist_out / max_dist * 12.0 - 6.0));
let t_in = part_in * t_env + (1.0 - part_in) * t_src;
let t_out = part_out * t_env + (1.0 - part_out) * t_src;

return refraction(t_in, t_out, v, plane_n);"@,
        PredefinedFunction::TranslationX => "let dx = 0.5 * t;
let dy = 0.0;
let dz = 0.0;
return translate(v0, dx, dy, dz);"@,
        PredefinedFunction::TranslationZ => "let dx = 0.0;
let dy = 0.0;
let dz = 0.5 * t;
return translate(v0, dx, dy, dz);"@,
        PredefinedFunction::Rotation => "return normalize(v0 + rotateZ(v0, PI / 2.0 * t));"@,
        PredefinedFunction::LorenzAttractor => "let rho = 28.0;
let sigma = 10.0;
let beta = 8.0 / 3.0;
return vec3<f32>(
    sigma * (p.y - p.x),
    p.x * (rho - p.z) - p.y,
    p.x * p.y - beta * p.z,
);"@,
        PredefinedFunction::RoesslerAttractor => "let a = 0.1;
let b = 0.1;
let c = 14.0;
return vec3<f32>(
    -p.y - p.z,
    p.x + a * p.y,
    b + p.z * (p.x - c),
);"@,
    }
}

impl PredefinedFunction {
    /// The display name of the function.
    pub fn to_string(&self) -> (s: String)
        ensures
            s@ == spec_name(*self),
    {
        match self {
            PredefinedFunction::Custom => String::from_str("Custom"),
            PredefinedFunction::MirageSpherical => String::from_str("Mirage (spherical)"),
            PredefinedFunction::MiragePlane => String::from_str("Mirage (plane)"),
            PredefinedFunction::MirageSphericalSigmoid => String::from_str(
                "Mirage (spherical sigmoid)",
            ),
            PredefinedFunction::MiragePlaneSigmoid => String::from_str("Mirage (plane sigmoid)"),
            PredefinedFunction::TranslationX => String::from_str("Translation (x-axis)"),
            PredefinedFunction::TranslationZ => String::from_str("Translation (z-axis)"),
            PredefinedFunction::Rotation => String::from_str("Rotation"),
            PredefinedFunction::LorenzAttractor => String::from_str("Lorenz attractor"),
            PredefinedFunction::RoesslerAttractor => String::from_str("Roessler attractor"),
        }
    }

    /// The shader-language body of the function.
    pub fn to_code(&self) -> (s: String)
        ensures
            s@ == spec_code(*self),
    {
        match self {
            PredefinedFunction::Custom => String::from_str(""),
            PredefinedFunction::MirageSpherical => String::from_str(
                "let t_env = 15.0; // deg C
let t_src = 100.0; // deg C
let max_dist = 0.25;
let center = vec3<f32>(-0.5, 0.5, -0.5);

let center_dest = p - center;
let normal = normalize(center_dest);
let dist_in = length(p_prev - center);
let dist_out = length(center_dest);
let part_in = clamp(0.0, 1.0, dist_in / max_dist);
let part_out = clamp(0.0, 1.0, dist_out / max_dist);
let t_in = part_in * t_env + (1.0 - part_in) * t_src;
let t_out = part_out * t_env + (1.0 - part_out) * t_src;

return refraction(t_in, t_out, v, normal);",
            ),
            PredefinedFunction::MiragePlane => String::from_str(
                "let t_env = 15.0; // deg C
let t_src = 30.0; // deg C
let max_dist = 0.01;
let plane_p0 = vec3<f32>(0.0, 0.1, 0.0);
let plane_n = vec3<f32>(0.0, 1.0, 0.0);

let dist_in = point_plane_distance(p_prev, plane_n, plane_p0);
let dist_out = point_plane_distance(p, plane_n, plane_p0);
let part_in = clamp(0.0, 1.0, dist_in / max_dist);
let part_out = clamp(0.0, 1.0, dist_out / max_dist);
let t_in = part_in * t_env + (1.0 - part_in) * t_src;
let t_out = part_out * t_env + (1.0 - part_out) * t_src;

return refraction(t_in, t_out, v, plane_n);",
            ),
            PredefinedFunction::MirageSphericalSigmoid => String::from_str(
                "let t_env = 15.0; // deg C
let t_src = 100.0; // deg C
let max_dist = 0.25;
let center = vec3<f32>(-0.5, 0.5, -0.5);

let center_dest = p - center;
let normal = normalize(center_dest);
let dist_in = length(p_prev - center);
let dist_out = length(center_dest);
let part_in = clamp(0.0, 1.0, sigmoid(dist_in / max_dist * 12.0 - 6.0));
let part_out = clamp(0.0, 1.0, sigmoid(dist_out / max_dist * 12.0 - 6.0));
let t_in = part_in * t_env + (1.0 - part_in) * t_src;
let t_out = part_out * t_env + (1.0 - part_out) * t_src;

return refraction(t_in, t_out, v, normal);",
            ),
            PredefinedFunction::MiragePlaneSigmoid => String::from_str(
                "let t_env = 15.0; // deg C
let t_src = 30.0; // deg C
let max_dist = 0.01;
let plane_p0 = vec3<f32>(0.0, 0.1, 0.0);
let plane_n = vec3<f32>(0.0, 1.0, 0.0);

let dist_in = point_plane_distance(p_prev, plane_n, plane_p0);
let dist_out = point_plane_distance(p, plane_n, plane_p0);
let part_in = clamp(0.0, 1.0, sigmoid(dist_in / max_dist * 12.0 - 6.0));
let part_out = clamp(0.0, 1.0, sigmoid(dist_out / max_dist * 12.0 - 6.0));
let t_in = part_in * t_env + (1.0 - part_in) * t_src;
let t_out = part_out * t_env + (1.0 - part_out) * t_src;

return refraction(t_in, t_out, v, plane_n);",
            ),
            PredefinedFunction::TranslationX => String::from_str(
                "let dx = 0.5 * t;
let dy = 0.0;
let dz = 0.0;
return translate(v0, dx, dy, dz);",
            ),
            PredefinedFunction::TranslationZ => String::from_str(
                "let dx = 0.0;
let dy = 0.0;
let dz = 0.5 * t;
return translate(v0, dx, dy, dz);",
            ),
            PredefinedFunction::Rotation => String::from_str(
                "return normalize(v0 + rotateZ(v0, PI / 2.0 * t));",
            ),
            PredefinedFunction::LorenzAttractor => String::from_str(
                "let rho = 28.0;
let sigma = 10.0;
let beta = 8.0 / 3.0;
return vec3<f32>(
    sigma * (p.y - p.x),
    p.x * (rho - p.z) - p.y,
    p.x * p.y - beta * p.z,
);",
            ),
            PredefinedFunction::RoesslerAttractor => String::from_str(
                "let a = 0.1;
let b = 0.1;
let c = 14.0;
return vec3<f32>(
    -p.y - p.z,
    p.x + a * p.y,
    b + p.z * (p.x - c),
);",
            ),
        }
    }
}

} // verus!
