use deferred_camera::fixed::{fx_div, fx_mul, FX_HALF_PI, FX_ONE, FX_PI, FX_QUARTER_PI};
use deferred_camera::math::{
    clamp, clamp_rotation, gen_plane, project, tangent_space_from, OrthoBasis, Vec2, Vec3,
};
use deferred_camera::trig::{acos_fx, atan_fx, cos_fx, sin_fx};

#[test]
fn fixed_point_products_and_quotients_are_exact() {
    assert_eq!(fx_mul(2500000, 4000000), 10000000);
    assert_eq!(fx_mul(-2500000, 4000000), -10000000);
    assert_eq!(fx_div(1000000, 3000000), 333333);
    assert_eq!(fx_div(-1000000, 3000000), -333333);
}

#[test]
fn clamp_saturates_and_passes_interior_values() {
    assert_eq!(clamp(5000000, 0, 1000000), 1000000);
    assert_eq!(clamp(-1, 0, 1000000), 0);
    assert_eq!(clamp(431087, 0, 1000000), 431087);
}

#[test]
fn clamp_is_idempotent_on_sample_inputs() {
    let samples: [i64; 5] = [-7000000, -1, 0, 999999, 123456789];
    for &v in samples.iter() {
        let once = clamp(v, -2000000, 2000000);
        let twice = clamp(once, -2000000, 2000000);
        assert_eq!(once, twice);
        assert!(-2000000 <= once && once <= 2000000);
    }
}

#[test]
fn clamp_rotation_respects_bounds() {
    // Requested step overshoots the ceiling: only the room that is left.
    assert_eq!(clamp_rotation(1000000, 5000000, 0, 2000000), 1000000);
    // Requested step undershoots the floor.
    assert_eq!(clamp_rotation(1000000, -5000000, 0, 2000000), -1000000);
    // In-range step passes through unchanged.
    assert_eq!(clamp_rotation(1000000, 300000, 0, 2000000), 300000);
    // The landing point never leaves the interval.
    let deltas: [i64; 4] = [-9000000, -1, 1, 9000000];
    for &d in deltas.iter() {
        let r = clamp_rotation(700000, d, 0, 2000000);
        assert!(0 <= 700000 + r && 700000 + r <= 2000000);
    }
}

#[test]
fn norm_and_normalize_on_a_pythagorean_triple() {
    let v = Vec3::new(3000000, 4000000, 0);
    assert_eq!(v.norm(), 5000000);
    let n = v.normalized();
    assert_eq!(n, Vec3::new(600000, 800000, 0));
}

#[test]
fn projection_of_a_vector_onto_an_axis() {
    let a = Vec3::new(2000000, 2000000, 0);
    let b = Vec3::new(1000000, 0, 0);
    let p = project(a, b);
    assert_eq!(p, Vec3::new(2000000, 0, 0));
}

#[test]
fn gram_schmidt_yields_nearly_unit_nearly_orthogonal_vectors() {
    let v1 = Vec3::new(0, 0, 1000000);
    let v2 = Vec3::new(1000000, 1000000, 1000000);
    let v3 = Vec3::new(1000000, 0, 0);
    let basis = OrthoBasis::from_basis(v1, v2, v3);
    assert_eq!(basis.v1, v1);
    // Orthogonality to the fixed first vector survives the rounding exactly
    // here, and the others are orthogonal within a few raw units.
    assert_eq!(basis.v2.dot(v1), 0);
    assert!(basis.v3.dot(v1).abs() <= 10);
    assert!(basis.v3.dot(basis.v2).abs() <= 10);
    // Unit length within rounding of the truncated square root.
    assert!((basis.v2.dot(basis.v2) - FX_ONE).abs() <= 10);
    assert!((basis.v3.dot(basis.v3) - FX_ONE).abs() <= 10);
}

#[test]
fn tangent_space_of_a_square_uv_mapping() {
    let v1 = Vec3::new(0, -2000000, 0);
    let t1 = Vec2 { x: 0, y: -1000000 };
    let v2 = Vec3::new(2000000, -2000000, 0);
    let t2 = Vec2 { x: 1000000, y: -1000000 };
    let (tangent, bitangent) = tangent_space_from(v1, t1, v2, t2);
    assert_eq!(tangent, Vec3::new(2000000, 0, 0));
    assert_eq!(bitangent, Vec3::new(0, 2000000, 0));
}

#[test]
fn generated_plane_has_six_vertices_with_axis_aligned_frames() {
    let plane = gen_plane();
    assert_eq!(plane.len(), 6);
    assert_eq!(plane[0].position, Vec3::new(-1000000, 1000000, 0));
    assert_eq!(plane[2].position, Vec3::new(1000000, -1000000, 0));
    assert_eq!(plane[5].position, Vec3::new(1000000, 1000000, 0));
    for v in plane.iter() {
        assert_eq!(v.normal, Vec3::new(0, 0, 1000000));
        assert_eq!(v.tangent, Vec3::new(1000000, 0, 0));
        assert_eq!(v.bitangent, Vec3::new(0, 1000000, 0));
    }
}

#[test]
fn circular_functions_hit_their_landmarks() {
    assert_eq!(sin_fx(0), 0);
    assert!((sin_fx(FX_HALF_PI) - FX_ONE).abs() < 500);
    assert!((cos_fx(0) - FX_ONE).abs() < 500);
    assert!(cos_fx(FX_HALF_PI).abs() < 5);
    assert!(sin_fx(FX_PI).abs() < 5);
    assert_eq!(atan_fx(FX_ONE), FX_QUARTER_PI);
    assert_eq!(atan_fx(0), 0);
    assert_eq!(acos_fx(0), FX_HALF_PI);
    assert_eq!(acos_fx(FX_ONE), 0);
    assert_eq!(acos_fx(-FX_ONE), FX_PI);
    // Odd symmetry.
    assert_eq!(sin_fx(-700000), -sin_fx(700000));
    assert_eq!(atan_fx(-3000000), -atan_fx(3000000));
}
