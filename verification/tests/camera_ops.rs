use deferred_camera::camera::{PCamera, Projection, V_ANGLE_MAX, V_ANGLE_MIN};
use deferred_camera::fixed::{FX_HALF_PI, FX_ONE};
use deferred_camera::math::Vec3;
use nalgebra::{Matrix4, Orthographic3, Point3, Vector3};

fn sample_camera() -> PCamera {
    PCamera::new(
        Vec3::new(0, 0, 5000000),
        Vec3::new(0, 0, 0),
        Vec3::new(0, 1000000, 0),
        Projection::ortho(-1000000, 1000000, 1000000, -1000000, 0, 1000000),
    )
    .unwrap()
}

#[test]
fn construction_measures_the_initial_tilt() {
    let cam = sample_camera();
    // Forward is horizontal, up is vertical: a quarter turn exactly.
    assert_eq!(cam.vertical_angle, FX_HALF_PI);
    assert_eq!(cam.up, Vec3::new(0, 1000000, 0));
}

#[test]
fn construction_rejects_degenerate_geometry() {
    let p = Vec3::new(1000000, 2000000, 3000000);
    let up = Vec3::new(0, 1000000, 0);
    let proj = Projection::ortho(-1000000, 1000000, 1000000, -1000000, 0, 1000000);
    // A zero forward vector.
    assert!(PCamera::new(p, p, up, proj).is_none());
    // A zero up vector.
    assert!(PCamera::new(p, Vec3::new(0, 0, 0), Vec3::new(0, 0, 0), proj).is_none());
    // Forward collinear with up: tilt of exactly zero.
    assert!(PCamera::new(
        Vec3::new(0, 0, 0),
        Vec3::new(0, 3000000, 0),
        Vec3::new(0, 1000000, 0),
        proj
    )
    .is_none());
}

#[test]
fn moving_forward_translates_both_points_equally() {
    let mut cam = sample_camera();
    cam.move_forward(5000000);
    assert_eq!(cam.position, Vec3::new(0, 0, 0));
    assert_eq!(cam.look_at, Vec3::new(0, 0, -5000000));
}

#[test]
fn horizontal_look_rotation_spins_the_target_only() {
    let mut cam = sample_camera();
    let va = cam.vertical_angle;
    cam.rotate_view_horizontal(FX_HALF_PI);
    assert_eq!(cam.position, Vec3::new(0, 0, 5000000));
    assert_eq!(cam.vertical_angle, va);
    // The target swings a quarter turn to the left about the up axis.
    assert!((cam.look_at.x + 5000000).abs() < 2000);
    assert!(cam.look_at.y.abs() < 2000);
    assert!((cam.look_at.z - 5000000).abs() < 2000);
}

#[test]
fn vertical_look_rotation_saturates_not_oscillates() {
    let mut cam = sample_camera();
    for _ in 0..10 {
        cam.rotate_view_vertical(-3000000);
        assert!(V_ANGLE_MIN <= cam.vertical_angle && cam.vertical_angle <= V_ANGLE_MAX);
    }
    assert_eq!(cam.vertical_angle, V_ANGLE_MAX);
    let mut cam2 = sample_camera();
    for _ in 0..10 {
        cam2.rotate_view_vertical(3000000);
        assert!(V_ANGLE_MIN <= cam2.vertical_angle && cam2.vertical_angle <= V_ANGLE_MAX);
    }
    assert_eq!(cam2.vertical_angle, V_ANGLE_MIN);
}

#[test]
fn orbiting_keeps_the_target_fixed() {
    let mut cam = sample_camera();
    cam.rotate_around_look_horizontal(FX_HALF_PI);
    assert_eq!(cam.look_at, Vec3::new(0, 0, 0));
    assert!((cam.position.x - 5000000).abs() < 2000);
    assert!((cam.position.z).abs() < 2000);
}

#[test]
fn orbit_distance_delegates_through_the_radius() {
    let mut cam = sample_camera();
    // The orbit radius is five units, so an arc of five units is one radian.
    cam.pos_around_look_with_dis(5000000);
    assert_eq!(cam.look_at, Vec3::new(0, 0, 0));
    let r2 = (cam.position.x as f64).hypot(cam.position.z as f64);
    assert!((r2 - 5000000.0).abs() < 3000.0);
}

#[test]
fn panning_and_strafing_touch_the_advertised_fields() {
    let mut cam = sample_camera();
    cam.move_unlocked(&Vec3::new(1000000, 2000000, 3000000));
    assert_eq!(cam.position, Vec3::new(1000000, 2000000, 8000000));
    assert_eq!(cam.look_at, Vec3::new(1000000, 2000000, 3000000));
    cam.move_locked(&Vec3::new(-1000000, 0, 0));
    assert_eq!(cam.position, Vec3::new(0, 2000000, 8000000));
    assert_eq!(cam.look_at, Vec3::new(1000000, 2000000, 3000000));
    cam.set_relative_look(&Vec3::new(0, 0, -1000000));
    assert_eq!(cam.look_at, Vec3::new(0, 2000000, 7000000));
}

#[test]
fn moving_up_follows_the_up_axis() {
    let mut cam = sample_camera();
    cam.move_up(2000000);
    assert_eq!(cam.position, Vec3::new(0, 2000000, 5000000));
    assert_eq!(cam.look_at, Vec3::new(0, 2000000, 0));
}

#[test]
fn orthographic_resize_keeps_the_vertical_framing() {
    let mut p = Projection::ortho(-1000000, 1000000, 1000000, -1000000, 0, 1000000);
    p.set_aspect(2000000);
    assert_eq!(
        p,
        Projection::ortho(-2000000, 2000000, 1000000, -1000000, 0, 1000000)
    );
    assert_eq!(p.aspect_ratio(), 2000000);
}

#[test]
fn the_identity_like_view_centres_the_origin() {
    let cam = PCamera::new(
        Vec3::new(0, 0, 0),
        Vec3::new(0, 0, -1000000),
        Vec3::new(0, 1000000, 0),
        Projection::ortho(-1000000, 1000000, 1000000, -1000000, 0, 1000000),
    )
    .unwrap();
    let vm = cam.view_matrix();
    let img = vm.transform_point(Vec3::new(0, 0, 0));
    assert_eq!(img.x, 0);
    assert_eq!(img.y, 0);
    assert_eq!(img.w, FX_ONE);
}

#[test]
fn orthographic_matrix_and_inverse_have_the_closed_form() {
    let p = Projection::ortho(-1000000, 1000000, 1000000, -1000000, 0, 1000000);
    let m = p.as_matrix();
    assert_eq!(m.m00, 1000000);
    assert_eq!(m.m11, 1000000);
    assert_eq!(m.m22, -2000000);
    assert_eq!(m.m23, -1000000);
    assert_eq!(m.m33, 1000000);
    let inv = p.inverse_as_matrix();
    assert_eq!(inv.m00, 1000000);
    assert_eq!(inv.m22, -500000);
    assert_eq!(inv.m23, -500000);
    assert_eq!(inv.m33, 1000000);
}

#[test]
fn perspective_matrix_has_the_standard_shape() {
    let p = Projection::persp(1000000, FX_HALF_PI, 100000, 100000000);
    assert_eq!(p.znear(), 100000);
    assert_eq!(p.zfar(), 100000000);
    let m = p.as_matrix();
    // cot(pi/4) is one within series rounding.
    assert!((m.m11 - FX_ONE).abs() < 5000);
    assert_eq!(m.m00, m.m11);
    assert_eq!(m.m32, -1000000);
    assert_eq!(m.m33, 0);
    assert!(m.m22 < 0);
}

#[test]
fn zoomed_orthographic_matrix_scales_about_the_origin() {
    let p = Projection::ortho(-1000000, 1000000, 1000000, -1000000, 0, 1000000);
    // A zoom factor of four halves to two: the box doubles each way.
    let m = p.zoomed_matrix(4000000);
    assert_eq!(m.m00, 500000);
    assert_eq!(m.m11, 500000);
    // The stored projection is untouched.
    assert_eq!(
        p,
        Projection::ortho(-1000000, 1000000, 1000000, -1000000, 0, 1000000)
    );
}

#[test]
fn conversions_between_the_families_are_lossy_but_stable() {
    let ortho = Projection::ortho(-1000000, 1000000, 1000000, -1000000, 100000, 2000000);
    let persp = ortho.to_perspective();
    match persp {
        Projection::Perspective { aspect, fovy, znear, zfar } => {
            assert_eq!(aspect, 1000000);
            assert_eq!(znear, 100000);
            assert_eq!(zfar, 2000000);
            assert!(fovy > 0);
        },
        _ => panic!("widening must land in the perspective family"),
    }
    // The round trip is not the identity: the asymmetry is intentional.
    let back = persp.to_orthographic();
    match back {
        Projection::Orthographic { left, right, .. } => {
            assert!(left < 0 && right > 0);
            assert!((left, right) != (-1000000, 1000000));
        },
        _ => panic!("flattening must land in the orthographic family"),
    }
}

#[test]
fn aspect_from_pixel_dimensions() {
    let mut cam = sample_camera();
    cam.set_aspect_from_dims((800, 600));
    match cam.projection {
        Projection::Orthographic { left, right, top, bottom, .. } => {
            // 800/600 widens the unit-height box to 4/3.
            assert_eq!(top, 1000000);
            assert_eq!(bottom, -1000000);
            assert_eq!(right, 1333333);
            assert_eq!(left, -1333333);
        },
        _ => panic!("the sample camera is orthographic"),
    }
}

#[test]
fn view_matrix_agrees_with_a_float_reference() {
    let cam = sample_camera();
    let vm = cam.view_matrix();
    let ours = [
        [vm.m00, vm.m01, vm.m02, vm.m03],
        [vm.m10, vm.m11, vm.m12, vm.m13],
        [vm.m20, vm.m21, vm.m22, vm.m23],
        [vm.m30, vm.m31, vm.m32, vm.m33],
    ];
    let proj = Orthographic3::new(-1.0f64, 1.0, -1.0, 1.0, 0.0, 1.0).to_homogeneous();
    let look = Matrix4::look_at_rh(
        &Point3::new(0.0f64, 0.0, 5.0),
        &Point3::new(0.0, 0.0, 0.0),
        &Vector3::new(0.0, 1.0, 0.0),
    );
    let reference = proj * look;
    for r in 0..4 {
        for c in 0..4 {
            let fixed = ours[r][c] as f64 / 1.0e6;
            assert!(
                (fixed - reference[(r, c)]).abs() < 1.0e-3,
                "entry ({}, {}): {} vs {}",
                r,
                c,
                fixed,
                reference[(r, c)]
            );
        }
    }
}

#[test]
fn the_derived_frame_vectors_are_axis_aligned_here() {
    let cam = sample_camera();
    assert_eq!(cam.forward_vec(), Vec3::new(0, 0, -1000000));
    assert_eq!(cam.right_vec(), Vec3::new(1000000, 0, 0));
    assert_eq!(cam.forward_ortho_vec(), Vec3::new(0, 0, -1000000));
}

#[test]
fn strafing_moves_along_the_right_vector() {
    let mut cam = sample_camera();
    cam.move_sideways(2000000);
    assert_eq!(cam.position, Vec3::new(2000000, 0, 5000000));
    assert_eq!(cam.look_at, Vec3::new(2000000, 0, 0));
}

#[test]
fn relative_vertical_motion_ignores_pitch() {
    let mut cam = sample_camera();
    cam.move_up_relative(3000000);
    assert_eq!(cam.position, Vec3::new(0, 3000000, 5000000));
    assert_eq!(cam.look_at, Vec3::new(0, 3000000, 0));
    let mut cam2 = sample_camera();
    cam2.move_forward_ortho_up(5000000);
    assert_eq!(cam2.position, Vec3::new(0, 0, 0));
}

#[test]
fn orbit_tilt_clamps_and_keeps_the_target() {
    let mut cam = sample_camera();
    let va = cam.vertical_angle;
    cam.rotate_around_look_vertical(400000);
    assert_eq!(cam.vertical_angle, va + 400000);
    assert_eq!(cam.look_at, Vec3::new(0, 0, 0));
    // Saturates at the ceiling under repeated large requests.
    for _ in 0..8 {
        cam.rotate_around_look_vertical(3000000);
    }
    assert_eq!(cam.vertical_angle, V_ANGLE_MAX);
}

#[test]
fn zoomed_perspective_rescales_the_tangent() {
    let p = Projection::persp(1000000, FX_HALF_PI, 100000, 100000000);
    // A unit zoom reproduces the stored field of view within rounding.
    let m = p.zoomed_matrix(1000000);
    let base = p.as_matrix();
    assert!((m.m11 - base.m11).abs() < 5000);
    // Depth terms do not depend on the zoom.
    assert_eq!(m.m22, base.m22);
    assert_eq!(m.m23, base.m23);
}
