//! The orthographic view-projection in fixed point.

use sprite_engine::camera::{Camera, CameraController, CameraUniform};
use sprite_engine::math::{Vec3, FP_ONE, FP_ONE_SQ};

fn test_camera() -> Camera {
    Camera {
        aspect: 2 * FP_ONE,
        position: Vec3 { x: 0, y: 0, z: 5 * FP_ONE },
        scale: 4 * FP_ONE,
        znear: 0,
        zfar: 100 * FP_ONE,
    }
}

#[test]
fn view_projection_of_centered_camera() {
    let m = test_camera().build_view_projection_matrix();
    // 1 / (scale * aspect) = 1/8 at matrix scale.
    assert_eq!(m.c0.x, FP_ONE_SQ / 8);
    assert_eq!(m.c0.y, 0);
    // 1 / scale = 1/4.
    assert_eq!(m.c1.y, FP_ONE_SQ / 4);
    // -1 / (zfar - znear), truncated toward zero.
    assert_eq!(m.c2.z, -42949672);
    // Eye over the origin: no x/y translation; depth translation maps
    // the eye distance into [0, 1].
    assert_eq!(m.c3.x, 0);
    assert_eq!(m.c3.y, 0);
    assert_eq!(m.c3.z, 214748364);
    assert_eq!(m.c3.w, FP_ONE_SQ);
}

#[test]
fn view_projection_translates_opposite_the_eye() {
    let mut c = test_camera();
    c.position.x = 8 * FP_ONE;
    c.position.y = -4 * FP_ONE;
    let m = c.build_view_projection_matrix();
    // x translation: -(8 / 8) = -1; y translation: 4 / 4 = 1.
    assert_eq!(m.c3.x, -FP_ONE_SQ);
    assert_eq!(m.c3.y, FP_ONE_SQ);
}

#[test]
fn uniform_updates_whole() {
    let mut u = CameraUniform::new();
    assert_eq!(u.view_proj.c0.x, FP_ONE_SQ);
    u.update_view_proj(&test_camera());
    assert_eq!(u.view_proj.c0.x, FP_ONE_SQ / 8);
    u.update_view_proj(&test_camera());
    assert_eq!(u.view_proj.c0.x, FP_ONE_SQ / 8);
}

#[test]
fn camera_resize_sets_aspect_from_pixels() {
    let mut c = test_camera();
    c.resize(800, 600);
    assert_eq!(c.aspect, 800 * FP_ONE / 600);
    assert_eq!(c.scale, 4 * FP_ONE);
}

#[test]
fn controller_centers_camera_on_target() {
    let mut c = test_camera();
    let ctl = CameraController {};
    ctl.update_camera(&mut c, Vec3 { x: 7 * FP_ONE, y: -FP_ONE, z: 0 });
    assert_eq!(c.position.x, 7 * FP_ONE);
    assert_eq!(c.position.y, -FP_ONE);
    assert_eq!(c.position.z, 5 * FP_ONE);
}
