//! Geometry tests: boxes, rays, the fixed-point kernel and the camera.

use cloudscape::bounding_box::BoundingBox;
use cloudscape::camera::{pixel_screen, Camera};
use cloudscape::fixed::{
    fx_clamp, fx_div_floor, fx_exp_neg, fx_lerp, fx_mul, int_sqrt, COORD_LIMIT, FX_ONE,
    HALF_PI_FX,
};
use cloudscape::vec3::Vec3;

/// One world unit in fixed point, from a float for readability.
fn fx(v: f64) -> i64 {
    (v * 1_000_000.0).round() as i64
}

fn v3(x: f64, y: f64, z: f64) -> Vec3 {
    Vec3 { x: fx(x), y: fx(y), z: fx(z) }
}

#[test]
fn test_bb() {
    let bb = BoundingBox::from_two_pos(v3(-1.0, 1.0, -1.0), v3(1.0, 1.5, 1.0));
    let (dst_to_box, dst_inside_box) = bb.dst(v3(5.0, 1.25, 0.0), v3(-1.0, 0.0, 0.0));
    assert_eq!((fx(4.0), fx(2.0)), (dst_to_box, dst_inside_box));
}

#[test]
fn test_bb_contains() {
    let bb = BoundingBox::from_two_pos(v3(-1.0, 1.0, -1.0), v3(1.0, 1.5, 1.0));

    let c = bb.center();
    assert!(bb.contains(c));
    assert!(bb.contains(v3(0.0, 1.25, 0.0)));
    assert!(bb.contains(v3(-0.5, 1.25, 0.5)));
    assert!(bb.contains(v3(0.5, 1.25, -0.5)));

    assert!(!bb.contains(v3(1.1, 1.25, 0.0)));
    assert!(!bb.contains(v3(0.0, 1.6, 0.0)));
    assert!(!bb.contains(v3(0.0, 1.25, 1.1)));
    assert!(!bb.contains(v3(-2.0, 1.25, 0.0)));
}

#[test]
fn bb_from_two_pos_is_symmetric() {
    let a = v3(3.0, -2.0, 7.5);
    let b = v3(-1.0, 4.0, 0.25);
    assert_eq!(BoundingBox::from_two_pos(a, b), BoundingBox::from_two_pos(b, a));
}

#[test]
fn bb_ray_from_inside_starts_at_zero() {
    let bb = BoundingBox::from_two_pos(v3(-1.0, -1.0, -1.0), v3(1.0, 1.0, 1.0));
    let (to_box, inside) = bb.dst(v3(0.0, 0.0, 0.0), v3(0.0, 1.0, 0.0));
    assert_eq!(to_box, 0);
    assert!(inside > 0);
}

#[test]
fn bb_ray_miss_has_zero_inside_distance() {
    let bb = BoundingBox::from_two_pos(v3(-1.0, -1.0, -1.0), v3(1.0, 1.0, 1.0));
    let (_, inside) = bb.dst(v3(5.0, 5.0, 5.0), v3(1.0, 0.0, 0.0));
    assert_eq!(inside, 0);
}

#[test]
fn bb_corners_and_edges_have_the_fixed_order() {
    let bb = BoundingBox::from_two_pos(v3(0.0, 0.0, 0.0), v3(1.0, 2.0, 3.0));
    let corners = bb.corners();
    assert_eq!(corners[0], v3(0.0, 0.0, 0.0));
    assert_eq!(corners[1], v3(1.0, 0.0, 0.0));
    assert_eq!(corners[2], v3(0.0, 0.0, 3.0));
    assert_eq!(corners[3], v3(1.0, 2.0, 0.0));
    assert_eq!(corners[4], v3(0.0, 2.0, 0.0));
    assert_eq!(corners[5], v3(1.0, 0.0, 3.0));
    assert_eq!(corners[6], v3(0.0, 2.0, 3.0));
    assert_eq!(corners[7], v3(1.0, 2.0, 3.0));
    let edges = bb.edges();
    assert_eq!(edges[0], (0, 1));
    assert_eq!(edges[11], (5, 7));
    assert_eq!(edges.len(), 12);
}

#[test]
fn bb_move_center_translates_both_corners() {
    let mut bb = BoundingBox::from_two_pos(v3(-1.0, -1.0, -1.0), v3(1.0, 1.0, 1.0));
    bb.move_center(v3(10.0, 0.0, 0.0));
    assert_eq!(bb.min, v3(9.0, -1.0, -1.0));
    assert_eq!(bb.max, v3(11.0, 1.0, 1.0));
}

#[test]
fn fixed_point_kernel_basics() {
    assert_eq!(fx_mul(fx(2.0), fx(3.0)), fx(6.0));
    assert_eq!(fx_mul(-1, 500_000), -1, "floor rounding pulls toward negative infinity");
    assert_eq!(fx_div_floor(fx(1.0), fx(4.0)), fx(0.25));
    assert_eq!(fx_lerp(0, FX_ONE, 250_000), 250_000);
    assert_eq!(fx_clamp(7, -5, 5), 5);
    assert_eq!(int_sqrt(16), 4);
    assert_eq!(int_sqrt(15), 3);
    assert_eq!(fx_exp_neg(0), FX_ONE);
    assert!(fx_exp_neg(fx(1.0)) < fx_exp_neg(fx(0.5)));
    assert!(COORD_LIMIT > 0);
}

#[test]
fn camera_pivot_updates_and_clamps_pitch() {
    let mut camera = Camera::default();
    camera.pivot(fx(1.0), fx(1.0));
    assert_eq!(camera.view.yaw, 5_000);
    assert_eq!(camera.view.pitch, 5_000);
    camera.pivot(0, fx(100_000.0));
    assert_eq!(camera.view.pitch, HALF_PI_FX);
    camera.pivot(0, -fx(1_000_000.0));
    assert_eq!(camera.view.pitch, -HALF_PI_FX);
}

#[test]
fn camera_zoom_is_multiplicative_and_floored() {
    let mut camera = Camera::default();
    camera.zoom(fx(1.0));
    assert_eq!(camera.view.distance, 10_016_000);
    camera.zoom(-fx(1_000_000_000.0));
    assert_eq!(camera.view.distance, camera.control.closest_zoom);
}

#[test]
fn camera_pan_world_moves_the_pivot_only() {
    let mut camera = Camera::default();
    let yaw = camera.view.yaw;
    camera.pan_world(v3(1.0, -2.0, 3.0));
    assert_eq!(camera.view.pivot, v3(1.0, -1.5, 3.0));
    assert_eq!(camera.view.yaw, yaw);
}

#[test]
fn pixel_screen_maps_the_canvas_center_to_the_origin() {
    let (sx, sy) = pixel_screen(540, 960, 1920, 1080);
    assert_eq!((sx, sy), (0, 0));
    let (lx, ty) = pixel_screen(0, 0, 1920, 1080);
    assert_eq!((lx, ty), (-FX_ONE, FX_ONE));
}

#[test]
fn pan_screen_delta_scales_with_distance_and_sensitivity() {
    let camera = Camera::default();
    let d = camera.control.pan_screen_delta(&camera.view, fx(1.0), fx(2.0));
    // -dx * distance * pan_sensitivity and dy * distance * pan_sensitivity.
    assert_eq!(d.x, fx(-0.015));
    assert_eq!(d.y, fx(0.03));
    assert_eq!((d.z, d.w), (0, 0));
}

#[test]
fn pivot_round_trip_restores_the_camera() {
    let mut camera = Camera::default();
    let initial = camera;
    camera.pivot(fx(1.0), fx(1.0));
    camera.pivot(-fx(1.0), -fx(1.0));
    assert_eq!(camera, initial);
}
