use solar_raster::camera::{Camera, MAX_RADIUS, MIN_RADIUS, PITCH_LIMIT};
use solar_raster::fixed::{Fine, Fixed};
use solar_raster::trig::{Angle, HALF_PI, QUARTER_PI};
use solar_raster::vector::{Vec3, Vec4};

fn fx(v: f64) -> Fixed {
    Fixed::from_raw((v * 65536.0).round() as i32)
}

fn part(v: f64) -> Fine {
    Fine::from_raw((v * 4294967296.0).round() as i64)
}

fn ang(v: f64) -> Angle {
    Angle::from_raw((v * 4294967296.0).round() as i64)
}

fn radians(a: Angle) -> f64 {
    a.raw as f64 / 4294967296.0
}

fn val(f: Fixed) -> f64 {
    f.raw as f64 / 65536.0
}

fn v3(x: f64, y: f64, z: f64) -> Vec3 {
    Vec3::new(fx(x), fx(y), fx(z))
}

fn close(a: Fixed, b: f64, tolerance: f64) -> bool {
    (val(a) - b).abs() <= tolerance
}

fn camera_at_radius_200() -> Camera {
    Camera::new(v3(200.0, 0.0, 30.0), v3(0.0, 0.0, 0.0), v3(0.0, 0.0, 1.0))
}

#[test]
fn new_reads_the_orbit_off_the_eye() {
    let c = camera_at_radius_200();
    assert_eq!(c.radius, Fixed::from_int(200));
    assert_eq!(c.angle.raw, 0);
    assert_eq!(c.yaw.raw, 0);
    assert_eq!(c.pitch.raw, 0);
    assert_eq!(c.height, Fixed::from_int(30));
    assert!(c.has_changed);
    assert_eq!(c.eye, v3(200.0, 0.0, 30.0));
    let d = Camera::new(v3(310.0, 410.0, 5.0), v3(10.0, 10.0, 0.0), v3(0.0, 1.0, 0.0));
    assert_eq!(d.radius, Fixed::from_int(500));
    assert_eq!(d.angle.raw, 3982702634);
    assert!((radians(d.angle) - (4.0f64).atan2(3.0)).abs() < 1e-9);
    assert_eq!(d.yaw, d.angle);
    let e = Camera::new(v3(5.0, 5.0, 0.0), v3(0.0, 0.0, 0.0), v3(0.0, 1.0, 0.0));
    assert_eq!(e.angle.raw, QUARTER_PI);
}

#[test]
fn new_keeps_the_radius_in_range() {
    let c = Camera::new(v3(0.0, 0.0, 900.0), v3(0.0, 0.0, 0.0), v3(0.0, 1.0, 0.0));
    assert_eq!(c.radius.raw, MIN_RADIUS);
    assert_eq!(c.eye, v3(0.0, 0.0, 900.0));
    let near = Camera::new(v3(13.0, 14.0, 5.0), v3(10.0, 10.0, 0.0), v3(0.0, 1.0, 0.0));
    assert_eq!(near.radius.raw, MIN_RADIUS);
    let far = Camera::new(v3(3000.0, -4000.0, 5.0), v3(0.0, 0.0, 0.0), v3(0.0, 1.0, 0.0));
    assert_eq!(far.radius.raw, MAX_RADIUS);
    assert_eq!(c.angle.raw, 0);
    assert_eq!(c.height, Fixed::from_int(900));
}

#[test]
fn zoom_far_in_clamps_to_fifty() {
    let mut c = camera_at_radius_200();
    c.zoom(Fixed::from_int(-1000));
    assert_eq!(c.radius, Fixed::from_int(50));
    assert_eq!(c.radius.raw, MIN_RADIUS);
    assert_eq!(c.eye, v3(50.0, 0.0, 30.0));
    assert!(c.has_changed);
}

#[test]
fn zoom_far_out_clamps_to_eight_hundred() {
    let mut c = camera_at_radius_200();
    c.zoom(Fixed::from_int(1000));
    assert_eq!(c.radius.raw, MAX_RADIUS);
    assert_eq!(c.eye, v3(800.0, 0.0, 30.0));
    c.zoom(Fixed::from_int(32767));
    c.zoom(Fixed::from_int(32767));
    assert_eq!(c.radius.raw, MAX_RADIUS);
}

#[test]
fn radius_stays_in_range_over_many_zooms() {
    let mut c = Camera::new(v3(0.0, 0.0, 900.0), v3(0.0, 0.0, 0.0), v3(0.0, 1.0, 0.0));
    let steps = [-5.0, -5.0, 700.0, 300.0, -2000.0, 17.5, -0.25, 32000.0, -32000.0, 5.0];
    for i in 0..200 {
        c.zoom(fx(steps[i % steps.len()]));
        assert!(MIN_RADIUS <= c.radius.raw && c.radius.raw <= MAX_RADIUS);
    }
}

#[test]
fn zoom_within_range_adds() {
    let mut c = camera_at_radius_200();
    c.has_changed = false;
    c.zoom(Fixed::from_int(-5));
    assert_eq!(c.radius, Fixed::from_int(195));
    assert_eq!(c.eye, v3(195.0, 0.0, 30.0));
    assert!(c.has_changed);
}

#[test]
fn orbit_turns_the_eye_and_keeps_its_height() {
    let mut c = camera_at_radius_200();
    c.has_changed = false;
    c.orbit(Angle::from_raw(HALF_PI));
    assert_eq!(c.angle.raw, HALF_PI);
    assert_eq!(c.eye, v3(0.0, 200.0, 30.0));
    assert!(c.has_changed);
    c.orbit(ang(0.05));
    let a = std::f64::consts::FRAC_PI_2 + 0.05;
    assert!((radians(c.angle) - a).abs() < 1e-9);
    assert!(close(c.eye.x, 200.0 * a.cos(), 1e-5));
    assert!(close(c.eye.y, 200.0 * a.sin(), 1e-5));
    assert_eq!(c.eye.z, Fixed::from_int(30));
    assert_eq!(c.radius, Fixed::from_int(200));
}

#[test]
fn change_height_moves_the_eye() {
    let mut c = camera_at_radius_200();
    c.has_changed = false;
    c.change_height(Fixed::from_int(5));
    assert_eq!(c.height, Fixed::from_int(35));
    assert_eq!(c.eye, v3(200.0, 0.0, 35.0));
    assert!(c.has_changed);
    c.change_height(Fixed::from_int(-40));
    assert_eq!(c.eye.z, Fixed::from_int(-5));
}

#[test]
fn pitch_is_clamped() {
    let mut c = camera_at_radius_200();
    for _ in 0..100 {
        c.rotate_3d(Angle::zero(), ang(0.05));
        assert!(-PITCH_LIMIT <= c.pitch.raw && c.pitch.raw <= PITCH_LIMIT);
    }
    assert_eq!(c.pitch.raw, PITCH_LIMIT);
    assert!(c.pitch.raw < HALF_PI);
    assert!((radians(c.pitch) - (std::f64::consts::FRAC_PI_2 - 0.1)).abs() < 1e-9);
    for _ in 0..200 {
        c.rotate_3d(ang(0.05), ang(-0.05));
        assert!(-PITCH_LIMIT <= c.pitch.raw && c.pitch.raw <= PITCH_LIMIT);
    }
    assert_eq!(c.pitch.raw, -PITCH_LIMIT);
    c.rotate_3d(Angle::zero(), Angle::from_raw(i64::MIN));
    assert_eq!(c.pitch.raw, -PITCH_LIMIT);
    c.rotate_3d(Angle::zero(), Angle::from_raw(i64::MAX));
    assert_eq!(c.pitch.raw, PITCH_LIMIT);
}

#[test]
fn rotate_3d_puts_the_eye_on_the_sphere() {
    let mut c = Camera::new(v3(210.0, 20.0, 30.0), v3(10.0, 20.0, 30.0), v3(0.0, 0.0, 1.0));
    c.has_changed = false;
    c.rotate_3d(ang(0.5), ang(0.25));
    let (yaw, pitch) = (0.5f64, 0.25f64);
    assert!((radians(c.yaw) - 0.5).abs() < 1e-9 && (radians(c.pitch) - 0.25).abs() < 1e-9);
    assert!(close(c.eye.x, 10.0 + 200.0 * yaw.cos() * pitch.cos(), 1e-5));
    assert!(close(c.eye.y, 20.0 + 200.0 * yaw.sin() * pitch.cos(), 1e-5));
    assert!(close(c.eye.z, 30.0 + 200.0 * pitch.sin(), 1e-5));
    assert!(c.has_changed);
    assert_eq!(c.angle.raw, 0);
}

#[test]
fn rotate_3d_from_rest_is_exact() {
    let mut c = camera_at_radius_200();
    c.rotate_3d(Angle::zero(), Angle::zero());
    assert_eq!(c.eye, v3(200.0, 0.0, 0.0));
    c.rotate_3d(Angle::from_raw(HALF_PI), Angle::zero());
    assert_eq!(c.eye, v3(0.0, 200.0, 0.0));
    c.rotate_3d(ang(0.5), Angle::zero());
    assert!(close(c.eye.x, -200.0 * (0.5f64).sin(), 1e-5));
    assert!(close(c.eye.y, 200.0 * (0.5f64).cos(), 1e-5));
    assert_eq!(c.eye.z.raw, 0);
}

#[test]
fn warp_to_moves_at_once() {
    let mut c = camera_at_radius_200();
    c.has_changed = false;
    c.orbit(Angle::from_raw(HALF_PI));
    c.warp_to(v3(100.0, -50.0, 7.0), Fixed::from_int(150));
    assert_eq!(c.center, v3(100.0, -50.0, 7.0));
    assert_eq!(c.radius, Fixed::from_int(150));
    assert_eq!(c.eye, v3(100.0, 100.0, 37.0));
    assert_eq!(c.height, Fixed::from_int(30));
    assert_eq!(c.angle.raw, HALF_PI);
    assert!(c.has_changed);
    c.warp_to(v3(0.0, 0.0, 0.0), Fixed::from_int(10));
    assert_eq!(c.radius.raw, MIN_RADIUS);
    assert_eq!(c.eye.y, Fixed::from_int(50));
    c.warp_to(v3(0.0, 0.0, 0.0), Fixed::from_int(10000));
    assert_eq!(c.radius.raw, MAX_RADIUS);
    assert_eq!(c.eye.y, Fixed::from_int(800));
}

#[test]
fn animated_warp_approaches_and_arrives() {
    let mut c = camera_at_radius_200();
    let target = v3(120.0, 0.0, 0.0);
    let distance = Fixed::from_int(150);
    let speed = part(0.05);
    let before = c;
    assert!(!c.animated_warp_to(target, distance, speed));
    assert!(close(c.center.x, 6.0, 1e-5));
    assert!(close(c.eye.x, 200.0 + 70.0 * 0.05, 1e-5));
    assert_eq!(c.radius, before.radius);
    let mut calls = 1;
    while !c.animated_warp_to(target, distance, speed) {
        calls += 1;
        assert!(calls < 1000);
    }
    assert!(calls > 50);
    assert_eq!(c.center, target);
    assert_eq!(c.eye, v3(270.0, 0.0, 30.0));
    assert_eq!(c.radius, distance);
}

#[test]
fn animated_warp_is_idempotent_once_over() {
    let mut c = camera_at_radius_200();
    c.orbit(ang(0.7));
    let target = v3(-40.0, 65.0, 12.0);
    let distance = Fixed::from_int(150);
    let speed = part(0.05);
    let mut calls = 0;
    while !c.animated_warp_to(target, distance, speed) {
        calls += 1;
        assert!(calls < 1000);
    }
    let arrived = c;
    assert!(c.animated_warp_to(target, distance, speed));
    assert_eq!(c, arrived);
    assert!(c.animated_warp_to(target, distance, part(0.9)));
    assert_eq!(c, arrived);
}

#[test]
fn animated_warp_within_the_threshold_snaps() {
    let mut c = Camera::new(v3(150.0, 0.0, 0.0), v3(0.0, 0.0, 0.0), v3(0.0, 0.0, 1.0));
    let target = v3(0.5, 0.5, 0.5);
    assert!(c.animated_warp_to(target, Fixed::from_int(150), part(0.05)));
    assert_eq!(c.center, target);
    assert_eq!(c.eye, v3(150.5, 0.5, 0.5));
    let mut d = Camera::new(v3(150.0, 0.0, 0.0), v3(0.0, 0.0, 0.0), v3(0.0, 0.0, 1.0));
    assert!(!d.animated_warp_to(v3(1.0, 0.0, 0.0), Fixed::from_int(150), part(0.05)));
}

#[test]
fn view_matrix_of_a_camera_on_the_z_axis() {
    let c = Camera::new(v3(0.0, 0.0, 900.0), v3(0.0, 0.0, 0.0), v3(0.0, 1.0, 0.0));
    let m = c.get_view_matrix();
    assert_eq!(m.r0, Vec4::new(fx(1.0), fx(0.0), fx(0.0), fx(0.0)));
    assert_eq!(m.r1, Vec4::new(fx(0.0), fx(1.0), fx(0.0), fx(0.0)));
    assert_eq!(m.r2, Vec4::new(fx(0.0), fx(0.0), fx(1.0), fx(-900.0)));
    assert_eq!(m.r3, Vec4::new(fx(0.0), fx(0.0), fx(0.0), fx(1.0)));
    let origin = m.apply(&Vec4::new(fx(0.0), fx(0.0), fx(0.0), fx(1.0)));
    assert_eq!(origin, Vec4::new(fx(0.0), fx(0.0), fx(-900.0), fx(1.0)));
}

#[test]
fn view_matrix_takes_the_eye_to_the_origin() {
    let c = Camera::new(v3(200.0, 100.0, 50.0), v3(10.0, 20.0, 30.0), v3(0.0, 0.0, 1.0));
    let m = c.get_view_matrix();
    let eye = m.apply(&Vec4::new(c.eye.x, c.eye.y, c.eye.z, fx(1.0)));
    assert!(close(eye.x, 0.0, 0.02) && close(eye.y, 0.0, 0.02) && close(eye.z, 0.0, 0.02));
    let center = m.apply(&Vec4::new(c.center.x, c.center.y, c.center.z, fx(1.0)));
    let dist = ((190.0f64).powi(2) + (80.0f64).powi(2) + (20.0f64).powi(2)).sqrt();
    assert!(close(center.x, 0.0, 0.02) && close(center.y, 0.0, 0.02));
    assert!(close(center.z, -dist, 0.02));
}

#[test]
fn view_matrix_with_up_along_the_view_does_not_fail() {
    let c = Camera::new(v3(0.0, 0.0, 10.0), v3(0.0, 0.0, 0.0), v3(0.0, 0.0, 1.0));
    let m = c.get_view_matrix();
    assert_eq!(m.r0, Vec4::new(fx(0.0), fx(0.0), fx(0.0), fx(0.0)));
    assert_eq!(m.r1, Vec4::new(fx(0.0), fx(0.0), fx(0.0), fx(0.0)));
    assert_eq!(m.r2, Vec4::new(fx(0.0), fx(0.0), fx(1.0), fx(-10.0)));
}

#[test]
fn projection_matrix_for_a_window() {
    let c = camera_at_radius_200();
    let m = c.get_projection_matrix(Fixed::from_int(1200), Fixed::from_int(800));
    assert_eq!(m.r0.x.raw, 105478);
    assert!(close(m.r0.x, 2.414213562 / 1.5, 2e-5));
    assert_eq!(m.r1.y.raw, 158218);
    assert!(close(m.r1.y, 2.414213562, 2e-6));
    assert_eq!(m.r2.z.raw, -65549);
    assert!(close(m.r2.z, -1000.1 / 999.9, 1e-5));
    assert_eq!(m.r2.w.raw, -13109);
    assert!(close(m.r2.w, -200.0 / 999.9, 2e-5));
    assert_eq!(m.r3, Vec4::new(fx(0.0), fx(0.0), fx(-1.0), fx(0.0)));
    assert_eq!(m.r0.y.raw, 0);
    assert_eq!(m.r1.x.raw, 0);
}

#[test]
fn projection_matrix_for_a_window_without_height() {
    let c = camera_at_radius_200();
    let m = c.get_projection_matrix(Fixed::from_int(1200), Fixed::zero());
    assert_eq!(m.r0.x.raw, 4);
    let n = c.get_projection_matrix(Fixed::zero(), Fixed::from_int(800));
    assert_eq!(n.r0.x.raw, i32::MAX);
}
