use solar_raster::camera::Camera;
use solar_raster::fixed::Fixed;
use solar_raster::render::create_model_matrix;
use solar_raster::spaceship::Spaceship;
use solar_raster::vector::{Vec3, Vec4};

fn fx(v: f64) -> Fixed {
    Fixed::from_raw((v * 65536.0).round() as i32)
}

fn val(f: Fixed) -> f64 {
    f.raw as f64 / 65536.0
}

fn v3(x: f64, y: f64, z: f64) -> Vec3 {
    Vec3::new(fx(x), fx(y), fx(z))
}

fn norm(v: [f64; 3]) -> [f64; 3] {
    let l = (v[0] * v[0] + v[1] * v[1] + v[2] * v[2]).sqrt();
    [v[0] / l, v[1] / l, v[2] / l]
}

fn cross(a: [f64; 3], b: [f64; 3]) -> [f64; 3] {
    [a[1] * b[2] - a[2] * b[1], a[2] * b[0] - a[0] * b[2], a[0] * b[1] - a[1] * b[0]]
}

fn dot(a: [f64; 3], b: [f64; 3]) -> f64 {
    a[0] * b[0] + a[1] * b[1] + a[2] * b[2]
}

const EYES: [[f64; 3]; 4] =
    [[200.0, 100.0, 50.0], [0.0, 0.0, 900.0], [-523.25, 312.75, 88.125], [50.0, -760.0, -300.0]];
const CENTERS: [[f64; 3]; 4] =
    [[10.0, 20.0, 30.0], [0.0, 0.0, 0.0], [400.0, 550.0, 0.0], [-50.0, 300.0, 100.0]];

#[test]
fn ship_placement_follows_the_exact_one() {
    let up = [0.0, 1.0, 0.0];
    let mut worst_place: f64 = 0.0;
    let mut worst_turn: f64 = 0.0;
    for e in EYES.iter() {
        for c in CENTERS.iter() {
            let cam = Camera::new(v3(e[0], e[1], e[2]), v3(c[0], c[1], c[2]), v3(0.0, 1.0, 0.0));
            let s = Spaceship::new();
            let f = norm([c[0] - e[0], c[1] - e[1], c[2] - e[2]]);
            let r = norm(cross(f, up));
            let u = norm(cross(r, f));
            let got = s.get_world_position(&cam);
            for i in 0..3 {
                let want = e[i] + r[i] * 40.0 + u[i] * -30.0 + f[i] * 100.0;
                worst_place = worst_place.max((val([got.x, got.y, got.z][i]) - want).abs());
            }
            let rot = s.get_world_rotation(&cam);
            let pitch = (-f[1]).asin();
            let yaw = f[2].atan2(f[0]) + std::f64::consts::FRAC_PI_2;
            worst_turn = worst_turn.max((val(rot.x) - pitch).abs()).max((val(rot.y) - yaw).abs());
        }
    }
    assert!(worst_place < 2e-5, "{:e}", worst_place);
    assert!(worst_turn < 2e-5, "{:e}", worst_turn);
}

#[test]
fn view_matrix_follows_the_exact_one() {
    let up = [0.0, 1.0, 0.0];
    let mut worst: f64 = 0.0;
    for e in EYES.iter() {
        for c in CENTERS.iter() {
            let cam = Camera::new(v3(e[0], e[1], e[2]), v3(c[0], c[1], c[2]), v3(0.0, 1.0, 0.0));
            let f = norm([c[0] - e[0], c[1] - e[1], c[2] - e[2]]);
            let r = norm(cross(f, up));
            let u = cross(r, f);
            let m = cam.get_view_matrix();
            let wants = [
                [r[0], r[1], r[2], -dot(r, *e)],
                [u[0], u[1], u[2], -dot(u, *e)],
                [-f[0], -f[1], -f[2], dot(f, *e)],
            ];
            let rows = [m.r0, m.r1, m.r2];
            for (row, want) in rows.iter().zip(wants.iter()) {
                for (g, w) in [row.x, row.y, row.z, row.w].iter().zip(want.iter()) {
                    worst = worst.max((val(*g) - w).abs());
                }
            }
        }
    }
    assert!(worst < 2e-5, "{:e}", worst);
}

#[test]
fn model_matrix_follows_the_exact_one() {
    let mut worst: f64 = 0.0;
    for angles in [[0.3, -1.2, 2.5], [0.0, 0.04, 0.0], [3.0, 3.0, -3.0], [-0.7, 0.0, 1.1]].iter() {
        let m = create_model_matrix(v3(1.0, 2.0, 3.0), fx(80.0), v3(angles[0], angles[1], angles[2]));
        let p = m.apply(&Vec4::new(fx(0.5), fx(-0.25), fx(0.75), fx(1.0)));
        let (ax, ay, az) = (val(fx(angles[0])), val(fx(angles[1])), val(fx(angles[2])));
        let (sx, cx) = (ax.sin(), ax.cos());
        let (sy, cy) = (ay.sin(), ay.cos());
        let (sz, cz) = (az.sin(), az.cos());
        let v = [0.5, -0.25, 0.75];
        let a = [v[0], cx * v[1] - sx * v[2], sx * v[1] + cx * v[2]];
        let b = [cy * a[0] + sy * a[2], a[1], -sy * a[0] + cy * a[2]];
        let c = [cz * b[0] - sz * b[1], sz * b[0] + cz * b[1], b[2]];
        let want = [80.0 * c[0] + 1.0, 80.0 * c[1] + 2.0, 80.0 * c[2] + 3.0];
        for i in 0..3 {
            worst = worst.max((val([p.x, p.y, p.z][i]) - want[i]).abs());
        }
    }
    assert!(worst < 2e-5, "{:e}", worst);
}
