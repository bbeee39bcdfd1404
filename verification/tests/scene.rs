use solar_raster::camera::{MAX_RADIUS, MIN_RADIUS};
use solar_raster::fixed::Fixed;
use solar_raster::fragment::Fragment;
use solar_raster::render::{create_model_matrix, create_viewport_matrix, render};
use solar_raster::scene::{
    advance_bodies, Events, Input, Scene, ShipTrail, SHIP_COLOR, SUN_COLOR,
};
use solar_raster::trig::{Angle, HALF_PI, PI, QUARTER_PI};
use solar_raster::vector::{Vec2, Vec3};
use solar_raster::vertex::Vertex;
use solar_raster::{PlanetType, Uniforms};

fn fx(v: f64) -> Fixed {
    Fixed::from_raw((v * 65536.0).round() as i32)
}

fn ang(v: f64) -> Angle {
    Angle::from_raw((v * 4294967296.0).round() as i64)
}

fn radians(a: Angle) -> f64 {
    a.raw as f64 / 4294967296.0
}

fn val(f: Fixed) -> f64 {
    f.raw as f64 / 65536.0
}

fn v3(x: f64, y: f64, z: f64) -> Vec3 {
    Vec3::new(fx(x), fx(y), fx(z))
}

fn quiet() -> Events {
    Events {
        ship_moved: false,
        ship_trail: ShipTrail {
            up: None,
            down: None,
            left: None,
            right: None,
            nearer: None,
            farther: None,
        },
        mode_toggled: false,
        warp_started: None,
        warp_to_sun: false,
        warp_completed: false,
    }
}

fn patch() -> Vec<Vertex> {
    let n = v3(0.0, 0.0, 1.0);
    let t = Vec2::new(Fixed::zero(), Fixed::zero());
    vec![
        Vertex::new(v3(-1.0, -1.0, 0.0), n, t),
        Vertex::new(v3(1.0, -1.0, 0.0), n, t),
        Vertex::new(v3(0.0, 1.0, 0.0), n, t),
    ]
}

#[test]
fn new_scene_holds_the_star_and_five_planets() {
    let s = Scene::new();
    assert_eq!(s.bodies.len(), 5);
    assert_eq!(s.sun.scale, Fixed::from_int(80));
    assert_eq!(s.sun.translation, Vec3::zero());
    assert_eq!(s.sun.orbit_radius.raw, 0);
    assert_eq!(s.camera.eye, Vec3::from_ints(0, 0, 900));
    assert_eq!(s.camera.center, Vec3::zero());
    assert_eq!(s.camera.up, Vec3::from_ints(0, 1, 0));
    assert_eq!(s.camera.radius.raw, MIN_RADIUS);
    assert_eq!(s.camera.height, Fixed::from_int(900));
    assert_eq!(s.spaceship.offset, Vec3::from_ints(40, -30, -100));
    assert!(!s.mode_3d && !s.warp_in_progress && s.warp_target_index.is_none());
    let radii = [120, 180, 250, 320, 450];
    let scales = [15, 25, 28, 22, 55];
    let speeds = [0.04, 0.03, 0.025, 0.02, 0.01];
    let spins = [0.03, 0.025, 0.02, 0.018, 0.04];
    let angles = [0, QUARTER_PI, HALF_PI, 3 * QUARTER_PI, PI];
    let kinds = [
        PlanetType::Rocky,
        PlanetType::Rocky,
        PlanetType::Normal,
        PlanetType::Rocky,
        PlanetType::Gaseous,
    ];
    let colors = [0x8C7853, 0xFFC649, 0x4169E1, 0xCD5C5C, 0xDAA520];
    for i in 0..5 {
        let b = s.bodies[i];
        assert_eq!(b.planet.orbit_radius, Fixed::from_int(radii[i]));
        assert_eq!(b.planet.scale, Fixed::from_int(scales[i]));
        assert_eq!(b.planet.orbit_speed, ang(speeds[i]));
        assert!((val(b.planet.rotation_speed) - spins[i]).abs() < 1e-5);
        assert_eq!(b.planet.orbit_angle.raw, angles[i]);
        assert_eq!(b.planet.translation.z, Fixed::from_int((i as i32 - 2) * 50));
        assert_eq!(b.kind, kinds[i]);
        assert_eq!(b.color, colors[i]);
        let a = radians(b.planet.orbit_angle);
        assert!((val(b.planet.translation.x) - (400.0 + radii[i] as f64 * a.cos())).abs() < 1e-5);
        assert!((val(b.planet.translation.y) - (300.0 + radii[i] as f64 * a.sin())).abs() < 1e-5);
    }
    assert_eq!(s.bodies[0].planet.translation, Vec3::from_ints(520, 300, -100));
    assert_eq!(s.bodies[2].planet.translation, Vec3::from_ints(400, 550, 0));
    assert_eq!(s.bodies[4].planet.translation, Vec3::from_ints(-50, 300, 100));
}

#[test]
fn a_frame_without_keys_moves_only_the_planets() {
    let mut s = Scene::new();
    let before_camera = s.camera;
    let before_ship = s.spaceship;
    let before = s.bodies.clone();
    let events = s.update(&Input::none());
    assert_eq!(events, quiet());
    assert_eq!(s.camera, before_camera);
    assert_eq!(s.spaceship, before_ship);
    assert_eq!(s.sun.translation, Vec3::zero());
    for i in 0..5 {
        let mut p = before[i].planet;
        p.update();
        assert_eq!(s.bodies[i].planet, p);
        assert_ne!(s.bodies[i].planet.translation, before[i].planet.translation);
        assert_eq!(s.bodies[i].kind, before[i].kind);
        assert_eq!(s.bodies[i].color, before[i].color);
    }
    assert_eq!(advance_bodies(&before), s.bodies);
}

#[test]
fn the_star_turns_at_its_own_speed() {
    let mut s = Scene::new();
    s.sun.rotation_speed = fx(0.5);
    s.update(&Input::none());
    s.update(&Input::none());
    assert_eq!(s.sun.rotation, Vec3::new(Fixed::zero(), fx(1.0), Fixed::zero()));
    assert_eq!(s.sun.translation, Vec3::zero());
}

#[test]
fn arrow_keys_orbit_in_the_plane() {
    let mut s = Scene::new();
    let mut keys = Input::none();
    keys.left = true;
    s.update(&keys);
    assert_eq!(s.camera.angle, ang(0.05));
    assert_eq!(s.camera.yaw.raw, 0);
    keys.right = true;
    s.update(&keys);
    assert_eq!(s.camera.angle, ang(0.05));
    keys.left = false;
    keys.up = true;
    keys.down = true;
    s.update(&keys);
    assert_eq!(s.camera.angle.raw, 0);
    assert_eq!(s.camera.pitch.raw, 0);
}

#[test]
fn the_mode_key_switches_to_free_look() {
    let mut s = Scene::new();
    let mut keys = Input::none();
    keys.toggle_3d = true;
    keys.left = true;
    let events = s.update(&keys);
    assert!(events.mode_toggled);
    assert!(s.mode_3d);
    assert_eq!(s.camera.angle, ang(0.05));
    assert_eq!(s.camera.yaw.raw, 0);
    keys.toggle_3d = false;
    keys.up = true;
    s.update(&keys);
    assert_eq!(s.camera.angle, ang(0.05));
    assert_eq!(s.camera.yaw, ang(0.05));
    assert_eq!(s.camera.pitch, ang(0.05));
    keys.left = false;
    keys.right = true;
    keys.up = false;
    keys.down = true;
    s.update(&keys);
    assert_eq!(s.camera.yaw.raw, 0);
    assert_eq!(s.camera.pitch.raw, 0);
    keys.toggle_3d = true;
    s.update(&keys);
    assert!(!s.mode_3d);
}

#[test]
fn zoom_and_height_keys() {
    let mut s = Scene::new();
    let mut keys = Input::none();
    keys.zoom_in = true;
    s.update(&keys);
    assert_eq!(s.camera.radius.raw, MIN_RADIUS);
    keys.zoom_in = false;
    keys.zoom_out = true;
    s.update(&keys);
    assert_eq!(s.camera.radius, Fixed::from_int(55));
    for _ in 0..400 {
        s.update(&keys);
    }
    assert_eq!(s.camera.radius.raw, MAX_RADIUS);
    keys.zoom_in = true;
    s.update(&keys);
    assert_eq!(s.camera.radius.raw, MAX_RADIUS);
    let mut lift = Input::none();
    lift.raise = true;
    s.update(&lift);
    assert_eq!(s.camera.height, Fixed::from_int(905));
    assert_eq!(s.camera.eye.z, Fixed::from_int(905));
    lift.raise = false;
    lift.lower = true;
    s.update(&lift);
    s.update(&lift);
    assert_eq!(s.camera.eye.z, Fixed::from_int(895));
}

#[test]
fn ship_keys_move_the_ship() {
    let mut s = Scene::new();
    let mut keys = Input::none();
    keys.ship_up = true;
    keys.ship_right = true;
    keys.ship_farther = true;
    let events = s.update(&keys);
    assert!(events.ship_moved);
    assert_eq!(s.spaceship.offset, Vec3::from_ints(41, -29, -99));
    assert_eq!(events.ship_trail.up, Some(Vec3::from_ints(40, -29, -100)));
    assert_eq!(events.ship_trail.right, Some(Vec3::from_ints(41, -29, -100)));
    assert_eq!(events.ship_trail.farther, Some(Vec3::from_ints(41, -29, -99)));
    assert_eq!(events.ship_trail.down, None);
    assert_eq!(events.ship_trail.left, None);
    assert_eq!(events.ship_trail.nearer, None);
    let mut back = Input::none();
    back.ship_down = true;
    back.ship_left = true;
    back.ship_nearer = true;
    s.update(&back);
    s.update(&back);
    assert_eq!(s.spaceship.offset, Vec3::from_ints(39, -31, -101));
    let mut both = Input::none();
    both.ship_up = true;
    both.ship_down = true;
    let events = s.update(&both);
    assert!(events.ship_moved);
    assert_eq!(events.ship_trail.up, Some(Vec3::from_ints(39, -30, -101)));
    assert_eq!(events.ship_trail.down, Some(Vec3::from_ints(39, -31, -101)));
    assert_eq!(s.spaceship.offset, Vec3::from_ints(39, -31, -101));
}

#[test]
fn a_warp_key_starts_a_warp_that_arrives() {
    let mut s = Scene::new();
    for b in s.bodies.iter_mut() {
        b.planet.orbit_speed = Angle::zero();
    }
    let mut keys = Input::none();
    keys.warp_third = true;
    let target = s.bodies[2].planet.translation;
    let events = s.update(&keys);
    assert_eq!(events.warp_started, Some(2));
    assert!(!events.warp_completed);
    assert!(s.warp_in_progress);
    assert_eq!(s.warp_target_index, Some(2));
    assert!((val(s.camera.center.x) - val(target.x) * 0.05).abs() < 0.01);
    assert!((val(s.camera.center.y) - 550.0 * 0.05).abs() < 0.01);
    let mut frames = 1;
    loop {
        let e = s.update(&Input::none());
        frames += 1;
        assert!(frames < 1000);
        if e.warp_completed {
            break;
        }
        assert!(s.warp_in_progress);
    }
    assert!(frames > 50);
    assert!(!s.warp_in_progress);
    assert!(s.warp_target_index.is_none());
    assert_eq!(s.camera.center, target);
    assert_eq!(s.camera.radius, Fixed::from_int(150));
    assert_eq!(s.camera.eye, target.add(&Vec3::from_ints(150, 0, 900)));
    let rest = s.camera;
    assert_eq!(s.update(&Input::none()), quiet());
    assert_eq!(s.camera, rest);
}

#[test]
fn the_last_warp_key_in_the_row_wins() {
    let mut s = Scene::new();
    let mut keys = Input::none();
    keys.warp_first = true;
    keys.warp_fourth = true;
    keys.warp_second = true;
    let events = s.update(&keys);
    assert_eq!(events.warp_started, Some(3));
    assert_eq!(s.warp_target_index, Some(3));
    let mut again = Input::none();
    again.warp_first = true;
    assert_eq!(s.update(&again).warp_started, Some(0));
    assert_eq!(s.warp_target_index, Some(0));
    again.warp_first = false;
    again.warp_fifth = true;
    assert_eq!(s.update(&again).warp_started, Some(4));
}

#[test]
fn a_warp_to_a_missing_planet_waits() {
    let mut s = Scene::new();
    s.bodies.truncate(2);
    let mut keys = Input::none();
    keys.warp_fifth = true;
    let camera = s.camera;
    let events = s.update(&keys);
    assert_eq!(events.warp_started, Some(4));
    assert!(!events.warp_completed);
    assert!(s.warp_in_progress);
    assert_eq!(s.warp_target_index, Some(4));
    assert_eq!(s.camera, camera);
    assert_eq!(s.bodies.len(), 2);
}

#[test]
fn the_sun_key_warps_at_once() {
    let mut s = Scene::new();
    let mut keys = Input::none();
    keys.warp_sun = true;
    let events = s.update(&keys);
    assert!(events.warp_to_sun);
    assert!(!s.warp_in_progress);
    assert_eq!(s.camera.center, Vec3::zero());
    assert_eq!(s.camera.radius, Fixed::from_int(200));
    assert_eq!(s.camera.eye, Vec3::from_ints(200, 0, 900));
}

#[test]
fn render_draws_star_planets_and_ship_in_turn() {
    let mut s = Scene::new();
    s.update(&Input::none());
    let sphere = patch();
    let ship = patch();
    let time = fx(2.5);
    let (width, height) = (300usize, 200usize);
    let writes = s.render(&sphere, &ship, time, width, height);
    let view_matrix = s.camera.get_view_matrix();
    let projection_matrix =
        s.camera.get_projection_matrix(Fixed::from_int(300), Fixed::from_int(200));
    let viewport_matrix = create_viewport_matrix(Fixed::from_int(300), Fixed::from_int(200));
    let mut want: Vec<Fragment> = Vec::new();
    let mut draw = |t: Vec3, scale: Fixed, r: Vec3, mesh: &[Vertex], color: u32, kind: PlanetType| {
        let u = Uniforms {
            model_matrix: create_model_matrix(t, scale, r),
            view_matrix,
            projection_matrix,
            viewport_matrix,
        };
        let part = render(&u, mesh, color, kind, time, s.sun.translation, width, height);
        let n = part.len();
        want.extend(part);
        n
    };
    let sun = draw(s.sun.translation, s.sun.scale, s.sun.rotation, &sphere, SUN_COLOR, PlanetType::Sun);
    assert!(sun > 50);
    for b in s.bodies.iter() {
        draw(b.planet.translation, b.planet.scale, b.planet.rotation, &sphere, b.color, b.kind);
    }
    let ship_part = draw(
        s.spaceship.get_world_position(&s.camera),
        s.spaceship.scale,
        s.spaceship.get_world_rotation(&s.camera),
        &ship,
        SHIP_COLOR,
        PlanetType::Spaceship,
    );
    assert!(ship_part > 0);
    assert!(want.len() > sun + ship_part);
    assert_eq!(writes, want);
    for f in writes.iter() {
        assert!(0 <= f.x && (f.x as usize) < width && 0 <= f.y && (f.y as usize) < height);
    }
}

#[test]
fn render_on_a_screen_without_pixels_writes_nothing() {
    let s = Scene::new();
    assert!(s.render(&patch(), &patch(), Fixed::zero(), 0, 0).is_empty());
    assert!(s.render(&[], &[], Fixed::zero(), 300, 200).is_empty());
}
