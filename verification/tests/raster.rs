use solar_raster::color::Color;
use solar_raster::fixed::Fixed;
use solar_raster::fragment::{Depth, Fragment};
use solar_raster::triangle::{
    barycentric_coordinates, calculate_bounding_box, edge_function, lighting, triangle,
    Barycentric, AMBIENT, DIFFUSE,
};
use solar_raster::vector::{Vec2, Vec3};
use solar_raster::vertex::Vertex;

fn fx(v: f64) -> Fixed {
    Fixed::from_raw((v * 65536.0).round() as i32)
}

fn v3(x: f64, y: f64, z: f64) -> Vec3 {
    Vec3::new(fx(x), fx(y), fx(z))
}

fn vertex(screen: Vec3, world: Vec3, normal: Vec3, color: Color) -> Vertex {
    Vertex {
        position: world,
        normal,
        tex_coords: Vec2::new(Fixed::zero(), Fixed::zero()),
        color,
        transformed_position: screen,
        transformed_normal: normal,
        depth: Depth::from_fixed(screen.z),
    }
}

fn flat(screen: Vec3, color: Color) -> Vertex {
    vertex(screen, screen, v3(0.0, 0.0, 1.0), color)
}

#[test]
fn edge_function_is_twice_the_signed_area() {
    let a = v3(0.0, 0.0, 0.0);
    let b = v3(0.0, 4.0, 0.0);
    let c = v3(4.0, 0.0, 0.0);
    let unit = 65536i128 * 65536;
    assert_eq!(edge_function(&a, &b, &c), 16 * unit);
    assert_eq!(edge_function(&a, &c, &b), -16 * unit);
    assert_eq!(edge_function(&a, &a, &b), 0);
    assert_eq!(edge_function(&a, &v3(2.0, 2.0, 0.0), &v3(4.0, 4.0, 9.0)), 0);
}

#[test]
fn edge_function_at_the_ends_of_the_range() {
    let lo = Fixed::from_raw(i32::MIN);
    let hi = Fixed::from_raw(i32::MAX);
    let a = Vec3::new(lo, lo, lo);
    let b = Vec3::new(lo, hi, lo);
    let c = Vec3::new(hi, lo, lo);
    let side = (i32::MAX as i128) - (i32::MIN as i128);
    assert_eq!(edge_function(&a, &b, &c), side * side);
}

#[test]
fn bounding_box_floors_and_ceils() {
    let a = v3(1.5, 2.25, 0.0);
    let b = v3(7.0, -3.5, 0.0);
    let c = v3(-0.5, 4.0, 0.0);
    assert_eq!(calculate_bounding_box(&a, &b, &c), (-1, -4, 7, 4));
    let p = v3(3.0, 3.0, 0.0);
    assert_eq!(calculate_bounding_box(&p, &p, &p), (3, 3, 3, 3));
    let lo = Fixed::from_raw(i32::MIN);
    let hi = Fixed::from_raw(i32::MAX);
    let far = Vec3::new(lo, hi, lo);
    assert_eq!(calculate_bounding_box(&far, &far, &far), (-32768, 32767, -32768, 32768));
}

#[test]
fn weights_sum_to_the_area() {
    let a = v3(1.25, 0.5, 0.0);
    let b = v3(9.0, 2.75, 0.0);
    let c = v3(3.5, 8.0, 0.0);
    let area = edge_function(&a, &b, &c);
    for py in -3..12 {
        for px in -3..12 {
            let w = barycentric_coordinates(px, py, &a, &b, &c, area);
            assert_eq!(w.w1 + w.w2 + w.w3, area);
            assert_eq!(w.area, area);
        }
    }
    let w = barycentric_coordinates(i32::MAX, i32::MIN, &a, &b, &c, area);
    assert_eq!(w.w1 + w.w2 + w.w3, area);
}

#[test]
fn weights_at_a_pixel_centre() {
    let a = v3(0.0, 0.0, 0.0);
    let b = v3(0.0, 4.0, 0.0);
    let c = v3(4.0, 0.0, 0.0);
    let area = edge_function(&a, &b, &c);
    let w = barycentric_coordinates(1, 1, &a, &b, &c, area);
    let unit = 65536i128 * 65536;
    assert_eq!(w, Barycentric { w1: 4 * unit, w2: 6 * unit, w3: 6 * unit, area: 16 * unit });
    assert!(w.inside());
    assert!(!barycentric_coordinates(3, 3, &a, &b, &c, area).inside());
    assert!(!barycentric_coordinates(-1, 0, &a, &b, &c, area).inside());
}

#[test]
fn inside_accepts_the_boundary_and_either_winding() {
    let on_edge = Barycentric { w1: 0, w2: 5, w3: 5, area: 10 };
    assert!(on_edge.inside());
    let on_corner = Barycentric { w1: 10, w2: 0, w3: 0, area: 10 };
    assert!(on_corner.inside());
    let clockwise = Barycentric { w1: -2, w2: -3, w3: -5, area: -10 };
    assert!(clockwise.inside());
    let outside = Barycentric { w1: -1, w2: 6, w3: 5, area: 10 };
    assert!(!outside.inside());
    let mixed = Barycentric { w1: 1, w2: -6, w3: -5, area: -10 };
    assert!(!mixed.inside());
    let no_area = Barycentric { w1: 0, w2: 0, w3: 0, area: 0 };
    assert!(!no_area.inside());
}

#[test]
fn blends_round_toward_zero() {
    let w = Barycentric { w1: 1, w2: 1, w3: 1, area: 3 };
    assert_eq!(w.blend(10, 20, 31), 20);
    assert_eq!(w.blend(-10, -20, -31), -20);
    assert_eq!(w.blend_fixed(Fixed::from_raw(3), Fixed::from_raw(3), Fixed::from_raw(3)).raw, 3);
    let d = w.blend_depth(Depth::from_raw(10), Depth::from_raw(20), Depth::from_raw(31));
    assert_eq!(d.raw, 20);
    let far = w.blend_depth(Depth::from_raw(i64::MAX), Depth::from_raw(i64::MAX), Depth::from_raw(i64::MAX));
    assert_eq!(far.raw, 1 << 47);
    let c = w.blend_color(Color::new(255, 0, 0), Color::new(0, 255, 0), Color::new(0, 0, 255));
    assert_eq!(c, Color::new(85, 85, 85));
    let back = Barycentric { w1: -1, w2: -1, w3: -2, area: -4 };
    assert_eq!(back.blend(4, 8, 16), 11);
    let v = w.blend_vec3(&Vec3::from_ints(3, 0, 0), &Vec3::from_ints(0, 3, 0), &Vec3::from_ints(0, 0, 3));
    assert_eq!(v, Vec3::from_ints(1, 1, 1));
}

#[test]
fn light_is_ambient_plus_diffuse() {
    let up = Vec3::from_ints(0, 0, 1);
    let down = Vec3::from_ints(0, 0, -1);
    let side = Vec3::from_ints(1, 0, 0);
    assert_eq!(AMBIENT + DIFFUSE, 65536);
    assert_eq!(lighting(&up, &up).raw, 65536);
    assert_eq!(lighting(&up, &down).raw, AMBIENT);
    assert_eq!(lighting(&up, &side).raw, AMBIENT);
    let half = Vec3::new(Fixed::zero(), Fixed::zero(), fx(0.5));
    assert_eq!(lighting(&up, &half).raw, 13108 + 26214);
}

#[test]
fn light_stays_between_ambient_and_one_for_unit_vectors() {
    let dirs = [
        v3(1.0, 2.0, 3.0),
        v3(-4.0, 0.5, 0.25),
        v3(0.0, -1.0, 0.0),
        v3(300.0, -200.0, 100.0),
        v3(0.01, 0.01, 0.01),
        v3(-1.0, -1.0, -1.0),
    ];
    for a in dirs.iter() {
        for b in dirs.iter() {
            let level = lighting(&a.normalize(), &b.normalize());
            assert!(AMBIENT <= level.raw && level.raw <= 65536);
        }
    }
}

#[test]
fn upward_triangle_lit_from_above_keeps_its_color() {
    let up = v3(0.0, 0.0, 1.0);
    let base = Color::new(200, 120, 40);
    let v1 = vertex(v3(0.0, 0.0, 0.0), v3(0.0, 0.0, 0.0), up, base);
    let v2 = vertex(v3(0.0, 8.0, 0.0), v3(0.0, 0.0, 0.0), up, base);
    let v3_ = vertex(v3(8.0, 0.0, 0.0), v3(0.0, 0.0, 0.0), up, base);
    let sun = v3(0.0, 0.0, 500.0);
    let fragments = triangle(&v1, &v2, &v3_, &sun, false);
    assert!(!fragments.is_empty());
    for f in fragments.iter() {
        assert_eq!(f.color, base);
        assert_eq!(f.depth.raw, 0);
    }
}

#[test]
fn triangle_facing_away_gets_only_ambient_light() {
    let down = v3(0.0, 0.0, -1.0);
    let base = Color::new(200, 100, 50);
    let v1 = vertex(v3(0.0, 0.0, 0.0), v3(0.0, 0.0, 0.0), down, base);
    let v2 = vertex(v3(0.0, 8.0, 0.0), v3(0.0, 0.0, 0.0), down, base);
    let v3_ = vertex(v3(8.0, 0.0, 0.0), v3(0.0, 0.0, 0.0), down, base);
    let sun = v3(0.0, 0.0, 500.0);
    let lit = triangle(&v1, &v2, &v3_, &sun, false);
    for f in lit.iter() {
        assert_eq!(f.color, Color::new(40, 20, 10));
    }
    let emissive = triangle(&v1, &v2, &v3_, &sun, true);
    assert_eq!(emissive.len(), lit.len());
    for f in emissive.iter() {
        assert_eq!(f.color, base);
    }
}

#[test]
fn right_triangle_covers_the_expected_pixels() {
    let white = Color::new(255, 255, 255);
    let v1 = flat(v3(0.0, 0.0, 0.0), white);
    let v2 = flat(v3(0.0, 4.0, 0.0), white);
    let v3_ = flat(v3(4.0, 0.0, 0.0), white);
    let fragments = triangle(&v1, &v2, &v3_, &v3(0.0, 0.0, 10.0), true);
    let got: Vec<(i32, i32)> = fragments.iter().map(|f| (f.x, f.y)).collect();
    let want = vec![
        (0, 0), (1, 0), (2, 0), (3, 0),
        (0, 1), (1, 1), (2, 1),
        (0, 2), (1, 2),
        (0, 3),
    ];
    assert_eq!(got, want);
}

#[test]
fn winding_does_not_matter() {
    let c = Color::new(10, 20, 30);
    let a = flat(v3(0.0, 0.0, 0.0), c);
    let b = flat(v3(0.0, 4.0, 0.0), c);
    let d = flat(v3(4.0, 0.0, 0.0), c);
    let sun = v3(0.0, 0.0, 10.0);
    let one: Vec<Fragment> = triangle(&a, &b, &d, &sun, true);
    let other: Vec<Fragment> = triangle(&a, &d, &b, &sun, true);
    assert_eq!(one, other);
}

#[test]
fn fragments_stay_inside_the_bounding_box() {
    let c = Color::new(1, 2, 3);
    let a = flat(v3(-3.25, 1.5, 0.0), c);
    let b = flat(v3(6.75, -2.5, 0.0), c);
    let d = flat(v3(2.0, 9.125, 0.0), c);
    let (min_x, min_y, max_x, max_y) = calculate_bounding_box(
        &a.transformed_position,
        &b.transformed_position,
        &d.transformed_position,
    );
    let fragments = triangle(&a, &b, &d, &v3(0.0, 0.0, 10.0), true);
    assert!(fragments.len() > 20);
    for f in fragments.iter() {
        assert!(min_x <= f.x && f.x <= max_x);
        assert!(min_y <= f.y && f.y <= max_y);
    }
}

#[test]
fn triangle_without_area_gives_no_fragments() {
    let c = Color::new(1, 2, 3);
    let a = flat(v3(0.0, 0.0, 0.0), c);
    let b = flat(v3(5.0, 5.0, 0.0), c);
    let d = flat(v3(10.0, 10.0, 0.0), c);
    assert!(triangle(&a, &b, &d, &v3(0.0, 0.0, 1.0), false).is_empty());
    assert!(triangle(&a, &a, &a, &v3(0.0, 0.0, 1.0), true).is_empty());
}

#[test]
fn pixel_centre_on_an_edge_is_covered() {
    let c = Color::new(9, 9, 9);
    let a = flat(v3(0.5, 0.5, 0.0), c);
    let b = flat(v3(0.5, 2.5, 0.0), c);
    let d = flat(v3(2.5, 0.5, 0.0), c);
    let fragments = triangle(&a, &b, &d, &v3(0.0, 0.0, 1.0), true);
    let got: Vec<(i32, i32)> = fragments.iter().map(|f| (f.x, f.y)).collect();
    assert_eq!(got, vec![(0, 0), (1, 0), (2, 0), (0, 1), (1, 1), (0, 2)]);
}

#[test]
fn colors_and_depth_are_interpolated() {
    let a = flat(v3(0.0, 0.0, 0.0), Color::new(255, 0, 0));
    let b = flat(v3(0.0, 4.0, 4.0), Color::new(0, 255, 0));
    let d = flat(v3(4.0, 0.0, 8.0), Color::new(0, 0, 255));
    let fragments = triangle(&a, &b, &d, &v3(0.0, 0.0, 1.0), true);
    let f = fragments.iter().find(|f| f.x == 1 && f.y == 1).unwrap();
    assert_eq!(f.color, Color::new(63, 95, 95));
    assert_eq!(f.depth, Depth::from_fixed(fx(4.5)));
    let g = fragments.iter().find(|f| f.x == 0 && f.y == 0).unwrap();
    assert_eq!(g.color, Color::new(191, 31, 31));
    assert_eq!(g.depth, Depth::from_fixed(fx(1.5)));
}

#[test]
fn light_falls_off_with_the_angle() {
    let up = v3(0.0, 0.0, 1.0);
    let base = Color::new(200, 200, 200);
    let v1 = vertex(v3(0.0, 0.0, 0.0), v3(0.0, 0.0, 0.0), up, base);
    let v2 = vertex(v3(0.0, 4.0, 0.0), v3(0.0, 0.0, 0.0), up, base);
    let v3_ = vertex(v3(4.0, 0.0, 0.0), v3(0.0, 0.0, 0.0), up, base);
    let sun = v3(30.0, 0.0, 40.0);
    let fragments = triangle(&v1, &v2, &v3_, &sun, false);
    assert_eq!(fragments.len(), 10);
    for f in fragments.iter() {
        assert_eq!(f.color, Color::new(167, 167, 167));
    }
}

#[test]
fn depth_and_color_stay_between_those_of_the_vertices() {
    let a = flat(v3(-3.25, 1.5, -7.0), Color::new(200, 10, 90));
    let b = flat(v3(16.75, -2.5, 3.5), Color::new(20, 250, 90));
    let d = flat(v3(2.0, 19.125, 12.25), Color::new(120, 130, 91));
    let fragments = triangle(&a, &b, &d, &v3(0.0, 0.0, 1.0), true);
    assert!(fragments.len() > 100);
    for f in fragments.iter() {
        assert!(Depth::from_fixed(fx(-7.0)).raw <= f.depth.raw);
        assert!(f.depth.raw <= Depth::from_fixed(fx(12.25)).raw);
        assert!(20 <= f.color.r && f.color.r <= 200);
        assert!(10 <= f.color.g && f.color.g <= 250);
        assert!(90 <= f.color.b && f.color.b <= 91);
    }
}

#[test]
fn lit_fragments_are_no_brighter_than_unlit_ones() {
    let n1 = v3(0.3, -0.2, 0.9).normalize();
    let n2 = v3(-0.5, 0.1, 0.8).normalize();
    let n3 = v3(0.0, 0.7, -0.7).normalize();
    let a = vertex(v3(0.0, 0.0, 0.0), v3(10.0, 0.0, 5.0), n1, Color::new(255, 128, 7));
    let b = vertex(v3(0.0, 12.0, 0.0), v3(-10.0, 40.0, 5.0), n2, Color::new(3, 255, 99));
    let d = vertex(v3(12.0, 0.0, 0.0), v3(10.0, 0.0, -50.0), n3, Color::new(77, 0, 255));
    let sun = v3(5.0, 300.0, 200.0);
    let lit = triangle(&a, &b, &d, &sun, false);
    let unlit = triangle(&a, &b, &d, &sun, true);
    assert_eq!(lit.len(), unlit.len());
    let mut some_darker = false;
    for (l, u) in lit.iter().zip(unlit.iter()) {
        assert_eq!((l.x, l.y, l.depth), (u.x, u.y, u.depth));
        assert!(l.color.r <= u.color.r && l.color.g <= u.color.g && l.color.b <= u.color.b);
        assert!(l.color.r as u32 * 5 + 5 >= u.color.r as u32);
        assert!(l.color.g as u32 * 5 + 5 >= u.color.g as u32);
        some_darker = some_darker || l.color != u.color;
    }
    assert!(some_darker);
}

#[test]
fn light_from_far_above_leaves_the_color_within_one() {
    let up = v3(0.0, 0.0, 1.0);
    let base = Color::new(200, 120, 41);
    let v1 = vertex(v3(0.0, 0.0, 0.0), v3(-3.0, 2.0, 0.0), up, base);
    let v2 = vertex(v3(0.0, 9.0, 0.0), v3(4.0, 2.5, 0.0), up, base);
    let v3_ = vertex(v3(9.0, 0.0, 0.0), v3(1.0, -6.0, 0.0), up, base);
    for &(x, y, h) in [(0.0, 0.0, 10000.0), (5.0, -3.0, 12000.0), (-8.0, 8.0, 14000.0)].iter() {
        let fragments = triangle(&v1, &v2, &v3_, &v3(x, y, h), false);
        assert_eq!(fragments.len(), 45);
        for f in fragments.iter() {
            assert!(199 <= f.color.r && f.color.r <= 200);
            assert!(119 <= f.color.g && f.color.g <= 120);
            assert!(40 <= f.color.b && f.color.b <= 41);
            assert_eq!(f.color.a, 255);
        }
    }
}
