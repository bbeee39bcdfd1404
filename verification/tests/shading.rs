use solar_raster::color::Color;
use solar_raster::fixed::Fixed;
use solar_raster::fragment::{Depth, Fragment};
use solar_raster::gaseous_shader::{fbm, gaseous_shader, hash, noise, rocky_shader, sun_shader};
use solar_raster::render::shade;
use solar_raster::PlanetType;

fn fx(v: f64) -> Fixed {
    Fixed::from_raw((v * 65536.0).round() as i32)
}

fn at(x: i32, y: i32, color: Color) -> Fragment {
    Fragment::new(x, y, color, Depth::from_raw(0))
}

#[test]
fn hash_of_lattice_points() {
    assert_eq!(hash(0, 0), 0);
    assert_eq!(hash(1, 0), 830639262);
    assert_eq!(hash(0, 1), 668265263);
    assert_eq!(hash(1, 1), 436189647);
    assert_eq!(hash(-1, -1), 436189681);
    assert_eq!(hash(12, 34), -1951457602);
    assert_eq!(hash(i32::MAX, i32::MIN), -1316844386);
}

#[test]
fn noise_at_lattice_points() {
    assert_eq!(noise(Fixed::from_int(0), Fixed::from_int(0)).raw, 0);
    assert_eq!(noise(Fixed::from_int(1), Fixed::from_int(0)).raw, 57650);
    assert_eq!(noise(Fixed::from_int(0), Fixed::from_int(1)).raw, 12445);
    assert_eq!(noise(Fixed::from_int(1), Fixed::from_int(1)).raw, 5709);
    assert_eq!(noise(Fixed::from_int(-1), Fixed::from_int(-1)).raw, 34969);
    assert_eq!(noise(Fixed::from_int(12), Fixed::from_int(34)).raw, 40233);
    assert_eq!(noise(Fixed::from_int(5), Fixed::from_int(7)).raw, 44061);
}

#[test]
fn noise_depends_on_the_lattice_point_below() {
    assert_eq!(noise(Fixed::from_raw(98304), Fixed::from_raw(-1)).raw, 10266);
    assert_eq!(noise(fx(1.5), fx(-0.25)), noise(Fixed::from_int(1), Fixed::from_int(-1)));
    assert_eq!(noise(Fixed::from_raw(65535), Fixed::from_raw(65535)).raw, 0);
    assert_eq!(noise(Fixed::from_raw(-1), Fixed::from_raw(-1)).raw, 34969);
}

#[test]
fn noise_lies_from_zero_up_to_one() {
    let mut seen_high = false;
    let mut seen_low = false;
    for x in -60..60 {
        for y in -60..60 {
            let n = noise(Fixed::from_int(x), Fixed::from_int(y));
            assert!(0 <= n.raw && n.raw < 65536);
            seen_high = seen_high || n.raw > 60000;
            seen_low = seen_low || (n.raw < 5000 && n.raw > 0);
        }
    }
    assert!(seen_high && seen_low);
}

#[test]
fn fractal_noise_sums_octaves() {
    let x = Fixed::from_raw(3 * 65536 + 100);
    let y = Fixed::from_int(7);
    assert_eq!(fbm(x, y, 0).raw, 0);
    assert_eq!(fbm(x, y, -3).raw, 0);
    assert_eq!(fbm(x, y, 1), noise(x, y));
    assert_eq!(fbm(x, y, 1).raw, 13961);
    assert_eq!(fbm(x, y, 4).raw, 58953);
    assert_eq!(fbm(Fixed::from_raw(12345678), Fixed::from_raw(-7654321), 6).raw, 70061);
    let two = fbm(x, y, 2).raw;
    let second = noise(x.mul(Fixed::from_int(2)), y.mul(Fixed::from_int(2))).raw / 2;
    assert_eq!(two, 13961 + second);
    assert!(fbm(x, y, 30).raw < 2 * 65536);
}

#[test]
fn gas_giant_at_the_origin_keeps_the_color() {
    let gold = Color::from_hex(0xDAA520);
    let f = at(0, 0, gold);
    assert_eq!(gaseous_shader(&f, gold, Fixed::zero()), gold);
}

#[test]
fn gas_giant_is_deterministic() {
    let gold = Color::from_hex(0xDAA520);
    let f = at(0, 0, gold);
    let one = gaseous_shader(&f, gold, Fixed::zero());
    let two = gaseous_shader(&f, gold, Fixed::zero());
    assert_eq!(one, two);
    let g = at(640, 400, gold);
    assert_eq!(gaseous_shader(&g, gold, fx(3.25)), gaseous_shader(&g, gold, fx(3.25)));
}

#[test]
fn gas_giant_at_some_pixels() {
    let gold = Color::new(218, 165, 32);
    assert_eq!(gaseous_shader(&at(100, 200, gold), gold, Fixed::zero()), Color::new(251, 190, 36));
    assert_eq!(gaseous_shader(&at(640, 400, gold), gold, fx(3.25)), Color::new(255, 214, 41));
    assert_eq!(
        gaseous_shader(&at(1199, 799, gold), gold, Fixed::from_int(100)),
        Color::new(202, 152, 29)
    );
    assert_eq!(gaseous_shader(&at(-5, -7, gold), gold, Fixed::one()), Color::new(255, 207, 40));
}

#[test]
fn gas_giant_scales_between_seven_and_thirteen_tenths() {
    let grey = Color::new(100, 100, 100);
    for y in 0..40 {
        for x in 0..40 {
            let c = gaseous_shader(&at(x * 31, y * 23, grey), grey, fx(1.75));
            assert!(70 <= c.r && c.r <= 130, "{:?}", c);
            assert_eq!(c.r, c.g);
            assert_eq!(c.g, c.b);
            assert_eq!(c.a, 255);
        }
    }
}

#[test]
fn gas_giant_uses_the_base_color_given() {
    let f = at(100, 200, Color::new(1, 2, 3));
    assert_eq!(
        gaseous_shader(&f, Color::new(218, 165, 32), Fixed::zero()),
        Color::new(251, 190, 36)
    );
}

#[test]
fn rocky_planet_at_some_pixels() {
    let red = Color::new(205, 92, 92);
    assert_eq!(rocky_shader(&at(0, 0, red), red), Color::new(123, 55, 55));
    assert_eq!(rocky_shader(&at(100, 200, red), red), Color::new(215, 96, 96));
    assert_eq!(rocky_shader(&at(640, 400, red), red), Color::new(222, 99, 99));
    assert_eq!(rocky_shader(&at(1199, 799, red), red), Color::new(240, 107, 107));
    assert_eq!(rocky_shader(&at(-5, -7, red), red), Color::new(207, 93, 93));
}

#[test]
fn rocky_planet_is_darker_in_a_crater() {
    let white = Color::new(255, 255, 255);
    let crater = rocky_shader(&at(34, 0, white), white);
    assert_eq!(crater, Color::new(140, 140, 140));
    let beside = rocky_shader(&at(35, 0, white), white);
    assert_eq!(beside, Color::new(133, 133, 133));
}

#[test]
fn sun_at_some_pixels() {
    let yellow = Color::new(255, 221, 0);
    assert_eq!(sun_shader(&at(0, 0, yellow), yellow, Fixed::zero()), Color::new(229, 198, 0));
    assert_eq!(sun_shader(&at(100, 200, yellow), yellow, Fixed::zero()), Color::new(255, 227, 0));
    assert_eq!(sun_shader(&at(640, 400, yellow), yellow, fx(3.25)), Color::new(255, 247, 0));
    assert_eq!(
        sun_shader(&at(1199, 799, yellow), yellow, Fixed::from_int(100)),
        Color::new(255, 231, 0)
    );
    let blue = Color::new(100, 150, 200);
    assert_eq!(sun_shader(&at(0, 0, blue), blue, Fixed::zero()), Color::new(90, 135, 180));
}

#[test]
fn sun_channels_saturate() {
    let white = Color::new(255, 250, 128);
    let c = sun_shader(&at(1199, 799, white), white, Fixed::from_int(100));
    assert_eq!(c, Color::new(255, 255, 134));
}

#[test]
fn shade_selects_by_kind() {
    let base = Color::new(205, 92, 92);
    let f = at(100, 200, base);
    let t = fx(3.25);
    assert_eq!(shade(PlanetType::Sun, &f, t), sun_shader(&f, base, t));
    assert_eq!(shade(PlanetType::Gaseous, &f, t), gaseous_shader(&f, base, t));
    assert_eq!(shade(PlanetType::Rocky, &f, t), rocky_shader(&f, base));
    assert_eq!(shade(PlanetType::Rocky, &f, t), Color::new(215, 96, 96));
    assert_eq!(shade(PlanetType::Normal, &f, t), base);
    assert_eq!(shade(PlanetType::Spaceship, &f, t), base);
}

#[test]
fn sun_and_rock_factors_stay_in_their_ranges() {
    let grey = Color::new(100, 100, 100);
    for y in 0..40 {
        for x in 0..40 {
            let f = at(x * 29 - 100, y * 19 - 50, grey);
            let s = sun_shader(&f, grey, fx(0.37 * x as f64));
            assert!(90 <= s.r && s.r <= 120, "{:?}", s);
            let r = rocky_shader(&f, grey);
            assert!(30 <= r.r && r.r <= 135, "{:?}", r);
        }
    }
}
