//! Bodies on circular orbits in the plane of x and y.
use vstd::prelude::*;
use crate::fixed::{Fixed, ONE, saturate};
use crate::trig::{
    Angle, sine_fine, cosine_fine, fine_scaled, scale_fine, angle_sum, turn_sum, add_turns,
    TWO_PI, lemma_angle_sum, lemma_sine_periodic,
};
use crate::vector::Vec3;

verus! {

/// Raw coordinate of a point at `radius` times `unit` from `center`,
/// where `unit` is a sine or cosine in fine units of 2^-32; the product
/// is rounded once, to the nearest raw value.
pub open spec fn orbit_point(center: int, radius: int, unit: int) -> int {
    saturate(center + fine_scaled(radius, unit))
}

/// The point at `radius` times `unit` from `center`, where `unit` is a
/// sine or cosine in fine units of 2^-32.
pub fn point_on_orbit(center: Fixed, radius: Fixed, unit: i64) -> (p: Fixed)
    ensures
        p@ == orbit_point(center@, radius@, unit as int),
{
    center.add(scale_fine(radius, unit))
}

/// A planet or a star. It circles the point `(center_x, center_y)` at
/// `orbit_radius`, one step of `orbit_speed` radians per update, and turns
/// about its own axis by `rotation_speed` per update. The angle on the
/// orbit and its speed are kept in fine units, so that the body stands
/// where its angle says even on a wide orbit.
#[derive(Clone, Copy, Debug, PartialEq, Eq, Structural)]
pub struct Planet {
    pub translation: Vec3,
    pub rotation: Vec3,
    pub scale: Fixed,
    pub orbit_speed: Angle,
    pub rotation_speed: Fixed,
    pub orbit_radius: Fixed,
    pub orbit_angle: Angle,
    pub center_x: Fixed,
    pub center_y: Fixed,
}

impl Planet {
    /// Whether the body stands on its circle, at its angle.
    pub open spec fn on_orbit(self) -> bool {
        &&& self.translation.x@ == orbit_point(
            self.center_x@,
            self.orbit_radius@,
            cosine_fine(self.orbit_angle@),
        )
        &&& self.translation.y@ == orbit_point(
            self.center_y@,
            self.orbit_radius@,
            sine_fine(self.orbit_angle@),
        )
    }

    /// The body one update later.
    pub open spec fn advanced(self) -> Planet {
        let angle = angle_sum(self.orbit_angle@, self.orbit_speed@);
        Planet {
            translation: Vec3 {
                x: Fixed::of(orbit_point(self.center_x@, self.orbit_radius@, cosine_fine(angle))),
                y: Fixed::of(orbit_point(self.center_y@, self.orbit_radius@, sine_fine(angle))),
                z: self.translation.z,
            },
            rotation: Vec3 {
                x: self.rotation.x,
                y: Fixed::of(turn_sum(self.rotation.y@, self.rotation_speed@)),
                z: self.rotation.z,
            },
            orbit_angle: Angle::of(angle),
            ..self
        }
    }

    /// The body after it has turned about its own axis for one update,
    /// without moving along its orbit.
    pub open spec fn turned(self) -> Planet {
        Planet {
            rotation: Vec3 {
                y: Fixed::of(turn_sum(self.rotation.y@, self.rotation_speed@)),
                ..self.rotation
            },
            ..self
        }
    }

    /// The body `n` updates later.
    pub open spec fn after_updates(self, n: nat) -> Planet
        decreases n,
    {
        if n == 0 {
            self
        } else {
            self.after_updates((n - 1) as nat).advanced()
        }
    }

    /// A body that circles the point (400, 300) in the plane `z = 0`,
    /// placed at `initial_angle`.
    pub fn new(
        orbit_radius: Fixed,
        scale: Fixed,
        orbit_speed: Angle,
        rotation_speed: Fixed,
        initial_angle: Angle,
    ) -> (p: Planet)
        ensures
            p.on_orbit(),
            p.translation.z@ == 0,
            p.rotation@ == (crate::vector::V3 { x: 0, y: 0, z: 0 }),
            p.scale == scale,
            p.orbit_speed == orbit_speed,
            p.rotation_speed == rotation_speed,
            p.orbit_radius == orbit_radius,
            p.orbit_angle == initial_angle,
            p.center_x@ == 400 * ONE,
            p.center_y@ == 300 * ONE,
    {
        let center_x = Fixed::from_int(400);
        let center_y = Fixed::from_int(300);
        let translation = Vec3::new(
            point_on_orbit(center_x, orbit_radius, initial_angle.cos_fine()),
            point_on_orbit(center_y, orbit_radius, initial_angle.sin_fine()),
            Fixed::zero(),
        );
        Planet {
            translation,
            rotation: Vec3::zero(),
            scale,
            orbit_speed,
            rotation_speed,
            orbit_radius,
            orbit_angle: initial_angle,
            center_x,
            center_y,
        }
    }

    /// One step of time: the angle on the orbit grows by the orbit speed,
    /// the body moves to that angle on its circle, and its own rotation
    /// grows by the rotation speed. The height `translation.z` stays.
    /// Where an angle would leave the range of the numbers, whole turns
    /// are taken off it, so that the body never comes to rest.
    pub fn update(&mut self)
        ensures
            *final(self) == old(self).advanced(),
            final(self).on_orbit(),
            final(self).orbit_angle@ == angle_sum(old(self).orbit_angle@, old(self).orbit_speed@),
            final(self).translation.z == old(self).translation.z,
    {
        self.orbit_angle = self.orbit_angle.add(self.orbit_speed);
        self.translation.x = point_on_orbit(
            self.center_x,
            self.orbit_radius,
            self.orbit_angle.cos_fine(),
        );
        self.translation.y = point_on_orbit(
            self.center_y,
            self.orbit_radius,
            self.orbit_angle.sin_fine(),
        );
        self.rotation.y = add_turns(self.rotation.y, self.rotation_speed);
    }
}

/// After `n` updates the angle on the orbit is the angle at the start
/// plus `n` times the orbit speed, up to whole turns; the orbit itself
/// and the height are as they were, and the body is on its circle.
pub proof fn lemma_after_updates(p: Planet, n: nat)
    ensures
        p.after_updates(n).orbit_angle@ % (TWO_PI as int) == (p.orbit_angle@ + n
            * p.orbit_speed@) % (TWO_PI as int),
        p.after_updates(n).orbit_speed == p.orbit_speed,
        p.after_updates(n).orbit_radius == p.orbit_radius,
        p.after_updates(n).center_x == p.center_x,
        p.after_updates(n).center_y == p.center_y,
        p.after_updates(n).scale == p.scale,
        p.after_updates(n).translation.z == p.translation.z,
        n > 0 || p.on_orbit() ==> p.after_updates(n).on_orbit(),
    decreases n,
{
    let s = p.orbit_speed@;
    if n > 0 {
        let m = (n - 1) as nat;
        assert(n * s == m * s + s) by (nonlinear_arith)
            requires
                n == m + 1,
        ;
        lemma_after_updates(p, m);
        let before = p.after_updates(m);
        assert(p.after_updates(n) == before.advanced());
        lemma_angle_sum(before.orbit_angle@, s);
        vstd::arithmetic::div_mod::lemma_add_mod_noop(before.orbit_angle@, s, TWO_PI as int);
        vstd::arithmetic::div_mod::lemma_add_mod_noop(
            p.orbit_angle@ + m * s,
            s,
            TWO_PI as int,
        );
    } else {
        assert(n * s == 0) by (nonlinear_arith)
            requires
                n == 0,
        ;
    }
}

/// An orbit is periodic: when `n` steps of the orbit speed make up whole
/// turns, a body that stands on its circle is back at its place after
/// `n` updates, however long it has been under way.
pub proof fn lemma_orbit_periodic(p: Planet, n: nat, turns: int)
    requires
        p.on_orbit(),
        n * p.orbit_speed@ == turns * TWO_PI,
    ensures
        p.after_updates(n).translation == p.translation,
{
    lemma_after_updates(p, n);
    lemma_sine_periodic(p.orbit_angle@, turns);
    vstd::arithmetic::div_mod::lemma_mod_multiples_vanish(
        turns,
        p.orbit_angle@,
        TWO_PI as int,
    );
    assert(turns * TWO_PI == TWO_PI * turns) by (nonlinear_arith);
}

/// A body without orbit radius stays at the centre of its orbit.
pub proof fn lemma_no_radius_stays_at_center(p: Planet)
    requires
        p.orbit_radius@ == 0,
    ensures
        p.advanced().translation.x == p.center_x,
        p.advanced().translation.y == p.center_y,
{
    let angle = angle_sum(p.orbit_angle@, p.orbit_speed@);
    assert(0 * cosine_fine(angle) == 0 && 0 * sine_fine(angle) == 0) by (nonlinear_arith);
    crate::trig::lemma_nearest_of_zero(0x1_0000_0000);
}

} // verus!
