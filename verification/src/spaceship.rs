//! An object that keeps its place in front of the camera.
use vstd::prelude::*;
use crate::camera::Camera;
use crate::fixed::{Fixed, ONE, saturate, saturate_i128, lemma_mul_bounds};
use crate::trig::{
    Angle, arctan2_fine, arcsine_fine, nearest, div_nearest, turn_sum, add_turns, QUARTER_TURN,
};
use crate::vector::{Vec3, V3, v3_add, v3_sub, v3_unit_fine, fine_unit, cross_scaled};

verus! {

/// An object placed relative to the camera. `offset` is given along the
/// camera's right, up and backward directions, `rotation` is added to the
/// orientation that faces along the view.
#[derive(Clone, Copy, Debug, PartialEq, Eq, Structural)]
pub struct Spaceship {
    pub offset: Vec3,
    pub rotation: Vec3,
    pub scale: Fixed,
}

/// The unit vector from the eye toward the centre of view, in fine
/// units.
pub open spec fn view_forward(eye: V3, center: V3) -> V3 {
    v3_unit_fine(v3_sub(center, eye))
}

/// One coordinate of the ship's place: the eye's, plus the offset's
/// first coordinate along the camera's right, its second along the
/// camera's true up, and the negative of its third along the view, all
/// three in fine units and rounded once.
pub open spec fn placed_along(eye: int, right: int, above: int, ahead: int, offset: V3) -> int {
    saturate(
        eye + nearest(right * offset.x + above * offset.y - ahead * offset.z, 0x1_0000_0000),
    )
}

/// The place in the world of an object at `offset` from a camera: the eye,
/// plus the offset's first coordinate along the camera's right, its second
/// along the camera's true up, and the negative of its third along the
/// view.
pub open spec fn placed(offset: V3, eye: V3, center: V3, up: V3) -> V3 {
    let forward = view_forward(eye, center);
    let right = fine_unit(cross_scaled(forward, up, ONE as int));
    let true_up = fine_unit(cross_scaled(right, forward, 0x1_0000_0000));
    V3 {
        x: placed_along(eye.x, right.x, true_up.x, forward.x, offset),
        y: placed_along(eye.y, right.y, true_up.y, forward.y, offset),
        z: placed_along(eye.z, right.z, true_up.z, forward.z, offset),
    }
}

/// The Euler angles of an object that faces along the view of a camera,
/// with `rotation` added: the pitch from the view's second coordinate,
/// the yaw from its third and first plus a quarter turn.
pub open spec fn oriented(rotation: V3, eye: V3, center: V3) -> V3 {
    let forward = view_forward(eye, center);
    let yaw = saturate(nearest(arctan2_fine(forward.z, forward.x), 65536));
    let pitch = saturate(nearest(arcsine_fine(-forward.y), 65536));
    V3 {
        x: turn_sum(pitch, rotation.x),
        y: turn_sum(turn_sum(yaw, rotation.y), QUARTER_TURN as int),
        z: rotation.z,
    }
}

/// One coordinate of the ship's place.
fn place_along(eye: Fixed, right: i64, above: i64, ahead: i64, offset: &Vec3) -> (p: Fixed)
    requires
        -0x1_0000_0000 <= right <= 0x1_0000_0000,
        -0x1_0000_0000 <= above <= 0x1_0000_0000,
        -0x1_0000_0000 <= ahead <= 0x1_0000_0000,
    ensures
        p@ == placed_along(eye@, right as int, above as int, ahead as int, offset@),
{
    proof {
        lemma_mul_bounds(right as int, offset.x@, 0x1_0000_0000, 0x8000_0000);
        lemma_mul_bounds(above as int, offset.y@, 0x1_0000_0000, 0x8000_0000);
        lemma_mul_bounds(ahead as int, offset.z@, 0x1_0000_0000, 0x8000_0000);
    }
    let wide: i128 = right as i128 * offset.x.raw as i128 + above as i128 * offset.y.raw as i128
        - ahead as i128 * offset.z.raw as i128;
    let shift: i128 = div_nearest(wide, 0x1_0000_0000);
    Fixed { raw: saturate_i128(eye.raw as i128 + shift) }
}

impl Spaceship {
    /// A ship of scale 10 that sits 40 to the right of, 30 below and 100
    /// in front of the eye.
    pub fn new() -> (s: Spaceship)
        ensures
            s.offset@ == (V3 { x: 40 * ONE, y: -30 * ONE, z: -100 * ONE }),
            s.rotation@ == (V3 { x: 0, y: 0, z: 0 }),
            s.scale@ == 10 * ONE,
    {
        Spaceship {
            offset: Vec3::from_ints(40, -30, -100),
            rotation: Vec3::zero(),
            scale: Fixed::from_int(10),
        }
    }

    /// The place of the ship in the world, as seen through `camera`.
    pub fn get_world_position(&self, camera: &Camera) -> (p: Vec3)
        ensures
            p@ == placed(self.offset@, camera.eye@, camera.center@, camera.up@),
    {
        let forward = camera.center.sub(&camera.eye).unit_fine();
        let right = forward.cross(&camera.up).normalize();
        let up = right.cross_fine(&forward).normalize();
        Vec3 {
            x: place_along(camera.eye.x, right.x, up.x, forward.x, &self.offset),
            y: place_along(camera.eye.y, right.y, up.y, forward.y, &self.offset),
            z: place_along(camera.eye.z, right.z, up.z, forward.z, &self.offset),
        }
    }

    /// The Euler angles of the ship in the world, as seen through
    /// `camera`.
    pub fn get_world_rotation(&self, camera: &Camera) -> (r: Vec3)
        ensures
            r@ == oriented(self.rotation@, camera.eye@, camera.center@),
    {
        let forward = camera.center.sub(&camera.eye).unit_fine();
        let yaw = Angle::of_fine_point(forward.z, forward.x).to_fixed();
        let pitch = Angle::of_sine(-forward.y).to_fixed();
        Vec3 {
            x: add_turns(pitch, self.rotation.x),
            y: add_turns(add_turns(yaw, self.rotation.y), Fixed::from_raw(QUARTER_TURN)),
            z: self.rotation.z,
        }
    }

    /// Moves the ship relative to the camera.
    pub fn adjust_offset(&mut self, delta_x: Fixed, delta_y: Fixed, delta_z: Fixed)
        ensures
            final(self).offset@ == v3_add(
                old(self).offset@,
                V3 { x: delta_x@, y: delta_y@, z: delta_z@ },
            ),
            final(self).rotation == old(self).rotation,
            final(self).scale == old(self).scale,
    {
        self.offset.x = self.offset.x.add(delta_x);
        self.offset.y = self.offset.y.add(delta_y);
        self.offset.z = self.offset.z.add(delta_z);
    }
}

} // verus!
