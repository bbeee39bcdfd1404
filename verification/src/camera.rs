//! The camera: its orbital and free-look controls, its two ways to warp,
//! and the view and projection matrices that follow from its state.
use vstd::prelude::*;
use crate::fixed::{Fixed, Fine, ONE, saturate, product, quotient, clamped};
use crate::planet::{orbit_point, point_on_orbit};
use crate::trig::{
    Angle, sine_fine, cosine_fine, fine_ratio, arctan2_fine, angle_sum, fine_times, mul_fine,
    HALF_PI, QUARTER_PI,
};
use crate::vector::{
    Vec3, Vec4, Mat4, V3, V4, M4, v3_add, v3_sub, v3_scale_fine, v3_unit_fine, fine_unit,
    cross_scaled, dot_fine, v3_rounded, v3_length,
    norm_sq, lemma_zero_has_no_length,
};

verus! {

/// Raw value of the least distance of the eye from the centre, 50.
pub const MIN_RADIUS: i32 = 50 * ONE;

/// Raw value of the greatest distance of the eye from the centre, 800.
pub const MAX_RADIUS: i32 = 800 * ONE;

/// The steepest pitch in fine units, a tenth of a radian short of π/2.
pub const PITCH_LIMIT: i64 = HALF_PI - 429496730;

/// The vertical field of view, 45 degrees or π/4, in fine units.
pub const FIELD_OF_VIEW: i64 = QUARTER_PI;

/// Raw value of the distance of the near plane, 0.1.
pub const NEAR_PLANE: i32 = 6554;

/// Raw value of the distance of the far plane, 1000.
pub const FAR_PLANE: i32 = 1000 * ONE;

/// The state of the camera.
#[derive(Clone, Copy, Debug, PartialEq, Eq, Structural)]
pub struct Camera {
    pub eye: Vec3,
    pub center: Vec3,
    pub up: Vec3,
    pub has_changed: bool,
    /// Angle of the eye about the centre, in the plane of x and y.
    pub angle: Angle,
    /// Distance of the eye from the centre.
    pub radius: Fixed,
    /// Height of the eye above the plane.
    pub height: Fixed,
    /// Free-look pitch.
    pub pitch: Angle,
    /// Free-look yaw.
    pub yaw: Angle,
}

/// The view matrix of an eye at `eye` that looks at `center`, with `up`
/// pointing upward: its rows are the right, the true up and the backward
/// direction of the camera, each with the eye's offset along it. The
/// three directions are taken in fine units, and every entry is rounded
/// once.
pub open spec fn look_at(eye: V3, center: V3, up: V3) -> M4 {
    let f = v3_unit_fine(v3_sub(center, eye));
    let s = fine_unit(cross_scaled(f, up, ONE as int));
    let u = cross_scaled(s, f, 0x1_0000_0000);
    let right = v3_rounded(s);
    let above = v3_rounded(u);
    let ahead = v3_rounded(f);
    M4 {
        r0: V4 { x: right.x, y: right.y, z: right.z, w: saturate(-dot_fine(s, eye)) },
        r1: V4 { x: above.x, y: above.y, z: above.z, w: saturate(-dot_fine(u, eye)) },
        r2: V4 {
            x: saturate(-ahead.x),
            y: saturate(-ahead.y),
            z: saturate(-ahead.z),
            w: dot_fine(f, eye),
        },
        r3: V4 { x: 0, y: 0, z: 0, w: ONE as int },
    }
}

/// The matrix of a right-handed perspective view with depths from minus
/// one to one: `aspect` is the raw ratio of width to height, `fovy` the
/// vertical field of view in fine units, `near` and `far` the raw
/// distances of the two planes.
pub open spec fn perspective(aspect: int, fovy: int, near: int, far: int) -> M4 {
    let focal = fine_ratio(cosine_fine(fovy / 2), sine_fine(fovy / 2));
    let depth = saturate(far - near);
    M4 {
        r0: V4 { x: quotient(focal, aspect), y: 0, z: 0, w: 0 },
        r1: V4 { x: 0, y: focal, z: 0, w: 0 },
        r2: V4 {
            x: 0,
            y: 0,
            z: quotient(saturate(-saturate(far + near)), depth),
            w: quotient(saturate(-product(product(2 * ONE, far), near)), depth),
        },
        r3: V4 { x: 0, y: 0, z: -(ONE as int), w: 0 },
    }
}

/// The distance at which a warp puts the eye: the distance asked for,
/// brought into the range of the radius.
pub open spec fn warp_radius(distance: int) -> int {
    clamped(distance, MIN_RADIUS as int, MAX_RADIUS as int)
}

impl Camera {
    /// Where the eye stands on the circle of the orbital mode, for the
    /// given centre and raw radius; the third coordinate is `z`.
    pub open spec fn eye_on_circle(self, center: V3, radius: int, z: int) -> V3 {
        V3 {
            x: orbit_point(center.x, radius, cosine_fine(self.angle@)),
            y: orbit_point(center.y, radius, sine_fine(self.angle@)),
            z,
        }
    }

    /// The camera after `orbit`.
    pub open spec fn orbited(self, delta_angle: int) -> Camera {
        let turned = Camera { angle: Angle::of(angle_sum(self.angle@, delta_angle)), ..self };
        Camera {
            eye: Vec3::of(turned.eye_on_circle(self.center@, self.radius@, self.eye.z@)),
            has_changed: true,
            ..turned
        }
    }

    /// The camera after `zoom`.
    pub open spec fn zoomed(self, delta: int) -> Camera {
        let radius = clamped(saturate(self.radius@ + delta), MIN_RADIUS as int, MAX_RADIUS as int);
        Camera {
            eye: Vec3::of(self.eye_on_circle(self.center@, radius, self.eye.z@)),
            radius: Fixed::of(radius),
            has_changed: true,
            ..self
        }
    }

    /// The camera after `change_height`.
    pub open spec fn lifted(self, delta: int) -> Camera {
        let height = Fixed::of(saturate(self.height@ + delta));
        Camera { eye: Vec3 { z: height, ..self.eye }, height, has_changed: true, ..self }
    }

    /// The camera after `rotate_3d`.
    pub open spec fn rotated(self, delta_yaw: int, delta_pitch: int) -> Camera {
        let yaw = angle_sum(self.yaw@, delta_yaw);
        let pitch = clamped(self.pitch@ + delta_pitch, -(PITCH_LIMIT as int), PITCH_LIMIT as int);
        let r = self.radius@;
        Camera {
            eye: Vec3::of(
                V3 {
                    x: orbit_point(
                        self.center.x@,
                        r,
                        fine_times(cosine_fine(yaw), cosine_fine(pitch)),
                    ),
                    y: orbit_point(
                        self.center.y@,
                        r,
                        fine_times(sine_fine(yaw), cosine_fine(pitch)),
                    ),
                    z: orbit_point(self.center.z@, r, sine_fine(pitch)),
                },
            ),
            yaw: Angle::of(yaw),
            pitch: Angle::of(pitch),
            has_changed: true,
            ..self
        }
    }

    /// Whether the distance of the eye from the centre is in its range,
    /// from 50 to 800.
    pub open spec fn radius_in_range(self) -> bool {
        MIN_RADIUS <= self.radius@ <= MAX_RADIUS
    }

    /// Where the eye belongs once a warp to `target` at `distance` is
    /// over: on the circle about the target at the current angle, at the
    /// distance brought into the range of the radius, lifted by the
    /// current height.
    pub open spec fn warp_eye(self, target: V3, distance: int) -> V3 {
        self.eye_on_circle(target, warp_radius(distance), saturate(target.z + self.height@))
    }

    /// The camera after `warp_to`.
    pub open spec fn warped(self, target: Vec3, distance: Fixed) -> Camera {
        Camera {
            eye: Vec3::of(self.warp_eye(target@, distance@)),
            center: target,
            radius: Fixed::of(warp_radius(distance@)),
            has_changed: true,
            ..self
        }
    }

    /// Whether both the centre and the eye are less than one unit away
    /// from where a warp to `target` at `distance` takes them.
    pub open spec fn warp_arrived(self, target: V3, distance: int) -> bool {
        &&& norm_sq(v3_sub(target, self.center@)) < ONE * ONE
        &&& norm_sq(v3_sub(self.warp_eye(target, distance), self.eye@)) < ONE * ONE
    }

    /// The camera after one call of `animated_warp_to`.
    pub open spec fn warp_stepped(self, target: Vec3, distance: Fixed, speed: Fine) -> Camera {
        if self.warp_arrived(target@, distance@) {
            self.warped(target, distance)
        } else {
            let to_center = v3_sub(target@, self.center@);
            let to_eye = v3_sub(self.warp_eye(target@, distance@), self.eye@);
            Camera {
                center: Vec3::of(v3_add(self.center@, v3_scale_fine(to_center, speed@))),
                eye: Vec3::of(v3_add(self.eye@, v3_scale_fine(to_eye, speed@))),
                has_changed: true,
                ..self
            }
        }
    }

    /// A camera at `eye` that looks at `center`. Its orbital state is read
    /// off the eye: the angle from the eye's offset in the plane, the
    /// radius from the length of that offset, brought into the range from
    /// 50 to 800, the height from the eye's third coordinate. The yaw
    /// starts at the angle and the pitch at zero.
    pub fn new(eye: Vec3, center: Vec3, up: Vec3) -> (c: Camera)
        ensures
            c.eye == eye,
            c.center == center,
            c.up == up,
            c.has_changed,
            c.radius@ == clamped(
                v3_length(
                    V3 { x: saturate(eye.x@ - center.x@), y: saturate(eye.y@ - center.y@), z: 0 },
                ),
                MIN_RADIUS as int,
                MAX_RADIUS as int,
            ),
            c.radius_in_range(),
            c.angle@ == arctan2_fine(saturate(eye.y@ - center.y@), saturate(eye.x@ - center.x@)),
            c.height == eye.z,
            c.pitch@ == 0,
            c.yaw == c.angle,
    {
        let dx = eye.x.sub(center.x);
        let dy = eye.y.sub(center.y);
        let radius = Vec3::new(dx, dy, Fixed::zero()).length().clamp(
            Fixed::from_raw(MIN_RADIUS),
            Fixed::from_raw(MAX_RADIUS),
        );
        let angle = Angle::of_point(dy, dx);
        Camera {
            eye,
            center,
            up,
            has_changed: true,
            angle,
            radius,
            height: eye.z,
            pitch: Angle::zero(),
            yaw: angle,
        }
    }

    /// The eye on its circle about `center` at `radius`, at height `z`.
    fn circle_eye(&self, center: &Vec3, radius: Fixed, z: Fixed) -> (e: Vec3)
        ensures
            e@ == self.eye_on_circle(center@, radius@, z@),
            e == Vec3::of(self.eye_on_circle(center@, radius@, z@)),
    {
        Vec3 {
            x: point_on_orbit(center.x, radius, self.angle.cos_fine()),
            y: point_on_orbit(center.y, radius, self.angle.sin_fine()),
            z,
        }
    }

    /// Turns the eye about the centre by `delta_angle`, in the plane. The
    /// height of the eye stays. Where the angle would leave the range of
    /// the numbers, whole turns are taken off it.
    pub fn orbit(&mut self, delta_angle: Angle)
        ensures
            *final(self) == old(self).orbited(delta_angle@),
            final(self).radius == old(self).radius,
            final(self).has_changed,
    {
        self.angle = self.angle.add(delta_angle);
        self.eye = self.circle_eye(&self.center, self.radius, self.eye.z);
        self.has_changed = true;
    }

    /// Moves the eye toward or away from the centre by `delta`, never
    /// nearer than 50 nor farther than 800.
    pub fn zoom(&mut self, delta: Fixed)
        ensures
            *final(self) == old(self).zoomed(delta@),
            MIN_RADIUS <= final(self).radius@ <= MAX_RADIUS,
            final(self).has_changed,
    {
        self.radius = self.radius.add(delta).max(Fixed::from_raw(MIN_RADIUS)).min(
            Fixed::from_raw(MAX_RADIUS),
        );
        self.eye = self.circle_eye(&self.center, self.radius, self.eye.z);
        self.has_changed = true;
    }

    /// Raises the eye by `delta`.
    pub fn change_height(&mut self, delta: Fixed)
        ensures
            *final(self) == old(self).lifted(delta@),
            final(self).radius == old(self).radius,
            final(self).has_changed,
    {
        self.height = self.height.add(delta);
        self.eye.z = self.height;
        self.has_changed = true;
    }

    /// Free look: adds to yaw and pitch, keeps the pitch within the pitch
    /// limit, and puts the eye on the sphere about the centre.
    pub fn rotate_3d(&mut self, delta_yaw: Angle, delta_pitch: Angle)
        ensures
            *final(self) == old(self).rotated(delta_yaw@, delta_pitch@),
            -PITCH_LIMIT <= final(self).pitch@ <= PITCH_LIMIT,
            -HALF_PI < final(self).pitch@ < HALF_PI,
            final(self).radius == old(self).radius,
            final(self).has_changed,
    {
        self.yaw = self.yaw.add(delta_yaw);
        self.pitch = self.pitch.add_within(delta_pitch, Angle::from_raw(PITCH_LIMIT));
        let level = self.pitch.cos_fine();
        self.eye = Vec3 {
            x: point_on_orbit(self.center.x, self.radius, mul_fine(self.yaw.cos_fine(), level)),
            y: point_on_orbit(self.center.y, self.radius, mul_fine(self.yaw.sin_fine(), level)),
            z: point_on_orbit(self.center.z, self.radius, self.pitch.sin_fine()),
        };
        self.has_changed = true;
    }

    /// Where the eye belongs after a warp to `target` at `distance`.
    fn target_eye(&self, target: &Vec3, distance: Fixed) -> (e: Vec3)
        ensures
            e@ == self.warp_eye(target@, distance@),
            e == Vec3::of(self.warp_eye(target@, distance@)),
    {
        let radius = distance.clamp(Fixed::from_raw(MIN_RADIUS), Fixed::from_raw(MAX_RADIUS));
        self.circle_eye(target, radius, target.z.add(self.height))
    }

    /// Moves the centre to `target` at once, and the eye to `distance`
    /// from it at the current angle and height. A distance below 50 or
    /// above 800 is brought to that end of the range.
    pub fn warp_to(&mut self, target: Vec3, distance: Fixed)
        ensures
            *final(self) == old(self).warped(target, distance),
            final(self).center == target,
            final(self).radius@ == warp_radius(distance@),
            final(self).radius_in_range(),
            final(self).has_changed,
    {
        self.eye = self.target_eye(&target, distance);
        self.center = target;
        self.radius = distance.clamp(Fixed::from_raw(MIN_RADIUS), Fixed::from_raw(MAX_RADIUS));
        self.has_changed = true;
    }

    /// One step of a gradual warp. While the centre or the eye is a unit
    /// or more away from where the warp takes it, both move the fraction
    /// `speed`, given in fine units, of their remaining way and the result
    /// is `false`. Once
    /// both are nearer, they are put exactly there, the radius becomes
    /// `distance`, and the result is `true`. A distance below 50 or above
    /// 800 counts as that end of the range.
    pub fn animated_warp_to(&mut self, target: Vec3, distance: Fixed, speed: Fine) -> (done: bool)
        ensures
            done == old(self).warp_arrived(target@, distance@),
            *final(self) == old(self).warp_stepped(target, distance, speed),
            done ==> final(self).center == target && final(self).radius@ == warp_radius(
                distance@,
            ),
            !done ==> final(self).radius == old(self).radius,
            old(self).radius_in_range() ==> final(self).radius_in_range(),
            final(self).has_changed,
    {
        let target_eye = self.target_eye(&target, distance);
        let diff_center = target.sub(&self.center);
        let diff_eye = target_eye.sub(&self.eye);
        if diff_center.norm_squared() < 4294967296 && diff_eye.norm_squared() < 4294967296 {
            self.center = target;
            self.eye = target_eye;
            self.radius = distance.clamp(Fixed::from_raw(MIN_RADIUS), Fixed::from_raw(MAX_RADIUS));
            self.has_changed = true;
            return true;
        }
        self.center = self.center.add(&diff_center.scale_fine(speed));
        self.eye = self.eye.add(&diff_eye.scale_fine(speed));
        self.has_changed = true;
        false
    }

    /// The matrix that takes the world into the camera's space.
    pub fn get_view_matrix(&self) -> (m: Mat4)
        ensures
            m@ == look_at(self.eye@, self.center@, self.up@),
    {
        let f = self.center.sub(&self.eye).unit_fine();
        let s = f.cross(&self.up).normalize();
        let u = s.cross_fine(&f);
        let right = s.round();
        let above = u.round();
        let ahead = f.round();
        Mat4 {
            r0: Vec4 { x: right.x, y: right.y, z: right.z, w: s.dot(&self.eye).neg() },
            r1: Vec4 { x: above.x, y: above.y, z: above.z, w: u.dot(&self.eye).neg() },
            r2: Vec4 {
                x: ahead.x.neg(),
                y: ahead.y.neg(),
                z: ahead.z.neg(),
                w: f.dot(&self.eye),
            },
            r3: Vec4 { x: Fixed::zero(), y: Fixed::zero(), z: Fixed::zero(), w: Fixed::one() },
        }
    }

    /// The perspective matrix for a window of the given size: a vertical
    /// field of view of 45 degrees, the near plane at 0.1 and the far
    /// plane at 1000.
    pub fn get_projection_matrix(&self, window_width: Fixed, window_height: Fixed) -> (m: Mat4)
        ensures
            m@ == perspective(
                quotient(window_width@, window_height@),
                FIELD_OF_VIEW as int,
                NEAR_PLANE as int,
                FAR_PLANE as int,
            ),
    {
        let aspect = window_width.div(window_height);
        let near = Fixed::from_raw(NEAR_PLANE);
        let far = Fixed::from_raw(FAR_PLANE);
        let focal = Angle::from_raw(FIELD_OF_VIEW / 2).cot();
        let depth = far.sub(near);
        let one = Fixed::one();
        let z = Fixed::zero();
        Mat4 {
            r0: Vec4 { x: focal.div(aspect), y: z, z: z, w: z },
            r1: Vec4 { x: z, y: focal, z: z, w: z },
            r2: Vec4 {
                x: z,
                y: z,
                z: far.add(near).neg().div(depth),
                w: Fixed::from_int(2).mul(far).mul(near).neg().div(depth),
            },
            r3: Vec4 { x: z, y: z, z: one.neg(), w: z },
        }
    }
}

/// A warp that is over stays over: once `animated_warp_to` has reported
/// that it arrived, another call with the same target and distance, at
/// whatever speed, reports the same at once and leaves the camera as it
/// is.
pub proof fn lemma_warp_idempotent(
    c: Camera,
    target: Vec3,
    distance: Fixed,
    speed: Fine,
    again: Fine,
)
    requires
        c.warp_arrived(target@, distance@),
    ensures
        c.warp_stepped(target, distance, speed).warp_arrived(target@, distance@),
        c.warp_stepped(target, distance, speed).warp_stepped(target, distance, again)
            == c.warp_stepped(target, distance, speed),
{
    let d = c.warp_stepped(target, distance, speed);
    assert(d.warp_eye(target@, distance@) == c.warp_eye(target@, distance@));
    assert(d.eye@ == c.warp_eye(target@, distance@));
    let z = V3 { x: 0, y: 0, z: 0 };
    assert(v3_sub(target@, d.center@) == z);
    assert(v3_sub(d.warp_eye(target@, distance@), d.eye@) == z);
    lemma_zero_has_no_length();
}

} // verus!
