//! The whole scene: a star, five planets, a camera and a ship, the way
//! they answer to the keys from frame to frame, and the way they are
//! drawn.
use vstd::prelude::*;
use crate::camera::{
    Camera, look_at, perspective, FIELD_OF_VIEW, NEAR_PLANE, FAR_PLANE, MIN_RADIUS,
};
use crate::color::Color;
use crate::fixed::{Fixed, Fine, ONE, saturate, quotient};
use crate::fragment::Fragment;
use crate::planet::Planet;
use crate::render::{
    PlanetType, Uniforms, create_model_matrix, create_viewport_matrix, render, rendered,
    model_matrix, viewport_matrix,
};
use crate::spaceship::{Spaceship, placed, oriented};
use crate::trig::{Angle, add_turns, QUARTER_PI, HALF_PI, PI};
use crate::vector::{Vec3, Mat4, V3, v3_add, lemma_zero_has_no_length, lemma_matrix_of_view};
use crate::vertex::Vertex;

verus! {

/// The angle by which one frame turns the camera, 0.05, in fine units.
pub const TURN_STEP: i64 = 214748365;

/// Raw value of the distance by which one frame zooms or lifts, 5.
pub const MOVE_STEP: i32 = 5 * ONE;

/// Raw value of the distance from a planet at which a warp ends, 150.
pub const WARP_DISTANCE: i32 = 150 * ONE;

/// Raw value of the distance from the sun at which a warp to it ends, 200.
pub const SUN_WARP_DISTANCE: i32 = 200 * ONE;

/// The share of the remaining way that one frame of a warp covers, 0.05,
/// in fine units.
pub const WARP_SPEED: i64 = 214748365;

/// The color of the sun.
pub const SUN_COLOR: u32 = 0xFFDD00;

/// The color of the ship.
pub const SHIP_COLOR: u32 = 0xCCCCCC;

/// The keys of one frame. The fields up to `ship_farther` say which keys
/// are held down, the others which keys were pressed since the frame
/// before.
#[derive(Clone, Copy, Debug, PartialEq, Eq, Structural)]
pub struct Input {
    pub left: bool,
    pub right: bool,
    pub up: bool,
    pub down: bool,
    pub zoom_in: bool,
    pub zoom_out: bool,
    pub raise: bool,
    pub lower: bool,
    pub ship_up: bool,
    pub ship_down: bool,
    pub ship_left: bool,
    pub ship_right: bool,
    pub ship_nearer: bool,
    pub ship_farther: bool,
    pub toggle_3d: bool,
    pub warp_first: bool,
    pub warp_second: bool,
    pub warp_third: bool,
    pub warp_fourth: bool,
    pub warp_fifth: bool,
    pub warp_sun: bool,
}

/// What happened in one frame that a caller may want to tell the user.
#[derive(Clone, Copy, Debug, PartialEq, Eq, Structural)]
pub struct Events {
    pub ship_moved: bool,
    /// Where each key that moved the ship left it.
    pub ship_trail: ShipTrail,
    pub mode_toggled: bool,
    pub warp_started: Option<usize>,
    pub warp_to_sun: bool,
    pub warp_completed: bool,
}

/// The offset of the ship after each of the six keys that move it, in
/// the order in which a frame treats them; `None` for a key that is not
/// held down.
#[derive(Clone, Copy, Debug, PartialEq, Eq, Structural)]
pub struct ShipTrail {
    pub up: Option<Vec3>,
    pub down: Option<Vec3>,
    pub left: Option<Vec3>,
    pub right: Option<Vec3>,
    pub nearer: Option<Vec3>,
    pub farther: Option<Vec3>,
}

/// A planet with its kind of surface and its color `0xRRGGBB`.
#[derive(Clone, Copy, Debug, PartialEq, Eq, Structural)]
pub struct Body {
    pub planet: Planet,
    pub kind: PlanetType,
    pub color: u32,
}

/// The state of the scene between frames.
#[derive(Debug)]
pub struct Scene {
    pub camera: Camera,
    pub spaceship: Spaceship,
    pub sun: Planet,
    pub bodies: Vec<Body>,
    /// The planet that a warp is under way to, if any.
    pub warp_target_index: Option<usize>,
    pub warp_in_progress: bool,
    /// Whether the arrow keys look around freely instead of orbiting.
    pub mode_3d: bool,
}

impl Input {
    /// No key at all.
    pub fn none() -> (i: Input)
        ensures
            i == Input::idle(),
    {
        Input {
            left: false,
            right: false,
            up: false,
            down: false,
            zoom_in: false,
            zoom_out: false,
            raise: false,
            lower: false,
            ship_up: false,
            ship_down: false,
            ship_left: false,
            ship_right: false,
            ship_nearer: false,
            ship_farther: false,
            toggle_3d: false,
            warp_first: false,
            warp_second: false,
            warp_third: false,
            warp_fourth: false,
            warp_fifth: false,
            warp_sun: false,
        }
    }

    /// No key at all.
    pub open spec fn idle() -> Input {
        Input {
            left: false,
            right: false,
            up: false,
            down: false,
            zoom_in: false,
            zoom_out: false,
            raise: false,
            lower: false,
            ship_up: false,
            ship_down: false,
            ship_left: false,
            ship_right: false,
            ship_nearer: false,
            ship_farther: false,
            toggle_3d: false,
            warp_first: false,
            warp_second: false,
            warp_third: false,
            warp_fourth: false,
            warp_fifth: false,
            warp_sun: false,
        }
    }

    /// The planet that the warp keys of this frame choose: the last in
    /// the row of those pressed.
    pub open spec fn warp_choice(self) -> Option<usize> {
        if self.warp_fifth {
            Some(4usize)
        } else if self.warp_fourth {
            Some(3usize)
        } else if self.warp_third {
            Some(2usize)
        } else if self.warp_second {
            Some(1usize)
        } else if self.warp_first {
            Some(0usize)
        } else {
            None
        }
    }

    /// Whether a key that moves the ship is held down.
    pub open spec fn moves_ship(self) -> bool {
        self.ship_up || self.ship_down || self.ship_left || self.ship_right || self.ship_nearer
            || self.ship_farther
    }

    /// The offset of the ship after each of the six keys in turn, whether
    /// held down or not.
    pub open spec fn ship_steps(self, offset: V3) -> (V3, V3, V3, V3, V3, V3) {
        let a = if self.ship_up {
            v3_add(offset, V3 { x: 0, y: ONE as int, z: 0 })
        } else {
            offset
        };
        let b = if self.ship_down {
            v3_add(a, V3 { x: 0, y: -(ONE as int), z: 0 })
        } else {
            a
        };
        let c = if self.ship_left {
            v3_add(b, V3 { x: -(ONE as int), y: 0, z: 0 })
        } else {
            b
        };
        let d = if self.ship_right {
            v3_add(c, V3 { x: ONE as int, y: 0, z: 0 })
        } else {
            c
        };
        let e = if self.ship_nearer {
            v3_add(d, V3 { x: 0, y: 0, z: -(ONE as int) })
        } else {
            d
        };
        let f = if self.ship_farther {
            v3_add(e, V3 { x: 0, y: 0, z: ONE as int })
        } else {
            e
        };
        (a, b, c, d, e, f)
    }

    /// Where each key that is held down leaves the ship.
    pub open spec fn ship_trail(self, offset: V3) -> ShipTrail {
        let steps = self.ship_steps(offset);
        ShipTrail {
            up: if self.ship_up {
                Some(Vec3::of(steps.0))
            } else {
                None
            },
            down: if self.ship_down {
                Some(Vec3::of(steps.1))
            } else {
                None
            },
            left: if self.ship_left {
                Some(Vec3::of(steps.2))
            } else {
                None
            },
            right: if self.ship_right {
                Some(Vec3::of(steps.3))
            } else {
                None
            },
            nearer: if self.ship_nearer {
                Some(Vec3::of(steps.4))
            } else {
                None
            },
            farther: if self.ship_farther {
                Some(Vec3::of(steps.5))
            } else {
                None
            },
        }
    }

    /// How far the keys of this frame move the ship, as raw offsets: one
    /// unit up or down, left or right, nearer or farther.
    pub open spec fn ship_shift(self, offset: V3) -> V3 {
        let a = if self.ship_up {
            v3_add(offset, V3 { x: 0, y: ONE as int, z: 0 })
        } else {
            offset
        };
        let b = if self.ship_down {
            v3_add(a, V3 { x: 0, y: -(ONE as int), z: 0 })
        } else {
            a
        };
        let c = if self.ship_left {
            v3_add(b, V3 { x: -(ONE as int), y: 0, z: 0 })
        } else {
            b
        };
        let d = if self.ship_right {
            v3_add(c, V3 { x: ONE as int, y: 0, z: 0 })
        } else {
            c
        };
        let e = if self.ship_nearer {
            v3_add(d, V3 { x: 0, y: 0, z: -(ONE as int) })
        } else {
            d
        };
        if self.ship_farther {
            v3_add(e, V3 { x: 0, y: 0, z: ONE as int })
        } else {
            e
        }
    }
}

/// The camera after the keys that turn it: in the plane while `mode_3d`
/// is off, freely while it is on.
pub open spec fn camera_turned(c: Camera, mode_3d: bool, input: Input) -> Camera {
    if !mode_3d {
        let a = if input.left {
            c.orbited(TURN_STEP as int)
        } else {
            c
        };
        if input.right {
            a.orbited(-(TURN_STEP as int))
        } else {
            a
        }
    } else {
        let a = if input.left {
            c.rotated(TURN_STEP as int, 0)
        } else {
            c
        };
        let b = if input.right {
            a.rotated(-(TURN_STEP as int), 0)
        } else {
            a
        };
        let d = if input.up {
            b.rotated(0, TURN_STEP as int)
        } else {
            b
        };
        if input.down {
            d.rotated(0, -(TURN_STEP as int))
        } else {
            d
        }
    }
}

/// The camera after the keys that zoom and lift it.
pub open spec fn camera_moved(c: Camera, input: Input) -> Camera {
    let a = if input.zoom_in {
        c.zoomed(-(MOVE_STEP as int))
    } else {
        c
    };
    let b = if input.zoom_out {
        a.zoomed(MOVE_STEP as int)
    } else {
        a
    };
    let d = if input.raise {
        b.lifted(MOVE_STEP as int)
    } else {
        b
    };
    if input.lower {
        d.lifted(-(MOVE_STEP as int))
    } else {
        d
    }
}

impl Body {
    /// The body one update later.
    pub open spec fn advanced(self) -> Body {
        Body { planet: self.planet.advanced(), ..self }
    }
}

/// The map from a body to the body one update later.
pub open spec fn body_step() -> spec_fn(Body) -> Body {
    |b: Body| b.advanced()
}

impl Scene {
    /// The planet that a warp is under way to after the keys of a frame.
    pub open spec fn next_target(self, input: Input) -> Option<usize> {
        match input.warp_choice() {
            Some(i) => Some(i),
            None => self.warp_target_index,
        }
    }

    /// Whether a warp is under way after the keys of a frame, before the
    /// warp itself takes its step.
    pub open spec fn warp_pending(self, input: Input) -> bool {
        input.warp_choice().is_some() || self.warp_in_progress
    }

    /// Whether this frame moves the camera one step of a warp: one is
    /// under way, and its target is one of the bodies.
    pub open spec fn warp_steps(self, input: Input) -> bool {
        self.warp_pending(input) && match self.next_target(input) {
            Some(i) => i < self.bodies@.len(),
            None => false,
        }
    }

    /// The camera before the step of a warp: turned, moved, and put at the
    /// sun if that key was pressed.
    pub open spec fn camera_before_warp(self, input: Input) -> Camera {
        let c = camera_moved(camera_turned(self.camera, self.mode_3d, input), input);
        if input.warp_sun {
            c.warped(self.sun.translation, Fixed::of(SUN_WARP_DISTANCE as int))
        } else {
            c
        }
    }

    /// Where the warp of this frame leads.
    pub open spec fn warp_goal(self, input: Input) -> Vec3 {
        self.bodies@[self.next_target(input).unwrap() as int].planet.translation
    }

    /// The camera at the end of a frame.
    pub open spec fn next_camera(self, input: Input) -> Camera {
        let c = self.camera_before_warp(input);
        if self.warp_steps(input) {
            c.warp_stepped(
                self.warp_goal(input),
                Fixed::of(WARP_DISTANCE as int),
                Fine::of(WARP_SPEED as int),
            )
        } else {
            c
        }
    }

    /// Whether the warp of this frame arrives.
    pub open spec fn warp_arrives(self, input: Input) -> bool {
        self.warp_steps(input) && self.camera_before_warp(input).warp_arrived(
            self.warp_goal(input)@,
            WARP_DISTANCE as int,
        )
    }

    /// The view, projection and viewport matrices of a frame on a screen
    /// of `width` by `height` pixels.
    #[verifier::opaque]
    pub open spec fn camera_matrices(self, width: int, height: int) -> (Mat4, Mat4, Mat4) {
        let w = saturate(width * ONE);
        let h = saturate(height * ONE);
        (
            Mat4::of(look_at(self.camera.eye@, self.camera.center@, self.camera.up@)),
            Mat4::of(
                perspective(
                    quotient(w, h),
                    FIELD_OF_VIEW as int,
                    NEAR_PLANE as int,
                    FAR_PLANE as int,
                ),
            ),
            Mat4::of(viewport_matrix(w, h)),
        )
    }

    /// The matrices with which an object at the given place, of the given
    /// scale and Euler angles, is drawn on a screen of `width` by `height`
    /// pixels.
    pub open spec fn uniforms_of(
        self,
        translation: V3,
        scale: int,
        rotation: V3,
        width: int,
        height: int,
    ) -> Uniforms {
        let m = self.camera_matrices(width, height);
        Uniforms {
            model_matrix: Mat4::of(model_matrix(translation, scale, rotation)),
            view_matrix: m.0,
            projection_matrix: m.1,
            viewport_matrix: m.2,
        }
    }

    /// What drawing one object writes: the mesh at the given place, of the
    /// given scale and Euler angles, in the given color and kind of
    /// surface, lit from the star.
    #[verifier::opaque]
    pub open spec fn object_drawn(
        self,
        translation: V3,
        scale: int,
        rotation: V3,
        mesh: Seq<Vertex>,
        color: u32,
        kind: PlanetType,
        time: int,
        width: int,
        height: int,
    ) -> Seq<Fragment> {
        rendered(
            self.uniforms_of(translation, scale, rotation, width, height),
            mesh,
            Color::unpacked(color as int),
            kind,
            time,
            self.sun.translation@,
            width,
            height,
        )
    }

    /// What drawing one planet writes.
    pub open spec fn body_drawn(
        self,
        b: Body,
        sphere: Seq<Vertex>,
        time: int,
        width: int,
        height: int,
    ) -> Seq<Fragment> {
        self.object_drawn(
            b.planet.translation@,
            b.planet.scale@,
            b.planet.rotation@,
            sphere,
            b.color,
            b.kind,
            time,
            width,
            height,
        )
    }

    /// What drawing the first `count` planets writes, one after the other.
    pub open spec fn bodies_drawn(
        self,
        sphere: Seq<Vertex>,
        time: int,
        width: int,
        height: int,
        count: int,
    ) -> Seq<Fragment>
        decreases count,
    {
        if count <= 0 {
            Seq::empty()
        } else {
            self.bodies_drawn(sphere, time, width, height, count - 1) + self.body_drawn(
                self.bodies@[count - 1],
                sphere,
                time,
                width,
                height,
            )
        }
    }

    /// What drawing the star writes.
    pub open spec fn sun_drawn(self, sphere: Seq<Vertex>, time: int, width: int, height: int)
        -> Seq<Fragment> {
        self.object_drawn(
            self.sun.translation@,
            self.sun.scale@,
            self.sun.rotation@,
            sphere,
            SUN_COLOR,
            PlanetType::Sun,
            time,
            width,
            height,
        )
    }

    /// What drawing the ship writes.
    pub open spec fn ship_drawn(self, ship: Seq<Vertex>, time: int, width: int, height: int)
        -> Seq<Fragment> {
        self.object_drawn(
            placed(self.spaceship.offset@, self.camera.eye@, self.camera.center@, self.camera.up@),
            self.spaceship.scale@,
            oriented(self.spaceship.rotation@, self.camera.eye@, self.camera.center@),
            ship,
            SHIP_COLOR,
            PlanetType::Spaceship,
            time,
            width,
            height,
        )
    }

    /// What one frame writes: the star, then the planets in their row,
    /// then the ship.
    pub open spec fn frame(
        self,
        sphere: Seq<Vertex>,
        ship: Seq<Vertex>,
        time: int,
        width: int,
        height: int,
    ) -> Seq<Fragment> {
        self.sun_drawn(sphere, time, width, height) + self.bodies_drawn(
            sphere,
            time,
            width,
            height,
            self.bodies@.len() as int,
        ) + self.ship_drawn(ship, time, width, height)
    }

    /// Draws one object with the matrices of the camera and the screen.
    fn draw(
        &self,
        view: &Mat4,
        projection: &Mat4,
        viewport: &Mat4,
        translation: Vec3,
        scale: Fixed,
        rotation: Vec3,
        mesh: &[Vertex],
        color: u32,
        kind: PlanetType,
        time: Fixed,
        width: usize,
        height: usize,
    ) -> (writes: Vec<Fragment>)
        requires
            *view == self.camera_matrices(width as int, height as int).0,
            *projection == self.camera_matrices(width as int, height as int).1,
            *viewport == self.camera_matrices(width as int, height as int).2,
        ensures
            writes@ == self.object_drawn(
                translation@,
                scale@,
                rotation@,
                mesh@,
                color,
                kind,
                time@,
                width as int,
                height as int,
            ),
    {
        let model = create_model_matrix(translation, scale, rotation);
        proof {
            reveal(Scene::object_drawn);
            lemma_matrix_of_view(model);
        }
        let uniforms = Uniforms {
            model_matrix: model,
            view_matrix: *view,
            projection_matrix: *projection,
            viewport_matrix: *viewport,
        };
        render(&uniforms, mesh, color, kind, time, self.sun.translation, width, height)
    }

    /// The view, projection and viewport matrices of a frame.
    fn frame_matrices(&self, width: usize, height: usize) -> (m: (Mat4, Mat4, Mat4))
        ensures
            m == self.camera_matrices(width as int, height as int),
    {
        let w = Fixed::from_index(width);
        let h = Fixed::from_index(height);
        let view = self.camera.get_view_matrix();
        let projection = self.camera.get_projection_matrix(w, h);
        let viewport = create_viewport_matrix(w, h);
        proof {
            reveal(Scene::camera_matrices);
            lemma_matrix_of_view(view);
            lemma_matrix_of_view(projection);
            lemma_matrix_of_view(viewport);
        }
        (view, projection, viewport)
    }

    /// Draws the star.
    fn draw_sun(
        &self,
        view: &Mat4,
        projection: &Mat4,
        viewport: &Mat4,
        sphere: &[Vertex],
        time: Fixed,
        width: usize,
        height: usize,
    ) -> (writes: Vec<Fragment>)
        requires
            *view == self.camera_matrices(width as int, height as int).0,
            *projection == self.camera_matrices(width as int, height as int).1,
            *viewport == self.camera_matrices(width as int, height as int).2,
        ensures
            writes@ == self.sun_drawn(sphere@, time@, width as int, height as int),
    {
        self.draw(
            view,
            projection,
            viewport,
            self.sun.translation,
            self.sun.scale,
            self.sun.rotation,
            sphere,
            SUN_COLOR,
            PlanetType::Sun,
            time,
            width,
            height,
        )
    }

    /// Draws the ship.
    fn draw_ship(
        &self,
        view: &Mat4,
        projection: &Mat4,
        viewport: &Mat4,
        ship: &[Vertex],
        time: Fixed,
        width: usize,
        height: usize,
    ) -> (writes: Vec<Fragment>)
        requires
            *view == self.camera_matrices(width as int, height as int).0,
            *projection == self.camera_matrices(width as int, height as int).1,
            *viewport == self.camera_matrices(width as int, height as int).2,
        ensures
            writes@ == self.ship_drawn(ship@, time@, width as int, height as int),
    {
        let position = self.spaceship.get_world_position(&self.camera);
        let rotation = self.spaceship.get_world_rotation(&self.camera);
        self.draw(
            view,
            projection,
            viewport,
            position,
            self.spaceship.scale,
            rotation,
            ship,
            SHIP_COLOR,
            PlanetType::Spaceship,
            time,
            width,
            height,
        )
    }

    /// Draws the planets, one after the other.
    fn draw_bodies(
        &self,
        view: &Mat4,
        projection: &Mat4,
        viewport: &Mat4,
        sphere: &[Vertex],
        time: Fixed,
        width: usize,
        height: usize,
    ) -> (writes: Vec<Fragment>)
        requires
            *view == self.camera_matrices(width as int, height as int).0,
            *projection == self.camera_matrices(width as int, height as int).1,
            *viewport == self.camera_matrices(width as int, height as int).2,
        ensures
            writes@ == self.bodies_drawn(
                sphere@,
                time@,
                width as int,
                height as int,
                self.bodies@.len() as int,
            ),
    {
        let mut writes: Vec<Fragment> = Vec::new();
        let mut i: usize = 0;
        while i < self.bodies.len()
            invariant
                0 <= i <= self.bodies@.len(),
                *view == self.camera_matrices(width as int, height as int).0,
                *projection == self.camera_matrices(width as int, height as int).1,
                *viewport == self.camera_matrices(width as int, height as int).2,
                writes@ == self.bodies_drawn(sphere@, time@, width as int, height as int, i as int),
            decreases self.bodies@.len() - i,
        {
            let b = self.bodies[i];
            let mut more = self.draw(
                view,
                projection,
                viewport,
                b.planet.translation,
                b.planet.scale,
                b.planet.rotation,
                sphere,
                b.color,
                b.kind,
                time,
                width,
                height,
            );
            writes.append(&mut more);
            i = i + 1;
        }
        writes
    }

    /// Draws the scene on a screen of `width` by `height` pixels: the
    /// star and the planets from the mesh `sphere`, the ship from the mesh
    /// `ship`. The result holds, in the order in which they are to be
    /// written, the fragments that fall on the screen.
    pub fn render(
        &self,
        sphere: &[Vertex],
        ship: &[Vertex],
        time: Fixed,
        width: usize,
        height: usize,
    ) -> (writes: Vec<Fragment>)
        ensures
            writes@ == self.frame(sphere@, ship@, time@, width as int, height as int),
    {
        let (view, projection, viewport) = self.frame_matrices(width, height);
        let mut writes = self.draw_sun(&view, &projection, &viewport, sphere, time, width, height);
        let mut planets = self.draw_bodies(&view, &projection, &viewport, sphere, time, width, height);
        let mut last = self.draw_ship(&view, &projection, &viewport, ship, time, width, height);
        writes.append(&mut planets);
        writes.append(&mut last);
        writes
    }

    /// The star and the planets in their places, the camera high above
    /// them, and the ship in front of the camera.
    pub fn new() -> (s: Scene)
        ensures
            s.camera == camera_at_start(),
            s.spaceship.offset@ == (V3 { x: 40 * ONE, y: -30 * ONE, z: -100 * ONE }),
            s.spaceship.rotation@ == (V3 { x: 0, y: 0, z: 0 }),
            s.spaceship.scale@ == 10 * ONE,
            s.sun == star(),
            s.bodies@.len() == 5,
            forall|i: int| 0 <= i < 5 ==> (#[trigger] s.bodies@[i]).planet.on_orbit(),
            forall|i: int| 0 <= i < 5 ==> seeded(#[trigger] s.bodies@[i], i),
            s.warp_target_index.is_none(),
            !s.warp_in_progress,
            !s.mode_3d,
    {
        let camera = Camera::new(
            Vec3::from_ints(0, 0, 900),
            Vec3::from_ints(0, 0, 0),
            Vec3::from_ints(0, 1, 0),
        );
        proof {
            lemma_zero_has_no_length();
        }
        let sun = Planet {
            translation: Vec3::zero(),
            rotation: Vec3::zero(),
            scale: Fixed::from_int(80),
            orbit_speed: Angle::zero(),
            rotation_speed: Fixed::zero(),
            orbit_radius: Fixed::zero(),
            orbit_angle: Angle::zero(),
            center_x: Fixed::zero(),
            center_y: Fixed::zero(),
        };
        let mut bodies: Vec<Body> = Vec::new();
        bodies.push(body(120, 15, 171798692, 1966, 0, -100, PlanetType::Rocky, 0x8C7853));
        bodies.push(body(180, 25, 128849019, 1638, QUARTER_PI, -50, PlanetType::Rocky, 0xFFC649));
        bodies.push(body(250, 28, 107374182, 1311, HALF_PI, 0, PlanetType::Normal, 0x4169E1));
        bodies.push(
            body(320, 22, 85899346, 1180, HALF_PI + QUARTER_PI, 50, PlanetType::Rocky, 0xCD5C5C),
        );
        bodies.push(body(450, 55, 42949673, 2621, PI, 100, PlanetType::Gaseous, 0xDAA520));
        Scene {
            camera,
            spaceship: Spaceship::new(),
            sun,
            bodies,
            warp_target_index: None,
            warp_in_progress: false,
            mode_3d: false,
        }
    }

    /// One frame of time. The keys turn, zoom and lift the camera, move
    /// the ship, switch between the two ways to look around, and start
    /// warps; a warp under way takes one step; then every planet moves on
    /// along its orbit and the star turns.
    pub fn update(&mut self, input: &Input) -> (events: Events)
        ensures
            final(self).camera == old(self).next_camera(*input),
            final(self).spaceship.offset@ == input.ship_shift(old(self).spaceship.offset@),
            final(self).spaceship.rotation == old(self).spaceship.rotation,
            final(self).spaceship.scale == old(self).spaceship.scale,
            final(self).mode_3d == (old(self).mode_3d != input.toggle_3d),
            final(self).warp_in_progress == (old(self).warp_pending(*input) && !old(
                self,
            ).warp_arrives(*input)),
            final(self).warp_target_index == if old(self).warp_arrives(*input) {
                None
            } else {
                old(self).next_target(*input)
            },
            final(self).bodies@ == old(self).bodies@.map_values(body_step()),
            final(self).sun == old(self).sun.turned(),
            events.ship_moved == input.moves_ship(),
            events.ship_trail == input.ship_trail(old(self).spaceship.offset@),
            events.mode_toggled == input.toggle_3d,
            events.warp_started == input.warp_choice(),
            events.warp_to_sun == input.warp_sun,
            events.warp_completed == old(self).warp_arrives(*input),
    {
        turn_camera(&mut self.camera, self.mode_3d, input);
        move_camera(&mut self.camera, input);
        let ship_trail = move_ship(&mut self.spaceship, input);
        let ship_moved = input.ship_up || input.ship_down || input.ship_left || input.ship_right
            || input.ship_nearer || input.ship_farther;
        if input.toggle_3d {
            self.mode_3d = !self.mode_3d;
        }
        let choice = warp_key(input);
        match choice {
            Some(i) => {
                self.warp_target_index = Some(i);
                self.warp_in_progress = true;
            },
            None => {},
        }
        if input.warp_sun {
            self.camera.warp_to(self.sun.translation, Fixed::from_raw(SUN_WARP_DISTANCE));
        }
        let warp_completed = step_warp(
            &mut self.camera,
            &self.bodies,
            self.warp_in_progress,
            self.warp_target_index,
        );
        if warp_completed {
            self.warp_in_progress = false;
            self.warp_target_index = None;
        }
        self.bodies = advance_bodies(&self.bodies);
        self.sun.rotation.y = add_turns(self.sun.rotation.y, self.sun.rotation_speed);
        Events {
            ship_moved,
            ship_trail,
            mode_toggled: input.toggle_3d,
            warp_started: choice,
            warp_to_sun: input.warp_sun,
            warp_completed,
        }
    }
}

/// The camera at the start: 900 above the origin, looking down at it,
/// with the y axis upward, and with the least radius, since the eye
/// stands straight above the centre.
pub open spec fn camera_at_start() -> Camera {
    Camera {
        eye: Vec3::of(V3 { x: 0, y: 0, z: 900 * ONE }),
        center: Vec3::of(V3 { x: 0, y: 0, z: 0 }),
        up: Vec3::of(V3 { x: 0, y: ONE as int, z: 0 }),
        has_changed: true,
        angle: Angle::of(0),
        radius: Fixed::of(MIN_RADIUS as int),
        height: Fixed::of(900 * ONE),
        pitch: Angle::of(0),
        yaw: Angle::of(0),
    }
}

/// The star: at the origin, of scale 80, at rest.
pub open spec fn star() -> Planet {
    Planet {
        translation: Vec3::of(V3 { x: 0, y: 0, z: 0 }),
        rotation: Vec3::of(V3 { x: 0, y: 0, z: 0 }),
        scale: Fixed::of(80 * ONE),
        orbit_speed: Angle::of(0),
        rotation_speed: Fixed::of(0),
        orbit_radius: Fixed::of(0),
        orbit_angle: Angle::of(0),
        center_x: Fixed::of(0),
        center_y: Fixed::of(0),
    }
}

/// What the scene starts planet `i` with: the whole radius of its orbit,
/// its whole scale, its speed along the orbit in fine units (0.04, 0.03,
/// 0.025, 0.02 and 0.01), its raw speed about its axis, its angle at the
/// start in fine units (0, π/4, π/2, 3π/4 and π), its whole height, its
/// kind and its color.
pub open spec fn seed(i: int) -> (int, int, int, int, int, int, PlanetType, u32) {
    if i == 0 {
        (120, 15, 171798692, 1966, 0, -100, PlanetType::Rocky, 0x8C7853u32)
    } else if i == 1 {
        (180, 25, 128849019, 1638, QUARTER_PI as int, -50, PlanetType::Rocky, 0xFFC649u32)
    } else if i == 2 {
        (250, 28, 107374182, 1311, HALF_PI as int, 0, PlanetType::Normal, 0x4169E1u32)
    } else if i == 3 {
        (320, 22, 85899346, 1180, HALF_PI + QUARTER_PI, 50, PlanetType::Rocky, 0xCD5C5Cu32)
    } else {
        (450, 55, 42949673, 2621, PI as int, 100, PlanetType::Gaseous, 0xDAA520u32)
    }
}

/// Whether `b` is planet `i` as the scene starts it, but for its place
/// on the orbit.
pub open spec fn seeded(b: Body, i: int) -> bool {
    let s = seed(i);
    &&& b.planet.orbit_radius@ == s.0 * ONE
    &&& b.planet.scale@ == s.1 * ONE
    &&& b.planet.orbit_speed@ == s.2
    &&& b.planet.rotation_speed@ == s.3
    &&& b.planet.orbit_angle@ == s.4
    &&& b.planet.translation.z@ == s.5 * ONE
    &&& b.planet.center_x@ == 400 * ONE
    &&& b.planet.center_y@ == 300 * ONE
    &&& b.planet.rotation@ == (V3 { x: 0, y: 0, z: 0 })
    &&& b.kind == s.6
    &&& b.color == s.7
}

/// Lets the keys turn the camera.
fn turn_camera(camera: &mut Camera, mode_3d: bool, input: &Input)
    ensures
        *final(camera) == camera_turned(*old(camera), mode_3d, *input),
{
    let step = Angle::from_raw(TURN_STEP);
    let back = Angle::from_raw(-TURN_STEP);
    let still = Angle::zero();
    if !mode_3d {
        if input.left {
            camera.orbit(step);
        }
        if input.right {
            camera.orbit(back);
        }
    } else {
        if input.left {
            camera.rotate_3d(step, still);
        }
        if input.right {
            camera.rotate_3d(back, still);
        }
        if input.up {
            camera.rotate_3d(still, step);
        }
        if input.down {
            camera.rotate_3d(still, back);
        }
    }
}

/// Whether a warp with the given state takes a step: it is under way,
/// and its target is one of the bodies.
pub open spec fn warp_takes_step(bodies: Seq<Body>, in_progress: bool, target: Option<usize>)
    -> bool {
    in_progress && match target {
        Some(i) => i < bodies.len(),
        None => false,
    }
}

/// Lets a warp that is under way take its step toward the body it aims
/// at, and says whether it arrived.
fn step_warp(
    camera: &mut Camera,
    bodies: &Vec<Body>,
    in_progress: bool,
    target: Option<usize>,
) -> (completed: bool)
    ensures
        !warp_takes_step(bodies@, in_progress, target) ==> !completed && *final(camera) == *old(
            camera,
        ),
        warp_takes_step(bodies@, in_progress, target) ==> {
            let goal = bodies@[target.unwrap() as int].planet.translation;
            &&& completed == old(camera).warp_arrived(goal@, WARP_DISTANCE as int)
            &&& *final(camera) == old(camera).warp_stepped(
                goal,
                Fixed::of(WARP_DISTANCE as int),
                Fine::of(WARP_SPEED as int),
            )
        },
{
    if in_progress {
        match target {
            Some(idx) => {
                if idx < bodies.len() {
                    let goal = bodies[idx].planet.translation;
                    return camera.animated_warp_to(
                        goal,
                        Fixed::from_raw(WARP_DISTANCE),
                        Fine::from_raw(WARP_SPEED),
                    );
                }
            },
            None => {},
        }
    }
    false
}

/// Lets the keys zoom and lift the camera.
fn move_camera(camera: &mut Camera, input: &Input)
    ensures
        *final(camera) == camera_moved(*old(camera), *input),
{
    if input.zoom_in {
        camera.zoom(Fixed::from_raw(-MOVE_STEP));
    }
    if input.zoom_out {
        camera.zoom(Fixed::from_raw(MOVE_STEP));
    }
    if input.raise {
        camera.change_height(Fixed::from_raw(MOVE_STEP));
    }
    if input.lower {
        camera.change_height(Fixed::from_raw(-MOVE_STEP));
    }
}

/// Lets the keys move the ship, and notes where each key left it.
fn move_ship(spaceship: &mut Spaceship, input: &Input) -> (trail: ShipTrail)
    ensures
        final(spaceship).offset@ == input.ship_shift(old(spaceship).offset@),
        final(spaceship).rotation == old(spaceship).rotation,
        final(spaceship).scale == old(spaceship).scale,
        trail == input.ship_trail(old(spaceship).offset@),
{
    let still = Fixed::zero();
    let one = Fixed::one();
    let minus = Fixed::from_raw(-ONE);
    let mut trail = ShipTrail {
        up: None,
        down: None,
        left: None,
        right: None,
        nearer: None,
        farther: None,
    };
    if input.ship_up {
        spaceship.adjust_offset(still, one, still);
        trail.up = Some(spaceship.offset);
    }
    if input.ship_down {
        spaceship.adjust_offset(still, minus, still);
        trail.down = Some(spaceship.offset);
    }
    if input.ship_left {
        spaceship.adjust_offset(minus, still, still);
        trail.left = Some(spaceship.offset);
    }
    if input.ship_right {
        spaceship.adjust_offset(one, still, still);
        trail.right = Some(spaceship.offset);
    }
    if input.ship_nearer {
        spaceship.adjust_offset(still, still, minus);
        trail.nearer = Some(spaceship.offset);
    }
    if input.ship_farther {
        spaceship.adjust_offset(still, still, one);
        trail.farther = Some(spaceship.offset);
    }
    trail
}

/// A planet on its orbit, at the height `z`, with its kind and color.
fn body(
    radius: i32,
    scale: i32,
    orbit_speed: i64,
    rotation_speed: i32,
    angle: i64,
    z: i32,
    kind: PlanetType,
    color: u32,
) -> (b: Body)
    requires
        -32767 <= radius <= 32767,
        -32767 <= scale <= 32767,
        -32767 <= z <= 32767,
    ensures
        b.planet.on_orbit(),
        b.planet.orbit_radius@ == radius * ONE,
        b.planet.scale@ == scale * ONE,
        b.planet.orbit_speed@ == orbit_speed,
        b.planet.rotation_speed@ == rotation_speed,
        b.planet.orbit_angle@ == angle,
        b.planet.translation.z@ == z * ONE,
        b.planet.center_x@ == 400 * ONE,
        b.planet.center_y@ == 300 * ONE,
        b.planet.rotation@ == (V3 { x: 0, y: 0, z: 0 }),
        b.kind == kind,
        b.color == color,
{
    let mut planet = Planet::new(
        Fixed::from_int(radius),
        Fixed::from_int(scale),
        Angle::from_raw(orbit_speed),
        Fixed::from_raw(rotation_speed),
        Angle::from_raw(angle),
    );
    planet.translation.z = Fixed::from_int(z);
    Body { planet, kind, color }
}

/// The planet that the warp keys choose.
fn warp_key(input: &Input) -> (choice: Option<usize>)
    ensures
        choice == input.warp_choice(),
{
    if input.warp_fifth {
        Some(4)
    } else if input.warp_fourth {
        Some(3)
    } else if input.warp_third {
        Some(2)
    } else if input.warp_second {
        Some(1)
    } else if input.warp_first {
        Some(0)
    } else {
        None
    }
}

/// Every body one update later.
pub fn advance_bodies(bodies: &Vec<Body>) -> (next: Vec<Body>)
    ensures
        next@ == bodies@.map_values(body_step()),
{
    let mut next: Vec<Body> = Vec::new();
    let mut i: usize = 0;
    while i < bodies.len()
        invariant
            0 <= i <= bodies@.len(),
            next@ == bodies@.take(i as int).map_values(body_step()),
        decreases bodies@.len() - i,
    {
        let mut b = bodies[i];
        b.planet.update();
        proof {
            assert(bodies@.take(i + 1).map_values(body_step()) =~= bodies@.take(
                i as int,
            ).map_values(body_step()).push(b));
        }
        next.push(b);
        i = i + 1;
    }
    proof {
        assert(bodies@.take(i as int) =~= bodies@);
    }
    next
}

} // verus!
