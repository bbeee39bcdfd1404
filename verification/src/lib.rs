//! A software rendering core in Q16.16 fixed-point arithmetic.
//!
//! The crate draws a scene of orbiting bodies by rasterizing triangles on
//! the processor. It holds the whole way of a vertex to a pixel:
//!
//! - [`fixed`]: the numbers, signed 32-bit integers that count units of
//!   1/65536, with arithmetic that saturates instead of overflowing;
//! - [`vector`] and [`trig`]: vectors, matrices, and the sine, cosine and
//!   arctangent of fixed-point angles;
//! - [`color`], [`vertex`], [`fragment`]: the values that pass through the
//!   pipeline;
//! - [`shaders`]: the transform stage, from the mesh to the screen;
//! - [`triangle`]: the rasterizer, with exact barycentric weights;
//! - [`gaseous_shader`]: the noise and the surfaces made of it;
//! - [`render`]: the matrices of an object and one whole draw call;
//! - [`camera`], [`planet`], [`spaceship`]: what moves between frames;
//! - [`scene`]: all of them together, one frame after another.
//!
//! Every function is total: none can overflow, divide by zero or panic.
//! Contracts are stated over the raw integer values of the numbers, which
//! `@` gives. Where the raw grid of 1/65536 would be too coarse, a value
//! is kept in fine units of 2^-32 and rounded once at the end: angles and
//! their sines and cosines, the directions of the camera, the turn of a
//! model, the share that a warp covers, and the depth of a fragment.
pub mod camera;
pub mod color;
pub mod fixed;
pub mod fragment;
pub mod gaseous_shader;
pub mod planet;
pub mod render;
pub mod scene;
pub mod shaders;
pub mod spaceship;
pub mod triangle;
pub mod trig;
pub mod vector;
pub mod vertex;

pub use render::{PlanetType, Uniforms};
