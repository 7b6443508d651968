//! The decisions of a stochastic path tracer for scenes of spheres, verified.
//!
//! A path tracer is arithmetic on real numbers wrapped around a skeleton of
//! decisions: which of two roots is the intersection, which sphere is nearest,
//! whether a surface is met from outside, whether a ray is absorbed, mirrored
//! or bent, when a walk ends, which channel value a colour is shown with, and
//! in what order the finished pixels are written out. This library is that
//! skeleton. Numbers reach it as the bits of binary64 values
//! ([`scalar::Scalar`]); it compares them exactly and never rounds, and the
//! caller does the arithmetic between two decisions.
//!
//! A caller's arithmetic can come to something that is no number: the unit
//! vector of a direction of length zero, the roots of a quadratic without
//! roots. The library takes a NaN for what it is. It is below nothing and
//! above nothing, so a root that is NaN is no hit, a surface whose normal
//! has a NaN product with the ray is not met from outside, a vector with a
//! NaN component is not near zero, and a channel that is NaN is shown as 0.
//!
//! - [`scalar`]: numbers, their order, sign and whole part.
//! - [`vector`], [`point`], [`ray`], [`colour`]: what the tracer carries.
//! - [`sphere`], [`hittable`]: intersections and the nearest of them.
//! - [`material`]: scattering. [`config`]: materials by name.
//! - [`render`]: the walk of a ray, the ground, the camera's place.
//! - [`image`], [`text`]: the raster and its text.

pub mod colour;
pub mod config;
pub mod hittable;
pub mod image;
pub mod material;
pub mod point;
pub mod ray;
pub mod render;
pub mod scalar;
pub mod sphere;
pub mod text;
pub mod vector;
