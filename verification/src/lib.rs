//! The ordering core of a Monte Carlo path tracer.
//!
//! Every number of the tracer is an IEEE-754 binary64 value held as its bit
//! pattern. The library compares, selects and arranges such numbers exactly
//! as the hardware would, and leaves rounding arithmetic to its caller: a
//! caller computes where a ray meets a surface, and the library decides
//! which meeting counts.
//!
//! - [`scalar`]: numbers and vectors as bit patterns, with their order.
//! - [`interval`] and [`hittable::aabb`]: ranges of the ray parameter, boxes
//!   and the slab test.
//! - [`hittable`]: the record of a hit, the contract of a shape, and the
//!   collection that reports its nearest hit.
//! - [`bvh`]: the hierarchy of boxes, how it is built and searched.
//! - [`shapes`]: the shapes and the decisions of their intersection tests.
//! - [`material`] and [`textures`]: what a surface does to a ray, and where
//!   it takes its colour from.
//! - [`ray`]: rays and the light paths they start.
//! - [`camera`]: the settings of a camera and the order of its pixels.

pub mod bvh;
pub mod camera;
pub mod hittable;
pub mod interval;
pub mod material;
pub mod ray;
pub mod scalar;
pub mod shapes;
pub mod textures;
