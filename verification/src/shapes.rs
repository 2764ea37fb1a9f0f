//! The shapes of a scene.

use vstd::prelude::*;
use crate::scalar::{Scalar, Vec3};

pub mod a_box;
pub mod constant_medium;
pub mod cylinder;
pub mod quad;
pub mod quad_box;
pub mod rounded_box;
pub mod sphere;

verus! {

/// A shape, or a shape moved or turned.
pub enum Shapes {
    Sphere(sphere::Sphere),
    Quad(quad::Quad),
    QuadBox(quad_box::QuadBox),
    /// The object shifted by `offset`.
    Translate { offset: Vec3, object: Box<Shapes> },
    /// The object turned round the second axis by the angle with the given
    /// sine and cosine.
    RotateY { sin_theta: Scalar, cos_theta: Scalar, object: Box<Shapes> },
    RoundedBox(rounded_box::RoundedBox),
    Box(a_box::Box),
    Cylinder(cylinder::Cylinder),
    ConstantMedium(constant_medium::ConstantMedium),
}

impl Shapes {
    /// The object turned round the second axis.
    pub fn new_rotate_y(sin_theta: Scalar, cos_theta: Scalar, object: Shapes) -> (r: Shapes)
        ensures
            r == (Shapes::RotateY { sin_theta, cos_theta, object: Box::new(object) }),
    {
        Shapes::RotateY { sin_theta, cos_theta, object: Box::new(object) }
    }
}

} // verus!
