//! Quads: planar parallelograms.

use vstd::prelude::*;
use crate::interval::Interval;
use crate::material::Material;
use crate::scalar::{Scalar, Vec3, ONE_BITS};

verus! {

/// The pattern of 1e-8: a ray whose direction has a smaller product with
/// the plane's normal counts as parallel to the plane.
pub const PARALLEL_BITS: u64 = 0x3E45_798E_E230_8C3A;

/// The parallelogram with corner `q` and edges `u` and `v`, with what is
/// derived from them: the unit normal of its plane, the plane's offset `d`
/// with `normal . p = d` on the plane, and `w = n / (n . n)` for
/// `n = u x v`, which gives a point its coordinates in the plane.
#[derive(Clone)]
pub struct Quad {
    pub q: Vec3,
    pub u: Vec3,
    pub v: Vec3,
    pub material: Material,
    pub normal: Vec3,
    pub d: Scalar,
    pub w: Vec3,
}

impl Quad {
    /// Whether a ray is parallel to the plane: the product of its direction
    /// with the normal is less than 1e-8 in absolute value.
    pub open spec fn parallel_spec(denom: Scalar) -> bool {
        denom.abs_spec().lt_spec(Scalar { bits: PARALLEL_BITS })
    }

    /// The surface coordinates of a point with plane coordinates `a` and
    /// `b`: the same two numbers, unless one of them is below zero or above
    /// one.
    pub open spec fn interior_spec(a: Scalar, b: Scalar) -> Option<(Scalar, Scalar)> {
        let zero = Scalar { bits: 0 };
        let one = Scalar { bits: ONE_BITS };
        if a.lt_spec(zero) || one.lt_spec(a) || b.lt_spec(zero) || one.lt_spec(b) {
            None
        } else {
            Some((a, b))
        }
    }

    /// The surface coordinates of a hit: nothing for a parallel ray, for a
    /// parameter outside the interval, or for a point outside the quad.
    pub open spec fn locate_spec(
        denom: Scalar,
        t: Scalar,
        alpha: Scalar,
        beta: Scalar,
        interval: Interval,
    ) -> Option<(Scalar, Scalar)> {
        if Self::parallel_spec(denom) {
            None
        } else if !interval.contains_spec(t) {
            None
        } else {
            Self::interior_spec(alpha, beta)
        }
    }

    /// The quad of the given fields.
    pub fn new(
        q: Vec3,
        u: Vec3,
        v: Vec3,
        material: Material,
        normal: Vec3,
        d: Scalar,
        w: Vec3,
    ) -> (r: Quad)
        ensures
            r == (Quad { q, u, v, material, normal, d, w }),
    {
        Quad { q, u, v, material, normal, d, w }
    }

    /// Whether a ray is parallel to the plane.
    pub fn is_parallel(denom: Scalar) -> (r: bool)
        ensures
            r == Self::parallel_spec(denom),
    {
        denom.abs().lt(Scalar::from_bits(PARALLEL_BITS))
    }

    /// The surface coordinates of a point of the plane, if it lies in the
    /// quad.
    pub fn is_interior(a: Scalar, b: Scalar) -> (r: Option<(Scalar, Scalar)>)
        ensures
            r == Self::interior_spec(a, b),
    {
        let zero = Scalar::zero();
        let one = Scalar::one();
        if a.lt(zero) || one.lt(a) || b.lt(zero) || one.lt(b) {
            return None;
        }
        Some((a, b))
    }

    /// The surface coordinates of the point where a ray hits the quad.
    ///
    /// `denom` is the product of the normal with the ray's direction, `t`
    /// the parameter at which the ray meets the plane, `alpha` and `beta`
    /// the plane coordinates of that point.
    pub fn locate(denom: Scalar, t: Scalar, alpha: Scalar, beta: Scalar, interval: Interval) -> (r:
        Option<(Scalar, Scalar)>)
        ensures
            r == Self::locate_spec(denom, t, alpha, beta, interval),
    {
        if Self::is_parallel(denom) {
            return None;
        }
        if !interval.contains(t) {
            return None;
        }
        Self::is_interior(alpha, beta)
    }
}

} // verus!
