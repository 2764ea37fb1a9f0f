//! Solid boxes, tested as the overlap of three slabs.

use vstd::prelude::*;
use crate::interval::Interval;
use crate::material::Material;
use crate::scalar::{Scalar, Vec3, ONE_BITS};

verus! {

/// The box round `center` that reaches `size` to either side on each axis.
#[derive(Clone)]
pub struct Box {
    pub center: Vec3,
    pub size: Vec3,
    pub material: Material,
}

/// One where `x` has reached `edge`, zero where it has not.
pub open spec fn step_one(edge: Scalar, x: Scalar) -> Scalar {
    if edge.le_spec(x) {
        Scalar { bits: ONE_BITS }
    } else {
        Scalar { bits: 0 }
    }
}

/// `step_one` on each component.
pub open spec fn step_spec(edge: Vec3, x: Vec3) -> Vec3 {
    Vec3 { x: step_one(edge.x, x.x), y: step_one(edge.y, x.y), z: step_one(edge.z, x.z) }
}

/// The step function on each component: one where `x >= edge`, zero
/// elsewhere.
pub fn step(edge: Vec3, x: Vec3) -> (r: Vec3)
    ensures
        r == step_spec(edge, x),
{
    Vec3 {
        x: if x.x.ge(edge.x) {
            Scalar::one()
        } else {
            Scalar::zero()
        },
        y: if x.y.ge(edge.y) {
            Scalar::one()
        } else {
            Scalar::zero()
        },
        z: if x.z.ge(edge.z) {
            Scalar::one()
        } else {
            Scalar::zero()
        },
    }
}

impl Box {
    /// The parameter of the hit, given where the ray enters the last slab
    /// and where it leaves the first: nothing where it leaves before it has
    /// entered or leaves at or behind its origin; else the entry where it
    /// lies in the interval, else the exit where that does.
    pub open spec fn pick_spec(t_near: Scalar, t_far: Scalar, interval: Interval) -> Option<
        Scalar,
    > {
        if t_far.lt_spec(t_near) || t_far.le_spec(Scalar { bits: 0 }) {
            None
        } else if interval.contains_spec(t_near) {
            Some(t_near)
        } else if interval.contains_spec(t_far) {
            Some(t_far)
        } else {
            None
        }
    }

    /// The parameter at which a ray hits the box within the interval.
    pub fn pick(t_near: Scalar, t_far: Scalar, interval: Interval) -> (r: Option<Scalar>)
        ensures
            r == Self::pick_spec(t_near, t_far, interval),
            r matches Some(t) ==> interval.contains_spec(t) && (t == t_near || t == t_far),
    {
        if t_near.gt(t_far) || t_far.le(Scalar::zero()) {
            None
        } else if interval.contains(t_near) {
            Some(t_near)
        } else if interval.contains(t_far) {
            Some(t_far)
        } else {
            None
        }
    }
}

} // verus!
