//! Capped cylinders.

use vstd::prelude::*;
use crate::interval::Interval;
use crate::material::Material;
use crate::scalar::{Scalar, Vec3};

verus! {

/// The cylinder of the given radius round the axis from `start` to `end`.
#[derive(Clone)]
pub struct Cylinder {
    pub start: Vec3,
    pub end: Vec3,
    pub radius: Scalar,
    pub material: Material,
}

/// What the intersection of a ray with the infinite cylinder gives, with
/// `ca` for the axis vector and `oc` for the ray's origin seen from `start`.
#[derive(Clone, Copy, Debug, PartialEq, Eq, Structural)]
pub struct Lateral {
    /// The discriminant of the quadratic.
    pub discriminant: Scalar,
    /// The nearer root.
    pub d: Scalar,
    /// Where along the axis that root lies: `ca . oc + d * (ca . rd)`.
    pub y: Scalar,
    /// The squared length of the axis, `ca . ca`.
    pub caca: Scalar,
}

/// What the intersection of a ray with the plane of a cap gives.
#[derive(Clone, Copy, Debug, PartialEq, Eq, Structural)]
pub struct Cap {
    /// The parameter at which the ray meets the plane.
    pub d: Scalar,
    /// How far from the axis it does so, as `|b + a * d|`.
    pub reach: Scalar,
    /// The root of the discriminant, which `reach` must stay below.
    pub limit: Scalar,
}

/// Where a ray hits a cylinder.
#[derive(Clone, Copy, Debug, PartialEq, Eq, Structural)]
pub enum CylinderHit {
    /// On the round side, at the parameter.
    Side(Scalar),
    /// On a cap, at the parameter.
    Cap(Scalar),
}

impl Cylinder {
    /// Whether the root on the round side lies between the caps and in the
    /// interval.
    pub open spec fn on_side_spec(lateral: Lateral, interval: Interval) -> bool {
        &&& (Scalar { bits: 0 }).lt_spec(lateral.y)
        &&& lateral.y.lt_spec(lateral.caca)
        &&& interval.contains_spec(lateral.d)
    }

    /// The height of the cap that a ray may hit when it misses the side:
    /// the lower cap, at zero, where the side was passed below it, else the
    /// upper cap, at `caca`.
    pub open spec fn cap_plane_spec(lateral: Lateral) -> Scalar {
        if lateral.y.lt_spec(Scalar { bits: 0 }) {
            Scalar { bits: 0 }
        } else {
            lateral.caca
        }
    }

    /// Whether the ray meets the cap's plane within the cap and in the
    /// interval.
    pub open spec fn on_cap_spec(cap: Cap, interval: Interval) -> bool {
        cap.reach.lt_spec(cap.limit) && interval.contains_spec(cap.d)
    }

    /// Where the ray hits: nowhere where the discriminant is negative; on
    /// the side where the root lies there; else on the cap where the ray
    /// meets it.
    pub open spec fn pick_spec(lateral: Lateral, cap: Cap, interval: Interval) -> Option<
        CylinderHit,
    > {
        if lateral.discriminant.lt_spec(Scalar { bits: 0 }) {
            None
        } else if Self::on_side_spec(lateral, interval) {
            Some(CylinderHit::Side(lateral.d))
        } else if Self::on_cap_spec(cap, interval) {
            Some(CylinderHit::Cap(cap.d))
        } else {
            None
        }
    }

    /// The height of the cap that a ray may hit when it misses the side.
    pub fn cap_plane(lateral: Lateral) -> (r: Scalar)
        ensures
            r == Self::cap_plane_spec(lateral),
    {
        if lateral.y.lt(Scalar::zero()) {
            Scalar::zero()
        } else {
            lateral.caca
        }
    }

    /// Where a ray hits the cylinder within the interval.
    pub fn pick(lateral: Lateral, cap: Cap, interval: Interval) -> (r: Option<CylinderHit>)
        ensures
            r == Self::pick_spec(lateral, cap, interval),
            r matches Some(CylinderHit::Side(t)) ==> interval.contains_spec(t),
            r matches Some(CylinderHit::Cap(t)) ==> interval.contains_spec(t),
    {
        if lateral.discriminant.lt(Scalar::zero()) {
            return None;
        }
        if lateral.y.gt(Scalar::zero()) && lateral.y.lt(lateral.caca) && interval.contains(
            lateral.d,
        ) {
            return Some(CylinderHit::Side(lateral.d));
        }
        if cap.reach.lt(cap.limit) && interval.contains(cap.d) {
            Some(CylinderHit::Cap(cap.d))
        } else {
            None
        }
    }
}

} // verus!
