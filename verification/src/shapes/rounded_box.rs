//! Boxes with rounded edges and corners.

use vstd::prelude::*;
use crate::interval::Interval;
use crate::material::Material;
use crate::scalar::{Scalar, Vec3};

verus! {

/// The pattern of 1e100: the parameter that stands for "nowhere" while the
/// faces are tried.
pub const NOWHERE_BITS: u64 = 0x54B2_49AD_2594_C37D;

/// The box that reaches `size` to either side of `center`, grown by
/// `radius` in every direction.
#[derive(Clone)]
pub struct RoundedBox {
    pub center: Vec3,
    pub radius: Scalar,
    pub size: Vec3,
    pub material: Material,
}

/// Where a ray meets the sphere round a corner.
#[derive(Clone, Copy, Debug, PartialEq, Eq, Structural)]
pub struct Corner {
    /// The discriminant of the quadratic.
    pub discriminant: Scalar,
    /// The nearer root.
    pub t: Scalar,
}

/// Where a ray meets the cylinder round an edge.
#[derive(Clone, Copy, Debug, PartialEq, Eq, Structural)]
pub struct Edge {
    /// The discriminant of the quadratic.
    pub discriminant: Scalar,
    /// The nearer root.
    pub t: Scalar,
    /// The coordinate along the edge of the point at that root.
    pub along: Scalar,
    /// Half the length of the edge.
    pub limit: Scalar,
}

impl RoundedBox {
    /// The parameter at which the faces are tried, given where the ray
    /// enters and leaves the box grown by the radius: nothing where the ray
    /// misses that box or leaves it behind its origin; else the entry
    /// where it lies between the interval's bounds, both included, else the
    /// exit where it lies in the interval, else 1e100.
    pub open spec fn entry_spec(t_near: Scalar, t_far: Scalar, interval: Interval) -> Option<
        Scalar,
    > {
        if t_far.lt_spec(t_near) || t_far.lt_spec(Scalar { bits: 0 }) {
            None
        } else if interval.start.le_spec(t_near) && t_near.le_spec(interval.end) {
            Some(t_near)
        } else if interval.contains_spec(t_far) {
            Some(t_far)
        } else {
            Some(Scalar { bits: NOWHERE_BITS })
        }
    }

    /// Whether the ray hits a flat face at `t`: `margin`, the least that
    /// the point lacks to a rounded part, is negative, and `t` lies in the
    /// interval.
    pub open spec fn on_face_spec(margin: Scalar, t: Scalar, interval: Interval) -> bool {
        margin.lt_spec(Scalar { bits: 0 }) && interval.contains_spec(t)
    }

    /// The best parameter once the corner has been tried: its root where the
    /// discriminant is positive, else the end of the interval.
    pub open spec fn after_corner(corner: Corner, interval: Interval) -> Scalar {
        if (Scalar { bits: 0 }).lt_spec(corner.discriminant) {
            corner.t
        } else {
            interval.end
        }
    }

    /// Whether an edge improves on the best parameter so far: its
    /// discriminant is positive, its root is not before the interval's start
    /// and is before `best`, and the point lies within the edge's length.
    pub open spec fn edge_improves(edge: Edge, best: Scalar, interval: Interval) -> bool {
        &&& (Scalar { bits: 0 }).lt_spec(edge.discriminant)
        &&& interval.start.le_spec(edge.t)
        &&& edge.t.lt_spec(best)
        &&& edge.along.abs_spec().lt_spec(edge.limit)
    }

    /// The best parameter once an edge has been tried.
    pub open spec fn after_edge(edge: Edge, best: Scalar, interval: Interval) -> Scalar {
        if Self::edge_improves(edge, best, interval) {
            edge.t
        } else {
            best
        }
    }

    /// The parameter of the hit on the rounded parts: the corner is tried,
    /// then the edges along x, y and z, each keeping its root where it
    /// improves on the best so far; the result counts where it lies in the
    /// interval.
    pub open spec fn rounding_spec(
        corner: Corner,
        x: Edge,
        y: Edge,
        z: Edge,
        interval: Interval,
    ) -> Option<Scalar> {
        let t0 = Self::after_corner(corner, interval);
        let t1 = Self::after_edge(x, t0, interval);
        let t2 = Self::after_edge(y, t1, interval);
        let t3 = Self::after_edge(z, t2, interval);
        if interval.contains_spec(t3) {
            Some(t3)
        } else {
            None
        }
    }

    /// The parameter at which the faces are tried.
    pub fn entry(t_near: Scalar, t_far: Scalar, interval: Interval) -> (r: Option<Scalar>)
        ensures
            r == Self::entry_spec(t_near, t_far, interval),
    {
        let zero = Scalar::zero();
        if t_near.gt(t_far) || t_far.lt(zero) {
            return None;
        }
        if t_near.ge(interval.start) && t_near.le(interval.end) {
            Some(t_near)
        } else if interval.contains(t_far) {
            Some(t_far)
        } else {
            Some(Scalar::from_bits(NOWHERE_BITS))
        }
    }

    /// Whether the ray hits a flat face at `t`.
    pub fn on_face(margin: Scalar, t: Scalar, interval: Interval) -> (r: bool)
        ensures
            r == Self::on_face_spec(margin, t, interval),
    {
        margin.lt(Scalar::zero()) && interval.contains(t)
    }

    /// The best parameter once an edge has been tried.
    pub fn try_edge(edge: Edge, best: Scalar, interval: Interval) -> (r: Scalar)
        ensures
            r == Self::after_edge(edge, best, interval),
    {
        if edge.discriminant.gt(Scalar::zero()) && edge.t.ge(interval.start) && edge.t.lt(best)
            && edge.along.abs().lt(edge.limit) {
            edge.t
        } else {
            best
        }
    }

    /// The parameter at which a ray hits a rounded corner or edge within
    /// the interval.
    pub fn rounding(corner: Corner, x: Edge, y: Edge, z: Edge, interval: Interval) -> (r: Option<
        Scalar,
    >)
        ensures
            r == Self::rounding_spec(corner, x, y, z, interval),
            r matches Some(t) ==> interval.contains_spec(t),
    {
        let mut t = interval.end;
        if corner.discriminant.gt(Scalar::zero()) {
            t = corner.t;
        }
        t = Self::try_edge(x, t, interval);
        t = Self::try_edge(y, t, interval);
        t = Self::try_edge(z, t, interval);
        if interval.contains(t) {
            Some(t)
        } else {
            None
        }
    }
}

} // verus!
