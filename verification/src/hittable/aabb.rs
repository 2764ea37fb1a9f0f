//! Axis-aligned bounding boxes.

use vstd::prelude::*;
use crate::interval::Interval;
use crate::scalar::{Scalar, Vec3};

verus! {

/// A box with faces parallel to the coordinate planes: one interval per
/// axis, read as closed.
#[derive(Clone, Copy, Debug, PartialEq, Eq, Structural)]
pub struct Aabb {
    pub x: Interval,
    pub y: Interval,
    pub z: Interval,
}

/// The parameters at which a ray crosses the two planes that bound a box on
/// one axis, with the reciprocal of the ray's direction on that axis.
///
/// `t0` belongs to the plane at the interval's start and `t1` to the plane
/// at its end; which of them the ray meets first depends on the sign of
/// `inv_d`.
#[derive(Clone, Copy, Debug, PartialEq, Eq, Structural)]
pub struct Slab {
    pub t0: Scalar,
    pub t1: Scalar,
    pub inv_d: Scalar,
}

impl Slab {
    /// Whether no field is a NaN.
    pub open spec fn is_number(self) -> bool {
        !self.t0.nan() && !self.t1.nan() && !self.inv_d.nan()
    }

    /// Whether the ray runs against the axis.
    pub open spec fn reversed(self) -> bool {
        self.inv_d.lt_spec(Scalar { bits: 0 })
    }

    /// The parameter at which the ray enters the slab.
    pub open spec fn near(self) -> Scalar {
        if self.reversed() {
            self.t1
        } else {
            self.t0
        }
    }

    /// The parameter at which the ray leaves the slab.
    pub open spec fn far(self) -> Scalar {
        if self.reversed() {
            self.t0
        } else {
            self.t1
        }
    }

    /// Whether the ray is between the two planes at the number of rank `c`.
    pub open spec fn holds(self, c: int) -> bool {
        self.is_number() && self.near().rank() <= c < self.far().rank()
    }

    /// The interval cut down to the part that lies in the slab: the start
    /// moves up to `near` and the end down to `far`, each only where the
    /// comparison says so.
    pub open spec fn clip_spec(self, ray_t: Interval) -> Interval {
        Interval {
            start: if ray_t.start.lt_spec(self.near()) {
                self.near()
            } else {
                ray_t.start
            },
            end: if self.far().lt_spec(ray_t.end) {
                self.far()
            } else {
                ray_t.end
            },
        }
    }

    /// The interval cut down to the part that lies in the slab.
    pub fn clip(self, ray_t: Interval) -> (r: Interval)
        ensures
            r == self.clip_spec(ray_t),
            self.is_number() && ray_t.is_number() ==> r.is_number() && forall|c: int|
                r.holds(c) <==> ray_t.holds(c) && self.holds(c),
    {
        let (near, far) = if self.inv_d.lt(Scalar::zero()) {
            (self.t1, self.t0)
        } else {
            (self.t0, self.t1)
        };
        let start = if near.gt(ray_t.start) {
            near
        } else {
            ray_t.start
        };
        let end = if far.lt(ray_t.end) {
            far
        } else {
            ray_t.end
        };
        Interval { start, end }
    }
}

/// The smallest interval that encloses both: the lesser start and the
/// greater end.
pub open spec fn merge_range_spec(a: Interval, b: Interval) -> Interval {
    Interval { start: a.start.min_spec(b.start), end: a.end.max_spec(b.end) }
}

/// The smallest interval that encloses both.
pub fn merge_range(a: Interval, b: Interval) -> (r: Interval)
    ensures
        r == merge_range_spec(a, b),
{
    Interval { start: a.start.min(b.start), end: a.end.max(b.end) }
}

impl Aabb {
    /// Whether no bound is a NaN.
    pub open spec fn is_number(self) -> bool {
        self.x.is_number() && self.y.is_number() && self.z.is_number()
    }

    /// Whether on each axis `start <= end`: the invariant of a box made
    /// from two corners.
    pub open spec fn ordered(self) -> bool {
        &&& self.x.start.le_spec(self.x.end)
        &&& self.y.start.le_spec(self.y.end)
        &&& self.z.start.le_spec(self.z.end)
    }

    /// The interval on the given axis: `y` for 1, `z` for 2, `x` otherwise.
    pub open spec fn axis_spec(self, n: int) -> Interval {
        if n == 1 {
            self.y
        } else if n == 2 {
            self.z
        } else {
            self.x
        }
    }

    /// Whether the two boxes are numerically equal, bound by bound.
    pub open spec fn same(self, other: Aabb) -> bool {
        self.x.same(other.x) && self.y.same(other.y) && self.z.same(other.z)
    }

    /// Whether `other` lies inside `self`.
    pub open spec fn encloses(self, other: Aabb) -> bool {
        self.x.encloses(other.x) && self.y.encloses(other.y) && self.z.encloses(other.z)
    }

    /// The box spanned by two opposite corners.
    pub open spec fn corners_spec(a: Vec3, b: Vec3) -> Aabb {
        Aabb {
            x: Interval { start: a.x.min_spec(b.x), end: a.x.max_spec(b.x) },
            y: Interval { start: a.y.min_spec(b.y), end: a.y.max_spec(b.y) },
            z: Interval { start: a.z.min_spec(b.z), end: a.z.max_spec(b.z) },
        }
    }

    /// The union of two boxes, axis by axis.
    pub open spec fn merge_spec(self, other: Aabb) -> Aabb {
        Aabb {
            x: merge_range_spec(self.x, other.x),
            y: merge_range_spec(self.y, other.y),
            z: merge_range_spec(self.z, other.z),
        }
    }

    /// The box that is the single point at the origin.
    pub open spec fn origin_spec() -> Aabb {
        let zero = Interval { start: Scalar { bits: 0 }, end: Scalar { bits: 0 } };
        Aabb { x: zero, y: zero, z: zero }
    }

    /// Whether a ray stays inside all three slabs somewhere in `ray_t`: the
    /// interval is clipped by the slab of each axis in turn, and the ray
    /// misses as soon as the interval is vacant.
    pub open spec fn hit_spec(x: Slab, y: Slab, z: Slab, ray_t: Interval) -> bool {
        let after_x = x.clip_spec(ray_t);
        let after_y = y.clip_spec(after_x);
        let after_z = z.clip_spec(after_y);
        !after_x.vacant_spec() && !after_y.vacant_spec() && !after_z.vacant_spec()
    }

    /// The box that is the single point at the origin.
    pub fn origin() -> (r: Aabb)
        ensures
            r == Aabb::origin_spec(),
    {
        let zero = Interval { start: Scalar::zero(), end: Scalar::zero() };
        Aabb { x: zero, y: zero, z: zero }
    }

    /// The interval on the given axis.
    pub fn axis(&self, n: i32) -> (r: Interval)
        ensures
            r == self.axis_spec(n as int),
    {
        if n == 1 {
            self.y
        } else if n == 2 {
            self.z
        } else {
            self.x
        }
    }

    /// The slab test. The three slabs hold where the ray crosses the planes
    /// of this box on the three axes; the result says whether the ray is
    /// inside the box at some parameter of `ray_t`.
    pub fn hit(x: Slab, y: Slab, z: Slab, ray_t: Interval) -> (r: bool)
        ensures
            r == Aabb::hit_spec(x, y, z, ray_t),
            x.is_number() && y.is_number() && z.is_number() && ray_t.is_number() ==> (r
                <==> exists|c: int| ray_t.holds(c) && x.holds(c) && y.holds(c) && z.holds(c)),
    {
        let after_x = x.clip(ray_t);
        if after_x.is_vacant() {
            return false;
        }
        let after_y = y.clip(after_x);
        if after_y.is_vacant() {
            return false;
        }
        let after_z = z.clip(after_y);
        if after_z.is_vacant() {
            return false;
        }
        proof {
            if x.is_number() && y.is_number() && z.is_number() && ray_t.is_number() {
                let c = after_z.start.rank();
                assert(after_z.holds(c));
                assert(ray_t.holds(c) && x.holds(c) && y.holds(c) && z.holds(c));
            }
        }
        true
    }
}

impl From<(Vec3, Vec3)> for Aabb {
    /// The box spanned by two opposite corners.
    fn from(corners: (Vec3, Vec3)) -> (r: Aabb) {
        let (a, b) = corners;
        Aabb {
            x: Interval { start: a.x.min(b.x), end: a.x.max(b.x) },
            y: Interval { start: a.y.min(b.y), end: a.y.max(b.y) },
            z: Interval { start: a.z.min(b.z), end: a.z.max(b.z) },
        }
    }
}

impl vstd::std_specs::convert::FromSpecImpl<(Vec3, Vec3)> for Aabb {
    open spec fn obeys_from_spec() -> bool {
        true
    }

    open spec fn from_spec(corners: (Vec3, Vec3)) -> Aabb {
        Aabb::corners_spec(corners.0, corners.1)
    }
}

impl From<(Aabb, Aabb)> for Aabb {
    /// The union of two boxes.
    fn from(boxes: (Aabb, Aabb)) -> (r: Aabb) {
        let (box0, box1) = boxes;
        Aabb {
            x: merge_range(box0.x, box1.x),
            y: merge_range(box0.y, box1.y),
            z: merge_range(box0.z, box1.z),
        }
    }
}

impl vstd::std_specs::convert::FromSpecImpl<(Aabb, Aabb)> for Aabb {
    open spec fn obeys_from_spec() -> bool {
        true
    }

    open spec fn from_spec(boxes: (Aabb, Aabb)) -> Aabb {
        boxes.0.merge_spec(boxes.1)
    }
}

/// A box made from two corners that are numbers has `start <= end` on each
/// axis.
pub proof fn lemma_corners_ordered(a: Vec3, b: Vec3)
    requires
        !a.nan(),
        !b.nan(),
    ensures
        Aabb::corners_spec(a, b).is_number(),
        Aabb::corners_spec(a, b).ordered(),
{
}

/// The union of two boxes encloses both, and is ordered where they are.
pub proof fn lemma_merge_encloses(a: Aabb, b: Aabb)
    requires
        a.is_number(),
        b.is_number(),
    ensures
        a.merge_spec(b).is_number(),
        a.merge_spec(b).encloses(a),
        a.merge_spec(b).encloses(b),
        a.ordered() && b.ordered() ==> a.merge_spec(b).ordered(),
{
}

/// The union of boxes does not depend on the order of the two: the results
/// are numerically equal.
pub proof fn lemma_merge_commutative(a: Aabb, b: Aabb)
    requires
        a.is_number(),
        b.is_number(),
    ensures
        a.merge_spec(b).same(b.merge_spec(a)),
{
}

/// The union of boxes does not depend on the grouping: the results are the
/// same bit for bit, whatever the bounds are.
pub proof fn lemma_merge_associative(a: Aabb, b: Aabb, c: Aabb)
    ensures
        a.merge_spec(b).merge_spec(c) == a.merge_spec(b.merge_spec(c)),
{
}

/// Enclosure of boxes is transitive.
pub proof fn lemma_encloses_transitive(a: Aabb, b: Aabb, c: Aabb)
    requires
        a.encloses(b),
        b.encloses(c),
    ensures
        a.encloses(c),
{
}

} // verus!
