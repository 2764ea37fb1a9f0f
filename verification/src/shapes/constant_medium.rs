//! Fog of constant density inside a boundary.

use vstd::prelude::*;
use crate::hittable::{HitRecord, Hittable};
use crate::interval::Interval;
use crate::material::Material;
use crate::ray::Ray;
use crate::scalar::{Scalar, Vec3, INFINITY_BITS, ONE_BITS, SIGN_BIT};
use crate::shapes::Shapes;
use crate::textures::Texture;

verus! {

/// A medium that fills `boundary` and scatters a ray after a random free
/// path. `neg_inv_density` is `-1 / density`.
pub struct ConstantMedium {
    pub boundary: Box<Shapes>,
    pub neg_inv_density: Scalar,
    pub phase_function: Material,
}

/// A free path drawn for a ray that crosses a medium between two
/// parameters.
#[derive(Clone, Copy, Debug, PartialEq, Eq, Structural)]
pub struct FreePath {
    /// The length of the ray's way through the medium.
    pub distance_inside: Scalar,
    /// The length of the free path that was drawn.
    pub hit_distance: Scalar,
    /// The parameter at which the free path ends.
    pub t: Scalar,
    /// The point at which it ends.
    pub point: Vec3,
}

impl ConstantMedium {
    /// What a free path makes of a ray: nothing where the ray passes, and
    /// a scattering at the end of the free path otherwise.
    pub open spec fn scattering_spec(phase_function: Material, path: FreePath) -> Option<
        HitRecord,
    > {
        if Self::passes_spec(path.hit_distance, path.distance_inside) {
            None
        } else {
            Some(Self::record_spec(phase_function, path.point, path.t))
        }
    }

    /// Whether `found` can be the answer of a medium inside `boundary`.
    ///
    /// The boundary is asked for the ray's entry on the whole line, and for
    /// its exit from just past the entry on, where `past` says what is just
    /// past a parameter. Where the boundary is not crossed twice, or where
    /// the part between the crossings misses the interval, there is no
    /// answer. Otherwise `draw` draws a free path for that part, and the
    /// answer is what the free path makes of the ray.
    pub open spec fn answers<B: Hittable, P: Fn(Scalar) -> Scalar, D: Fn(Scalar, Scalar) -> FreePath>(
        boundary: B,
        phase_function: Material,
        ray: Ray,
        interval: Interval,
        past: P,
        draw: D,
        found: Option<HitRecord>,
    ) -> bool {
        match boundary.hit_spec(ray, Self::whole_line_spec()) {
            None => found is None,
            Some(rec1) => exists|after: Scalar| #[trigger]
                call_ensures(past, (rec1.t,), after) && match boundary.hit_spec(
                    ray,
                    Self::beyond_spec(after),
                ) {
                    None => found is None,
                    Some(rec2) => match Self::span_spec(rec1.t, rec2.t, interval) {
                        None => found is None,
                        Some((entry, exit)) => exists|path: FreePath| #[trigger]
                            call_ensures(draw, (entry, exit), path) && found
                                == Self::scattering_spec(phase_function, path),
                    },
                },
        }
    }

    /// The whole line.
    pub open spec fn whole_line_spec() -> Interval {
        Interval {
            start: Scalar { bits: (INFINITY_BITS + SIGN_BIT) as u64 },
            end: Scalar { bits: INFINITY_BITS },
        }
    }

    /// Everything from `after` on.
    pub open spec fn beyond_spec(after: Scalar) -> Interval {
        Interval { start: after, end: Scalar { bits: INFINITY_BITS } }
    }

    /// The part of the ray that lies both in the medium and in the
    /// interval: the entry moved up to the interval's start, the exit moved
    /// down to its end; nothing where the entry then is not before the
    /// exit; and an entry behind the ray's origin moved up to zero.
    pub open spec fn span_spec(entry: Scalar, exit: Scalar, interval: Interval) -> Option<
        (Scalar, Scalar),
    > {
        let t1 = if entry.lt_spec(interval.start) {
            interval.start
        } else {
            entry
        };
        let t2 = if interval.end.lt_spec(exit) {
            interval.end
        } else {
            exit
        };
        if t2.le_spec(t1) {
            None
        } else if t1.lt_spec(Scalar { bits: 0 }) {
            Some((Scalar { bits: 0 }, t2))
        } else {
            Some((t1, t2))
        }
    }

    /// Whether a ray leaves the medium without scattering: the free path
    /// drawn for it is longer than its way through the medium.
    pub open spec fn passes_spec(hit_distance: Scalar, distance_inside: Scalar) -> bool {
        distance_inside.lt_spec(hit_distance)
    }

    /// The record of a scattering at `point`. A medium has no surface: the
    /// normal is the first axis, the ray counts as coming from outside, and
    /// the surface coordinates are zero.
    pub open spec fn record_spec(phase_function: Material, point: Vec3, t: Scalar) -> HitRecord {
        HitRecord {
            point,
            normal: Vec3 {
                x: Scalar { bits: ONE_BITS },
                y: Scalar { bits: 0 },
                z: Scalar { bits: 0 },
            },
            t,
            front_face: true,
            material: phase_function,
            u: Scalar { bits: 0 },
            v: Scalar { bits: 0 },
        }
    }

    /// The medium inside `boundary` that scatters as the texture says.
    pub fn new(boundary: Shapes, neg_inv_density: Scalar, texture: Texture) -> (r: ConstantMedium)
        ensures
            *r.boundary == boundary,
            r.neg_inv_density == neg_inv_density,
            r.phase_function == (Material::Isotropic { albedo: texture }),
    {
        ConstantMedium {
            boundary: Box::new(boundary),
            neg_inv_density,
            phase_function: Material::Isotropic { albedo: texture },
        }
    }

    /// The whole line: the interval in which the boundary is asked for the
    /// entry.
    pub fn whole_line() -> (r: Interval)
        ensures
            r == Self::whole_line_spec(),
            forall|c: int| -INFINITY_BITS <= c < INFINITY_BITS ==> r.holds(c),
    {
        Interval { start: Scalar::neg_infinity(), end: Scalar::infinity() }
    }

    /// Everything from `after` on: the interval in which the boundary is
    /// asked for the exit.
    pub fn beyond(after: Scalar) -> (r: Interval)
        ensures
            r == Self::beyond_spec(after),
    {
        Interval { start: after, end: Scalar::infinity() }
    }

    /// The part of the ray that lies both in the medium and in the interval.
    pub fn span(entry: Scalar, exit: Scalar, interval: Interval) -> (r: Option<(Scalar, Scalar)>)
        ensures
            r == Self::span_spec(entry, exit, interval),
    {
        let mut t1 = entry;
        let mut t2 = exit;
        if t1.lt(interval.start) {
            t1 = interval.start;
        }
        if t2.gt(interval.end) {
            t2 = interval.end;
        }
        if t1.ge(t2) {
            return None;
        }
        if t1.lt(Scalar::zero()) {
            t1 = Scalar::zero();
        }
        Some((t1, t2))
    }

    /// Whether a ray leaves the medium without scattering.
    pub fn passes(hit_distance: Scalar, distance_inside: Scalar) -> (r: bool)
        ensures
            r == Self::passes_spec(hit_distance, distance_inside),
    {
        hit_distance.gt(distance_inside)
    }

    /// What a free path makes of a ray.
    pub fn scattering(phase_function: Material, path: FreePath) -> (r: Option<HitRecord>)
        ensures
            r == Self::scattering_spec(phase_function, path),
    {
        if Self::passes(path.hit_distance, path.distance_inside) {
            return None;
        }
        Some(Self::record(phase_function, path.point, path.t))
    }

    /// Where a ray is scattered by the medium inside `boundary`, if it is.
    ///
    /// `past` gives the parameter just past another one, and `draw` a free
    /// path for the part of the ray between two parameters.
    pub fn hit<B: Hittable, P: Fn(Scalar) -> Scalar, D: Fn(Scalar, Scalar) -> FreePath>(
        boundary: &B,
        phase_function: Material,
        ray: &Ray,
        interval: Interval,
        past: &P,
        draw: &D,
    ) -> (found: Option<HitRecord>)
        requires
            forall|t: Scalar| call_requires(*past, (t,)),
            forall|entry: Scalar, exit: Scalar| call_requires(*draw, (entry, exit)),
        ensures
            Self::answers(*boundary, phase_function, *ray, interval, *past, *draw, found),
    {
        let rec1 = match boundary.hit(ray, Self::whole_line()) {
            Some(rec1) => rec1,
            None => {
                return None;
            },
        };
        let after = past(rec1.t);
        let rec2 = match boundary.hit(ray, Self::beyond(after)) {
            Some(rec2) => rec2,
            None => {
                return None;
            },
        };
        let (entry, exit) = match Self::span(rec1.t, rec2.t, interval) {
            Some(part) => part,
            None => {
                return None;
            },
        };
        let path = draw(entry, exit);
        Self::scattering(phase_function, path)
    }

    /// The record of a scattering at `point`.
    pub fn record(phase_function: Material, point: Vec3, t: Scalar) -> (rec: HitRecord)
        ensures
            rec == Self::record_spec(phase_function, point, t),
    {
        HitRecord {
            point,
            normal: Vec3::new(Scalar::one(), Scalar::zero(), Scalar::zero()),
            t,
            front_face: true,
            material: phase_function,
            u: Scalar::zero(),
            v: Scalar::zero(),
        }
    }
}

/// For numbers and an interval that starts at or after the ray's origin,
/// the part of the ray inside both runs from the later of the two starts to
/// the earlier of the two ends, numerically, and there is none where these
/// two do not stand in order.
pub proof fn lemma_span_is_the_overlap(entry: Scalar, exit: Scalar, interval: Interval)
    requires
        !entry.nan(),
        !exit.nan(),
        interval.is_number(),
        (Scalar { bits: 0 }).le_spec(interval.start),
    ensures
        match ConstantMedium::span_spec(entry, exit, interval) {
            Some((t1, t2)) => {
                &&& t1.equals_spec(interval.start.max_spec(entry))
                &&& t2.equals_spec(interval.end.min_spec(exit))
                &&& t1.lt_spec(t2)
            },
            None => interval.end.min_spec(exit).le_spec(interval.start.max_spec(entry)),
        },
{
}

/// A medium of density zero lets every ray pass: its free paths are
/// infinitely long, and every way through a boundary is finite.
pub proof fn lemma_empty_medium_passes(distance_inside: Scalar)
    requires
        !distance_inside.nan(),
        distance_inside.magnitude() < INFINITY_BITS,
    ensures
        ConstantMedium::passes_spec(Scalar { bits: INFINITY_BITS }, distance_inside),
{
}

} // verus!
