//! What a ray can hit: the record of a hit, the contract of a shape, and
//! the unordered collection of shapes.

use vstd::prelude::*;
use crate::hittable::aabb::{lemma_encloses_transitive, lemma_merge_encloses, Aabb};
use crate::interval::Interval;
use crate::material::Material;
use crate::ray::Ray;
use crate::scalar::{Scalar, Vec3};

pub mod aabb;

verus! {

/// Where and how a ray met a surface.
#[derive(Clone)]
pub struct HitRecord {
    /// The point of the surface that was hit.
    pub point: Vec3,
    /// The surface normal there, turned against the ray.
    pub normal: Vec3,
    /// The ray parameter of the hit.
    pub t: Scalar,
    /// Whether the ray came from outside.
    pub front_face: bool,
    /// The material of the surface.
    pub material: Material,
    /// The surface coordinates of the hit.
    pub u: Scalar,
    pub v: Scalar,
}

impl HitRecord {
    /// Whether a ray whose direction has the product `facing` with the
    /// outward normal comes from outside: the product is negative.
    pub open spec fn front_spec(facing: Scalar) -> bool {
        facing.lt_spec(Scalar { bits: 0 })
    }

    /// The normal turned against the ray: the outward normal for a ray from
    /// outside, its opposite otherwise.
    pub open spec fn against_spec(facing: Scalar, outward_normal: Vec3) -> Vec3 {
        if Self::front_spec(facing) {
            outward_normal
        } else {
            outward_normal.neg_spec()
        }
    }

    /// The record of a hit at parameter `t`. `facing` is the inner product
    /// of the ray's direction with the outward normal; from its sign come
    /// `front_face` and the side to which the normal points.
    pub fn with_face_normal(
        material: Material,
        point: Vec3,
        outward_normal: Vec3,
        t: Scalar,
        facing: Scalar,
        u: Scalar,
        v: Scalar,
    ) -> (rec: HitRecord)
        ensures
            rec == (HitRecord {
                point,
                normal: Self::against_spec(facing, outward_normal),
                t,
                front_face: Self::front_spec(facing),
                material,
                u,
                v,
            }),
    {
        let (front_face, normal) = HitRecord::calc_face_normal(facing, &outward_normal);
        HitRecord { point, normal, t, front_face, material, u, v }
    }

    /// The side from which the ray came, and the normal turned against it.
    ///
    /// The inner product is odd in the normal, so the product of the
    /// direction with the returned normal is `facing` for a ray from outside
    /// and the opposite of `facing` otherwise: the last clause says that this
    /// number is never positive.
    pub fn calc_face_normal(facing: Scalar, outward_normal: &Vec3) -> (r: (bool, Vec3))
        ensures
            r.0 == Self::front_spec(facing),
            r.1 == Self::against_spec(facing, *outward_normal),
            !(Scalar { bits: 0 }).lt_spec(
                if r.0 {
                    facing
                } else {
                    facing.neg_spec()
                },
            ),
    {
        let front_face = facing.lt(Scalar::zero());
        let normal = if front_face {
            *outward_normal
        } else {
            outward_normal.neg()
        };
        (front_face, normal)
    }

    /// The record of the same hit on a shape that was shifted: the point
    /// is replaced.
    pub fn moved(self, point: Vec3) -> (rec: HitRecord)
        ensures
            rec == (HitRecord { point, ..self }),
    {
        let mut rec = self;
        rec.point = point;
        rec
    }

    /// The record of the same hit on a shape that was turned: the point and
    /// the normal are replaced.
    pub fn turned(self, point: Vec3, normal: Vec3) -> (rec: HitRecord)
        ensures
            rec == (HitRecord { point, normal, ..self }),
    {
        let mut rec = self;
        rec.point = point;
        rec.normal = normal;
        rec
    }

    /// Turns the record's normal against a ray, as `calc_face_normal` does.
    pub fn set_face_normal(&mut self, facing: Scalar, outward_normal: &Vec3)
        ensures
            *final(self) == (HitRecord {
                normal: Self::against_spec(facing, *outward_normal),
                front_face: Self::front_spec(facing),
                ..*old(self)
            }),
    {
        let (front_face, normal) = HitRecord::calc_face_normal(facing, outward_normal);
        self.front_face = front_face;
        self.normal = normal;
    }
}

/// Whether `found` is the answer owed for a shape that the ray crosses at
/// the numbers whose ranks are `crossings`: the record of the crossing with
/// the least parameter inside `interval`, or nothing where no crossing lies
/// inside it.
pub open spec fn nearest_in(crossings: Set<int>, interval: Interval, found: Option<HitRecord>) -> bool {
    match found {
        Some(rec) => {
            &&& !rec.t.nan()
            &&& crossings.contains(rec.t.rank())
            &&& interval.holds(rec.t.rank())
            &&& forall|c: int| #[trigger]
                crossings.contains(c) && interval.holds(c) ==> rec.t.rank() <= c
        },
        None => forall|c: int| #[trigger] crossings.contains(c) ==> !interval.holds(c),
    }
}

/// Whether `found` is the record of some crossing inside `interval`, or
/// nothing where no crossing lies inside it.
pub open spec fn crossing_in(crossings: Set<int>, interval: Interval, found: Option<HitRecord>) -> bool {
    match found {
        Some(rec) => {
            &&& !rec.t.nan()
            &&& crossings.contains(rec.t.rank())
            &&& interval.holds(rec.t.rank())
        },
        None => forall|c: int| #[trigger] crossings.contains(c) ==> !interval.holds(c),
    }
}

/// The end of the part of `interval` that is still to be searched once
/// `found` is known: the parameter of the hit, or the end of the interval.
pub open spec fn reach(found: Option<HitRecord>, interval: Interval) -> Scalar {
    match found {
        Some(rec) => rec.t,
        None => interval.end,
    }
}

/// A shape, or anything else that a ray can hit.
///
/// For each ray a shape has its crossings, the parameters at which the ray
/// meets its surface, and for each interval an answer: the record of the
/// nearest crossing inside the interval. `hit` computes that answer and
/// `bounding_box` a box round the shape.
///
/// The three functions of the model are left open here: a shape written
/// without a model has one of which nothing is known, and a shape of which
/// more is to be proved states its own. A shape whose answer depends on
/// chance is outside this contract, and what is proved of collections
/// holds of shapes that meet it.
pub trait Hittable {
    /// The ranks of the parameters at which the ray crosses the shape.
    open spec fn crossings(&self, ray: Ray) -> Set<int> {
        vstd::pervasive::arbitrary::<spec_fn(&Self, Ray) -> Set<int>>()(self, ray)
    }

    /// The answer to the ray within the interval.
    open spec fn hit_spec(&self, ray: Ray, interval: Interval) -> Option<HitRecord> {
        vstd::pervasive::arbitrary::<spec_fn(&Self, Ray, Interval) -> Option<HitRecord>>()(
            self,
            ray,
            interval,
        )
    }

    /// The box round the shape.
    open spec fn bounds(&self) -> Aabb {
        vstd::pervasive::arbitrary::<spec_fn(&Self) -> Aabb>()(self)
    }

    /// The nearest crossing of the ray inside the interval, if there is one.
    fn hit(&self, ray: &Ray, interval: Interval) -> (found: Option<HitRecord>)
        ensures
            found == self.hit_spec(*ray, interval),
            nearest_in(self.crossings(*ray), interval, found),
    ;

    /// The box round the shape.
    fn bounding_box(&self) -> (bounds: Aabb)
        ensures
            bounds == self.bounds(),
    ;
}

/// Whether the answers of the shapes of a type are what the contract of
/// `hit` makes them: for every shape and every interval, the nearest
/// crossing of the ray inside the interval.
pub open spec fn lawful<T: Hittable>(ray: Ray) -> bool {
    forall|shape: T, interval: Interval|
        nearest_in(shape.crossings(ray), interval, #[trigger] shape.hit_spec(ray, interval))
}

/// The crossings of the first `n` shapes taken together.
pub open spec fn crossings_upto<T: Hittable>(items: Seq<T>, ray: Ray, n: nat) -> Set<int> {
    Set::new(|c: int| exists|i: int| 0 <= i < n && #[trigger] items[i].crossings(ray).contains(c))
}

/// The better of two answers, where `candidate` was sought only among what
/// is nearer than `before`: the candidate where there is one.
pub open spec fn nearer(before: Option<HitRecord>, candidate: Option<HitRecord>) -> Option<
    HitRecord,
> {
    match candidate {
        Some(rec) => Some(rec),
        None => before,
    }
}

/// The answer of the first `n` shapes of a collection, asked in order: each
/// shape is asked only for what is nearer than the best answer before it,
/// and its answer, if it has one, becomes the best.
pub open spec fn scan_spec<T: Hittable>(
    items: Seq<T>,
    ray: Ray,
    interval: Interval,
    n: nat,
) -> Option<HitRecord>
    decreases n,
{
    if n == 0 {
        None
    } else {
        let before = scan_spec(items, ray, interval, (n - 1) as nat);
        let narrowed = interval.with_end_spec(reach(before, interval));
        nearer(before, items[n - 1].hit_spec(ray, narrowed))
    }
}

/// The union of the boxes of the first `n` shapes, taken from the left; the
/// point at the origin where there is no shape.
pub open spec fn union_bounds<T: Hittable>(items: Seq<T>, n: nat) -> Aabb
    decreases n,
{
    if n == 0 {
        Aabb::origin_spec()
    } else if n == 1 {
        items[0].bounds()
    } else {
        union_bounds(items, (n - 1) as nat).merge_spec(items[n - 1].bounds())
    }
}

/// One step of a search: where `before` is the nearest crossing of some
/// shapes inside the interval, and `candidate` the nearest crossing of one
/// more shape among what is nearer than `before`, the better of the two is
/// the nearest crossing of them all.
pub proof fn lemma_search_step(
    earlier: Set<int>,
    added: Set<int>,
    all: Set<int>,
    interval: Interval,
    before: Option<HitRecord>,
    candidate: Option<HitRecord>,
)
    requires
        nearest_in(earlier, interval, before),
        nearest_in(added, interval.with_end_spec(reach(before, interval)), candidate),
        forall|c: int| all.contains(c) <==> earlier.contains(c) || added.contains(c),
    ensures
        nearest_in(all, interval, nearer(before, candidate)),
{
}

/// The crossings of the first `n + 1` shapes are those of the first `n`
/// and those of the next one.
pub proof fn lemma_crossings_extend<T: Hittable>(items: Seq<T>, ray: Ray, n: nat)
    requires
        n < items.len(),
    ensures
        forall|c: int|
            crossings_upto(items, ray, n + 1).contains(c) <==> crossings_upto(
                items,
                ray,
                n,
            ).contains(c) || items[n as int].crossings(ray).contains(c),
{
    let all = crossings_upto(items, ray, n + 1);
    let earlier = crossings_upto(items, ray, n);
    assert forall|c: int| all.contains(c) implies earlier.contains(c) || items[n as int].crossings(
        ray,
    ).contains(c) by {
        let i = choose|i: int| 0 <= i < n + 1 && #[trigger] items[i].crossings(ray).contains(c);
        if i < n {
            assert(earlier.contains(c));
        }
    }
    assert forall|c: int|
        earlier.contains(c) || items[n as int].crossings(ray).contains(c) implies all.contains(
        c,
    ) by {
        if earlier.contains(c) {
            let i = choose|i: int| 0 <= i < n && #[trigger] items[i].crossings(ray).contains(c);
            assert(0 <= i < n + 1);
        } else {
            assert(0 <= n < n + 1 && items[n as int].crossings(ray).contains(c));
        }
    }
}

/// Asking the shapes in order finds the nearest crossing of them all: the
/// answer of the first `n` shapes is the record with the least parameter
/// among the crossings of those shapes inside the interval.
pub proof fn lemma_scan_nearest<T: Hittable>(items: Seq<T>, ray: Ray, interval: Interval, n: nat)
    requires
        lawful::<T>(ray),
        n <= items.len(),
    ensures
        nearest_in(crossings_upto(items, ray, n), interval, scan_spec(items, ray, interval, n)),
    decreases n,
{
    if n > 0 {
        let m = (n - 1) as nat;
        lemma_scan_nearest(items, ray, interval, m);
        let before = scan_spec(items, ray, interval, m);
        let narrowed = interval.with_end_spec(reach(before, interval));
        lemma_crossings_extend(items, ray, m);
        lemma_search_step(
            crossings_upto(items, ray, m),
            items[n - 1].crossings(ray),
            crossings_upto(items, ray, n),
            interval,
            before,
            items[n - 1].hit_spec(ray, narrowed),
        );
    }
}

/// Collections of shapes that answer with their nearest crossings answer
/// with their nearest crossings too.
pub proof fn lemma_collections_are_lawful<T: Hittable>(ray: Ray)
    requires
        lawful::<T>(ray),
    ensures
        lawful::<Vec<T>>(ray),
{
    assert forall|shape: Vec<T>, interval: Interval|
        nearest_in(shape.crossings(ray), interval, #[trigger] shape.hit_spec(ray, interval)) by {
        lemma_scan_nearest(shape@, ray, interval, shape@.len());
    }
}

/// The box of a collection encloses the box of each of its shapes.
pub proof fn lemma_union_encloses<T: Hittable>(items: Seq<T>, n: nat)
    requires
        n <= items.len(),
        forall|i: int| 0 <= i < n ==> (#[trigger] items[i]).bounds().is_number(),
    ensures
        union_bounds(items, n).is_number(),
        forall|i: int| 0 <= i < n ==> union_bounds(items, n).encloses((#[trigger] items[i]).bounds()),
    decreases n,
{
    if n > 1 {
        let m = (n - 1) as nat;
        lemma_union_encloses(items, m);
        let earlier = union_bounds(items, m);
        let last = items[n - 1].bounds();
        lemma_merge_encloses(earlier, last);
        assert forall|i: int| 0 <= i < n implies union_bounds(items, n).encloses(
            (#[trigger] items[i]).bounds(),
        ) by {
            if i < m {
                lemma_encloses_transitive(union_bounds(items, n), earlier, items[i].bounds());
            }
        }
    }
}

impl<T: Hittable> Hittable for Vec<T> {
    /// A collection is crossed wherever one of its shapes is.
    open spec fn crossings(&self, ray: Ray) -> Set<int> {
        crossings_upto(self@, ray, self@.len())
    }

    /// The answer of a collection is that of its shapes asked in order.
    open spec fn hit_spec(&self, ray: Ray, interval: Interval) -> Option<HitRecord> {
        scan_spec(self@, ray, interval, self@.len())
    }

    /// The box of a collection is the union of the boxes of its shapes.
    open spec fn bounds(&self) -> Aabb {
        union_bounds(self@, self@.len())
    }

    /// The nearest hit among the shapes. The search keeps the parameter of
    /// the best hit so far and asks each shape only for what is nearer.
    fn hit(&self, ray: &Ray, interval: Interval) -> (found: Option<HitRecord>) {
        let mut closest = interval.end;
        let mut best: Option<HitRecord> = None;
        let mut i: usize = 0;
        while i < self.len()
            invariant
                0 <= i <= self.len(),
                best == scan_spec(self@, *ray, interval, i as nat),
                closest == reach(best, interval),
                nearest_in(crossings_upto(self@, *ray, i as nat), interval, best),
            decreases self.len() - i,
        {
            let candidate = self[i].hit(ray, interval.with_end(closest));
            proof {
                lemma_crossings_extend(self@, *ray, i as nat);
                lemma_search_step(
                    crossings_upto(self@, *ray, i as nat),
                    self@[i as int].crossings(*ray),
                    crossings_upto(self@, *ray, (i + 1) as nat),
                    interval,
                    best,
                    candidate,
                );
            }
            if let Some(rec) = candidate {
                closest = rec.t;
                best = Some(rec);
            }
            i += 1;
        }
        best
    }

    /// The union of the boxes of the shapes.
    fn bounding_box(&self) -> (bounds: Aabb) {
        if self.len() == 0 {
            return Aabb::origin();
        }
        let mut acc = self[0].bounding_box();
        let mut i: usize = 1;
        while i < self.len()
            invariant
                1 <= i <= self.len(),
                acc == union_bounds(self@, i as nat),
            decreases self.len() - i,
        {
            let item = self[i].bounding_box();
            acc = Aabb::from((acc, item));
            i += 1;
        }
        acc
    }
}

} // verus!
