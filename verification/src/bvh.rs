//! The bounding volume hierarchy: a binary tree of boxes over shapes.

use vstd::prelude::*;
use crate::bvh::order::{
    ascending, keys_are_numbers, random_axis, sorted_by_axis, stably_sorted, start_key,
};
use crate::bvh::laws::{
    lemma_answer_is_a_crossing, lemma_ascending_rearranged, lemma_keys_survive,
    lemma_left_first_nearest, lemma_missed, lemma_numeric_below,
};
use crate::hittable::aabb::Aabb;
use crate::hittable::{
    crossing_in, crossings_upto, lawful, nearest_in, reach, HitRecord, Hittable,
};
use crate::interval::Interval;
use crate::ray::Ray;

pub mod laws;
pub mod order;

verus! {

/// A node of the hierarchy: a single shape, or two subtrees. Either way it
/// keeps a box round everything below it.
pub enum BvhNode<T> {
    Leaf { object: T, bbox: Aabb },
    Branch { left: Box<BvhNode<T>>, right: Box<BvhNode<T>>, bbox: Aabb },
}

/// Whether a box test is sound for a ray: whenever it can answer that the
/// ray misses a box within an interval, no shape inside that box is crossed
/// by the ray within the interval.
pub open spec fn sound_box_test<T: Hittable, F: Fn(Aabb, Interval) -> bool>(
    box_test: F,
    ray: Ray,
) -> bool {
    forall|bbox: Aabb, interval: Interval, shape: T, c: int|
        #![trigger call_ensures(box_test, (bbox, interval), false), shape.crossings(ray).contains(c)]
        call_ensures(box_test, (bbox, interval), false) && bbox.encloses(shape.bounds())
            && shape.crossings(ray).contains(c) ==> !interval.holds(c)
}

/// Whether on the axis no shape of `left` has a greater key than a shape of
/// `right`.
pub open spec fn separated<T: Hittable>(left: Seq<T>, right: Seq<T>, axis_index: i32) -> bool {
    forall|i: int, j: int|
        0 <= i < left.len() && 0 <= j < right.len() ==> (#[trigger] start_key(
            left[i],
            axis_index,
        )).rank() <= (#[trigger] start_key(right[j], axis_index)).rank()
}

/// The answer of a branch whose subtrees have the two answers: the left one
/// where there is one, the right one otherwise.
pub open spec fn left_first_of(hit_left: Option<HitRecord>, hit_right: Option<HitRecord>) -> Option<
    HitRecord,
> {
    if hit_left is Some {
        hit_left
    } else {
        hit_right
    }
}

impl<T: Hittable> BvhNode<T> {
    /// The box kept at the node.
    pub open spec fn bbox(self) -> Aabb {
        match self {
            BvhNode::Leaf { bbox, .. } => bbox,
            BvhNode::Branch { bbox, .. } => bbox,
        }
    }

    /// The shapes below the node, from left to right.
    pub open spec fn leaves(self) -> Seq<T>
        decreases self,
    {
        match self {
            BvhNode::Leaf { object, .. } => seq![object],
            BvhNode::Branch { left, right, .. } => left.leaves() + right.leaves(),
        }
    }

    /// Whether every node keeps the right box: a leaf the box of its shape,
    /// a branch the union of the boxes of its two subtrees.
    pub open spec fn wf(self) -> bool
        decreases self,
    {
        match self {
            BvhNode::Leaf { object, bbox } => bbox == object.bounds(),
            BvhNode::Branch { left, right, bbox } => {
                &&& left.wf()
                &&& right.wf()
                &&& bbox == left.bbox().merge_spec(right.bbox())
            },
        }
    }

    /// Whether the box of every shape below the node is free of NaN.
    pub open spec fn numeric(self) -> bool {
        forall|i: int| 0 <= i < self.leaves().len() ==> (#[trigger] self.leaves()[i]).bounds().is_number()
    }

    /// Whether every branch holds half of its shapes, rounded down, on the
    /// left.
    pub open spec fn balanced(self) -> bool
        decreases self,
    {
        match self {
            BvhNode::Leaf { .. } => true,
            BvhNode::Branch { left, right, .. } => {
                &&& left.balanced()
                &&& right.balanced()
                &&& left.leaves().len() == (left.leaves().len() + right.leaves().len()) / 2
            },
        }
    }

    /// Whether every branch divides its shapes by their keys on some axis:
    /// on that axis no shape on the left has a greater key than a shape on
    /// the right.
    pub open spec fn divided(self) -> bool
        decreases self,
    {
        match self {
            BvhNode::Leaf { .. } => true,
            BvhNode::Branch { left, right, .. } => {
                &&& left.divided()
                &&& right.divided()
                &&& exists|axis_index: i32|
                    0 <= axis_index <= 2 && #[trigger] separated(
                        left.leaves(),
                        right.leaves(),
                        axis_index,
                    )
            },
        }
    }

    /// Where the ray crosses a shape below the node.
    pub open spec fn crossings(self, ray: Ray) -> Set<int> {
        crossings_upto(self.leaves(), ray, self.leaves().len())
    }

    /// The answer of the hierarchy when no box is consulted: a leaf gives
    /// the answer of its shape; a branch asks the left subtree, then the
    /// right one for what is nearer than the left answer, and gives the left
    /// answer where there is one, the right answer otherwise.
    pub open spec fn hit_spec(self, ray: Ray, interval: Interval) -> Option<HitRecord>
        decreases self,
    {
        match self {
            BvhNode::Leaf { object, .. } => object.hit_spec(ray, interval),
            BvhNode::Branch { left, right, .. } => {
                let hit_left = left.hit_spec(ray, interval);
                let hit_right = right.hit_spec(
                    ray,
                    interval.with_end_spec(reach(hit_left, interval)),
                );
                left_first_of(hit_left, hit_right)
            },
        }
    }

    /// Whether `found` can be the outcome of the search with the given box
    /// test. A node whose box the test reports as missed gives nothing. A
    /// leaf whose box it reports as met gives the answer of its shape. A
    /// branch whose box it reports as met searches its left subtree, then
    /// its right subtree for what is nearer than the left outcome, and gives
    /// the left outcome where there is one, the right outcome otherwise.
    pub open spec fn searched<F: Fn(Aabb, Interval) -> bool>(
        self,
        ray: Ray,
        interval: Interval,
        box_test: F,
        found: Option<HitRecord>,
    ) -> bool
        decreases self,
    {
        match self {
            BvhNode::Leaf { object, bbox } => {
                ||| call_ensures(box_test, (bbox, interval), false) && found is None
                ||| call_ensures(box_test, (bbox, interval), true) && found == object.hit_spec(
                    ray,
                    interval,
                )
            },
            BvhNode::Branch { left, right, bbox } => {
                ||| call_ensures(box_test, (bbox, interval), false) && found is None
                ||| call_ensures(box_test, (bbox, interval), true) && exists|
                    hit_left: Option<HitRecord>,
                    hit_right: Option<HitRecord>,
                |
                    {
                        &&& left.searched(ray, interval, box_test, hit_left)
                        &&& right.searched(
                            ray,
                            interval.with_end_spec(reach(hit_left, interval)),
                            box_test,
                            hit_right,
                        )
                        &&& found == #[trigger] left_first_of(hit_left, hit_right)
                    }
            },
        }
    }

    /// Whether, at every branch that the search visits, the two subtrees do
    /// not both answer: then the left answer is never kept over a nearer
    /// right one.
    pub open spec fn left_first(self, ray: Ray, interval: Interval) -> bool
        decreases self,
    {
        match self {
            BvhNode::Leaf { .. } => true,
            BvhNode::Branch { left, right, .. } => {
                let hit_left = left.hit_spec(ray, interval);
                let narrowed = interval.with_end_spec(reach(hit_left, interval));
                &&& left.left_first(ray, interval)
                &&& right.left_first(ray, narrowed)
                &&& (hit_left is None || right.hit_spec(ray, narrowed) is None)
            },
        }
    }

    /// The box kept at the node.
    pub fn bounding_box(&self) -> (bounds: Aabb)
        ensures
            bounds == self.bbox(),
    {
        match self {
            BvhNode::Leaf { bbox, .. } => *bbox,
            BvhNode::Branch { bbox, .. } => *bbox,
        }
    }

    /// The nearest hit among the shapes below the node.
    ///
    /// `box_test` says whether the ray passes through a box within an
    /// interval. A node whose box the ray misses is not searched; a branch
    /// asks its left subtree, then its right subtree for what is nearer than
    /// the left answer, and gives the left answer where there is one: the
    /// first clause says so for every box test.
    /// Where the box test is sound and the shapes answer with their nearest
    /// crossings, consulting the boxes does not change the answer, which is
    /// a crossing of one of the shapes; and where in addition no branch has
    /// two answers, it is the nearest crossing of all the shapes.
    pub fn hit<F: Fn(Aabb, Interval) -> bool>(
        &self,
        ray: &Ray,
        interval: Interval,
        box_test: &F,
    ) -> (found: Option<HitRecord>)
        requires
            forall|bbox: Aabb, within: Interval| call_requires(*box_test, (bbox, within)),
        ensures
            self.searched(*ray, interval, *box_test, found),
            self.wf() && self.numeric() && lawful::<T>(*ray) && sound_box_test::<T, F>(
                *box_test,
                *ray,
            ) ==> found == self.hit_spec(*ray, interval) && crossing_in(
                self.crossings(*ray),
                interval,
                found,
            ) && (self.left_first(*ray, interval) ==> nearest_in(
                self.crossings(*ray),
                interval,
                found,
            )),
            found matches Some(rec) ==> interval.contains_spec(rec.t),
        decreases self,
    {
        proof {
            if lawful::<T>(*ray) {
                lemma_answer_is_a_crossing(*self, *ray, interval);
                if self.left_first(*ray, interval) {
                    lemma_left_first_nearest(*self, *ray, interval);
                }
            }
        }
        match self {
            BvhNode::Leaf { object, bbox } => {
                let met = box_test(*bbox, interval);
                if !met {
                    proof {
                        if self.wf() && self.numeric() && lawful::<T>(*ray) && sound_box_test::<
                            T,
                            F,
                        >(*box_test, *ray) {
                            lemma_missed(*self, *box_test, *ray, interval);
                        }
                    }
                    return None;
                }
                object.hit(ray, interval)
            },
            BvhNode::Branch { left, right, bbox } => {
                let met = box_test(*bbox, interval);
                if !met {
                    proof {
                        if self.wf() && self.numeric() && lawful::<T>(*ray) && sound_box_test::<
                            T,
                            F,
                        >(*box_test, *ray) {
                            lemma_missed(*self, *box_test, *ray, interval);
                        }
                    }
                    return None;
                }
                proof {
                    if self.numeric() {
                        lemma_numeric_below(*self);
                    }
                }
                let hit_left = left.hit(ray, interval, box_test);
                let top = match &hit_left {
                    Some(rec) => rec.t,
                    None => interval.end,
                };
                let hit_right = right.hit(ray, interval.with_end(top), box_test);
                assert(self.searched(
                    *ray,
                    interval,
                    *box_test,
                    left_first_of(hit_left, hit_right),
                ));
                if hit_left.is_some() {
                    hit_left
                } else {
                    hit_right
                }
            },
        }
    }

    /// The shapes sorted by their keys on the axis and divided in the
    /// middle: the first half holds the `len / 2` shapes with the least
    /// keys. The sort is stable, so the two halves are determined.
    pub fn split_at_median(objects: Vec<T>, axis_index: i32) -> (halves: (Vec<T>, Vec<T>))
        requires
            keys_are_numbers(objects@, axis_index),
        ensures
            halves.0@.len() == objects@.len() / 2,
            halves.0@.len() + halves.1@.len() == objects@.len(),
            (halves.0@ + halves.1@).to_multiset() == objects@.to_multiset(),
            ascending(halves.0@ + halves.1@, axis_index),
            exists|from: Seq<int>|
                stably_sorted(halves.0@ + halves.1@, objects@, axis_index, from),
    {
        let mut sorted = sorted_by_axis(objects, axis_index);
        let ghost whole = sorted@;
        let count = sorted.len();
        let right = sorted.split_off(count / 2);
        assert(sorted@ + right@ =~= whole);
        (sorted, right)
    }

    /// The hierarchy over the given shapes. Each branch sorts its shapes by
    /// their keys on an axis drawn at random and gives one half to each
    /// subtree; a single shape becomes a leaf.
    pub fn from_objects_raw(objects: Vec<T>) -> (node: BvhNode<T>)
        requires
            objects@.len() >= 1,
            objects@.len() >= 2 ==> forall|axis_index: i32|
                0 <= axis_index <= 2 ==> keys_are_numbers(objects@, axis_index),
        ensures
            node.wf(),
            node.balanced(),
            node.divided(),
            node.leaves().to_multiset() == objects@.to_multiset(),
        decreases objects@.len(),
    {
        let axis_index = random_axis();
        let mut objects = objects;
        if objects.len() == 1 {
            let ghost single = objects@;
            let object = objects.pop().unwrap();
            let bbox = object.bounding_box();
            assert(single =~= seq![object]);
            return BvhNode::Leaf { object, bbox };
        }
        let ghost all = objects@;
        let (first, second) = Self::split_at_median(objects, axis_index);
        proof {
            lemma_keys_survive(all, first@, second@);
            vstd::seq_lib::lemma_multiset_commutative(first@, second@);
        }
        let left = Self::from_objects_raw(first);
        let right = Self::from_objects_raw(second);
        let bbox = Aabb::from((left.bounding_box(), right.bounding_box()));
        proof {
            vstd::seq_lib::lemma_multiset_commutative(left.leaves(), right.leaves());
            vstd::seq_lib::to_multiset_len(left.leaves());
            vstd::seq_lib::to_multiset_len(right.leaves());
            vstd::seq_lib::to_multiset_len(first@);
            vstd::seq_lib::to_multiset_len(second@);
            lemma_ascending_rearranged(first@, second@, left.leaves(), right.leaves(), axis_index);
        }
        BvhNode::Branch { left: Box::new(left), right: Box::new(right), bbox }
    }
}

} // verus!
