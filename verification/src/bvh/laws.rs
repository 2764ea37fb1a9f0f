//! What holds of every hierarchy.

use vstd::prelude::*;
use crate::bvh::order::{ascending, keys_are_numbers, start_key};
use crate::bvh::{separated, sound_box_test, BvhNode};
use crate::hittable::aabb::{lemma_encloses_transitive, lemma_merge_encloses, Aabb};
use crate::hittable::{
    crossing_in, crossings_upto, lawful, lemma_scan_nearest, nearest_in, reach, scan_spec,
    Hittable,
};
use crate::interval::Interval;
use crate::ray::Ray;

verus! {

/// The shapes below a branch are those below its two subtrees, so a branch
/// free of NaN has subtrees free of NaN.
pub proof fn lemma_numeric_below<T: Hittable>(tree: BvhNode<T>)
    requires
        tree.numeric(),
    ensures
        tree matches BvhNode::Branch { left, right, .. } ==> left.numeric() && right.numeric(),
{
    match tree {
        BvhNode::Leaf { .. } => {},
        BvhNode::Branch { left, right, .. } => {
            let all = tree.leaves();
            assert(all == left.leaves() + right.leaves());
            assert forall|i: int| 0 <= i < left.leaves().len() implies (
            #[trigger] left.leaves()[i]).bounds().is_number() by {
                assert(all[i] == left.leaves()[i]);
            }
            assert forall|i: int| 0 <= i < right.leaves().len() implies (
            #[trigger] right.leaves()[i]).bounds().is_number() by {
                assert(all[left.leaves().len() + i] == right.leaves()[i]);
            }
        },
    }
}

/// The box kept at a node encloses the box of every shape below it.
pub proof fn lemma_bbox_encloses<T: Hittable>(tree: BvhNode<T>)
    requires
        tree.wf(),
        tree.numeric(),
    ensures
        tree.bbox().is_number(),
        forall|i: int|
            0 <= i < tree.leaves().len() ==> tree.bbox().encloses(
                (#[trigger] tree.leaves()[i]).bounds(),
            ),
    decreases tree,
{
    match tree {
        BvhNode::Leaf { object, bbox } => {
            assert(tree.leaves()[0] == object);
        },
        BvhNode::Branch { left, right, bbox } => {
            lemma_numeric_below(tree);
            lemma_bbox_encloses(*left);
            lemma_bbox_encloses(*right);
            lemma_merge_encloses(left.bbox(), right.bbox());
            let all = tree.leaves();
            assert(all == left.leaves() + right.leaves());
            assert forall|i: int| 0 <= i < all.len() implies bbox.encloses(
                (#[trigger] all[i]).bounds(),
            ) by {
                if i < left.leaves().len() {
                    assert(all[i] == left.leaves()[i]);
                    lemma_encloses_transitive(bbox, left.bbox(), all[i].bounds());
                } else {
                    assert(all[i] == right.leaves()[i - left.leaves().len()]);
                    lemma_encloses_transitive(bbox, right.bbox(), all[i].bounds());
                }
            }
        },
    }
}

/// A subtree that the ray crosses nowhere within the interval has no answer.
pub proof fn lemma_uncrossed<T: Hittable>(tree: BvhNode<T>, ray: Ray, interval: Interval)
    requires
        lawful::<T>(ray),
        forall|i: int, c: int|
            0 <= i < tree.leaves().len() && (#[trigger] tree.leaves()[i]).crossings(ray).contains(c)
                ==> !#[trigger] interval.holds(c),
    ensures
        tree.hit_spec(ray, interval) is None,
    decreases tree,
{
    match tree {
        BvhNode::Leaf { object, .. } => {
            assert(nearest_in(object.crossings(ray), interval, object.hit_spec(ray, interval)));
            assert(tree.leaves()[0] == object);
        },
        BvhNode::Branch { left, right, .. } => {
            let all = tree.leaves();
            assert(all == left.leaves() + right.leaves());
            assert forall|i: int, c: int|
                0 <= i < left.leaves().len() && (#[trigger] left.leaves()[i]).crossings(
                    ray,
                ).contains(c) implies !#[trigger] interval.holds(c) by {
                assert(all[i] == left.leaves()[i]);
            }
            assert forall|i: int, c: int|
                0 <= i < right.leaves().len() && (#[trigger] right.leaves()[i]).crossings(
                    ray,
                ).contains(c) implies !#[trigger] interval.holds(c) by {
                assert(all[left.leaves().len() + i] == right.leaves()[i]);
            }
            lemma_uncrossed(*left, ray, interval);
            assert(interval.with_end_spec(interval.end) == interval);
            lemma_uncrossed(*right, ray, interval);
        },
    }
}

/// A node whose box a sound test reports as missed has no answer.
pub proof fn lemma_missed<T: Hittable, F: Fn(Aabb, Interval) -> bool>(
    tree: BvhNode<T>,
    box_test: F,
    ray: Ray,
    interval: Interval,
)
    requires
        tree.wf(),
        tree.numeric(),
        lawful::<T>(ray),
        sound_box_test::<T, F>(box_test, ray),
        call_ensures(box_test, (tree.bbox(), interval), false),
    ensures
        tree.hit_spec(ray, interval) is None,
{
    lemma_bbox_encloses(tree);
    lemma_uncrossed(tree, ray, interval);
}

/// The crossings of a leaf are those of its shape, and the crossings of a
/// branch those of its two subtrees.
pub proof fn lemma_crossings_split<T: Hittable>(tree: BvhNode<T>, ray: Ray)
    ensures
        match tree {
            BvhNode::Leaf { object, .. } => tree.crossings(ray) =~= object.crossings(ray),
            BvhNode::Branch { left, right, .. } => tree.crossings(ray) =~= left.crossings(
                ray,
            ).union(right.crossings(ray)),
        },
{
    let all = tree.leaves();
    match tree {
        BvhNode::Leaf { object, .. } => {
            assert(all[0] == object);
        },
        BvhNode::Branch { left, right, .. } => {
            assert(all == left.leaves() + right.leaves());
            assert forall|c: int| #[trigger] tree.crossings(ray).contains(c) implies left.crossings(
                ray,
            ).contains(c) || right.crossings(ray).contains(c) by {
                let i = choose|i: int|
                    0 <= i < all.len() && #[trigger] all[i].crossings(ray).contains(c);
                if i < left.leaves().len() {
                    assert(all[i] == left.leaves()[i]);
                } else {
                    assert(all[i] == right.leaves()[i - left.leaves().len()]);
                }
            }
            assert forall|c: int| #[trigger] left.crossings(ray).contains(c) implies tree.crossings(
                ray,
            ).contains(c) by {
                let i = choose|i: int|
                    0 <= i < left.leaves().len() && #[trigger] left.leaves()[i].crossings(
                        ray,
                    ).contains(c);
                assert(all[i] == left.leaves()[i]);
            }
            assert forall|c: int| #[trigger]
                right.crossings(ray).contains(c) implies tree.crossings(ray).contains(c) by {
                let i = choose|i: int|
                    0 <= i < right.leaves().len() && #[trigger] right.leaves()[i].crossings(
                        ray,
                    ).contains(c);
                assert(all[left.leaves().len() + i] == right.leaves()[i]);
            }
        },
    }
}

/// A hierarchy and a collection of the same shapes are crossed at the same
/// parameters.
pub proof fn lemma_same_crossings<T: Hittable>(tree: BvhNode<T>, items: Seq<T>, ray: Ray)
    requires
        tree.leaves().to_multiset() == items.to_multiset(),
    ensures
        forall|c: int| #[trigger]
            tree.crossings(ray).contains(c) ==> crossings_upto(items, ray, items.len()).contains(c),
        forall|c: int| #[trigger]
            crossings_upto(items, ray, items.len()).contains(c) ==> tree.crossings(ray).contains(c),
{
    let leaves = tree.leaves();
    let below = tree.crossings(ray);
    let listed = crossings_upto(items, ray, items.len());
    assert forall|c: int| #[trigger] below.contains(c) implies listed.contains(c) by {
        let i = choose|i: int|
            0 <= i < leaves.len() && #[trigger] leaves[i].crossings(ray).contains(c);
        lemma_member_of_whole(items, leaves, leaves[i], i);
        let k = choose|k: int| 0 <= k < items.len() && items[k] == leaves[i];
        assert(items[k].crossings(ray).contains(c));
    }
    assert forall|c: int| #[trigger] listed.contains(c) implies below.contains(c) by {
        let i = choose|i: int| 0 <= i < items.len() && #[trigger] items[i].crossings(ray).contains(c);
        lemma_member_of_whole(leaves, items, items[i], i);
        let k = choose|k: int| 0 <= k < leaves.len() && leaves[k] == items[i];
        assert(leaves[k].crossings(ray).contains(c));
    }
}

/// Whatever the shapes, the answer of a hierarchy is a crossing of one of
/// them inside the interval, and there is an answer wherever there is such
/// a crossing.
pub proof fn lemma_answer_is_a_crossing<T: Hittable>(tree: BvhNode<T>, ray: Ray, interval: Interval)
    requires
        lawful::<T>(ray),
    ensures
        crossing_in(tree.crossings(ray), interval, tree.hit_spec(ray, interval)),
    decreases tree,
{
    lemma_crossings_split(tree, ray);
    match tree {
        BvhNode::Leaf { object, .. } => {
            assert(nearest_in(object.crossings(ray), interval, object.hit_spec(ray, interval)));
        },
        BvhNode::Branch { left, right, .. } => {
            let hit_left = left.hit_spec(ray, interval);
            let narrowed = interval.with_end_spec(reach(hit_left, interval));
            lemma_answer_is_a_crossing(*left, ray, interval);
            lemma_answer_is_a_crossing(*right, ray, narrowed);
            if hit_left is None {
                assert(narrowed == interval);
            }
        },
    }
}

/// Where at no branch both subtrees answer, the answer of the hierarchy is
/// the nearest crossing of all its shapes inside the interval.
pub proof fn lemma_left_first_nearest<T: Hittable>(tree: BvhNode<T>, ray: Ray, interval: Interval)
    requires
        lawful::<T>(ray),
        tree.left_first(ray, interval),
    ensures
        nearest_in(tree.crossings(ray), interval, tree.hit_spec(ray, interval)),
    decreases tree,
{
    lemma_crossings_split(tree, ray);
    match tree {
        BvhNode::Leaf { object, .. } => {
            assert(nearest_in(object.crossings(ray), interval, object.hit_spec(ray, interval)));
        },
        BvhNode::Branch { left, right, .. } => {
            let hit_left = left.hit_spec(ray, interval);
            let narrowed = interval.with_end_spec(reach(hit_left, interval));
            lemma_left_first_nearest(*left, ray, interval);
            lemma_left_first_nearest(*right, ray, narrowed);
            if hit_left is None {
                assert(narrowed == interval);
            }
        },
    }
}

/// A hierarchy and the unordered collection of the same shapes find
/// nothing together, and where they find a hit, that of the collection is
/// at least as near. This holds of all shapes that answer with their
/// nearest crossings.
pub proof fn lemma_hierarchy_never_nearer<T: Hittable>(
    tree: BvhNode<T>,
    items: Seq<T>,
    ray: Ray,
    interval: Interval,
)
    requires
        lawful::<T>(ray),
        tree.leaves().to_multiset() == items.to_multiset(),
    ensures
        match (tree.hit_spec(ray, interval), scan_spec(items, ray, interval, items.len())) {
            (Some(a), Some(b)) => b.t.le_spec(a.t),
            (None, None) => true,
            _ => false,
        },
{
    lemma_answer_is_a_crossing(tree, ray, interval);
    lemma_scan_nearest(items, ray, interval, items.len());
    lemma_same_crossings(tree, items, ray);
}

/// A hierarchy answers as the unordered collection of the same shapes does:
/// both find nothing, or both find a hit at numerically the same parameter.
/// This holds of shapes that answer with their nearest crossings, where at
/// no branch that the search visits both subtrees answer; where both do,
/// the hierarchy keeps the left answer and the collection the nearer one.
pub proof fn lemma_hierarchy_matches_scan<T: Hittable>(
    tree: BvhNode<T>,
    items: Seq<T>,
    ray: Ray,
    interval: Interval,
)
    requires
        lawful::<T>(ray),
        tree.leaves().to_multiset() == items.to_multiset(),
        tree.left_first(ray, interval),
    ensures
        match (tree.hit_spec(ray, interval), scan_spec(items, ray, interval, items.len())) {
            (Some(a), Some(b)) => a.t.equals_spec(b.t),
            (None, None) => true,
            _ => false,
        },
{
    lemma_left_first_nearest(tree, ray, interval);
    lemma_scan_nearest(items, ray, interval, items.len());
    lemma_same_crossings(tree, items, ray);
}

/// The shapes of two halves are shapes of the whole, so their keys are
/// numbers where those of the whole are.
pub proof fn lemma_keys_survive<T: Hittable>(all: Seq<T>, first: Seq<T>, second: Seq<T>)
    requires
        (first + second).to_multiset() == all.to_multiset(),
    ensures
        forall|axis_index: i32|
            keys_are_numbers(all, axis_index) ==> keys_are_numbers(first, axis_index)
                && keys_are_numbers(second, axis_index),
{
    broadcast use vstd::seq_lib::to_multiset_contains;

    assert forall|axis_index: i32| keys_are_numbers(all, axis_index) implies keys_are_numbers(
        first,
        axis_index,
    ) && keys_are_numbers(second, axis_index) by {
        assert forall|i: int| 0 <= i < first.len() implies !(#[trigger] start_key(
            first[i],
            axis_index,
        )).nan() by {
            lemma_member_of_whole(all, first + second, first[i], i);
        }
        assert forall|i: int| 0 <= i < second.len() implies !(#[trigger] start_key(
            second[i],
            axis_index,
        )).nan() by {
            lemma_member_of_whole(all, first + second, second[i], first.len() + i);
        }
    }
}

/// A shape that stands in one of two sequences with the same shapes stands
/// in the other too.
pub proof fn lemma_member_of_whole<T>(all: Seq<T>, parts: Seq<T>, item: T, i: int)
    requires
        parts.to_multiset() == all.to_multiset(),
        0 <= i < parts.len(),
        parts[i] == item,
    ensures
        exists|k: int| 0 <= k < all.len() && all[k] == item,
{
    broadcast use vstd::seq_lib::to_multiset_contains;

    assert(parts.contains(item));
    assert(parts.to_multiset().count(item) > 0);
    assert(all.contains(item));
}

/// Two halves that are divided by their keys stay divided when each is
/// rearranged.
pub proof fn lemma_ascending_rearranged<T: Hittable>(
    first: Seq<T>,
    second: Seq<T>,
    left: Seq<T>,
    right: Seq<T>,
    axis_index: i32,
)
    requires
        ascending(first + second, axis_index),
        left.to_multiset() == first.to_multiset(),
        right.to_multiset() == second.to_multiset(),
    ensures
        separated(left, right, axis_index),
{
    assert forall|i: int, j: int| 0 <= i < left.len() && 0 <= j < right.len() implies (
    #[trigger] start_key(left[i], axis_index)).rank() <= (#[trigger] start_key(
        right[j],
        axis_index,
    )).rank() by {
        lemma_member_of_whole(first, left, left[i], i);
        lemma_member_of_whole(second, right, right[j], j);
        let a = choose|k: int| 0 <= k < first.len() && first[k] == left[i];
        let b = choose|k: int| 0 <= k < second.len() && second[k] == right[j];
        let whole = first + second;
        assert(whole[a] == left[i]);
        assert(whole[first.len() + b] == right[j]);
    }
}

} // verus!
