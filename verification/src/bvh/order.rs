//! The order in which a hierarchy arranges its shapes: by the lower bound
//! of their boxes on one axis.

use vstd::prelude::*;
use std::cmp::Ordering;
use itertools::Itertools;
use rand::Rng;
use crate::hittable::Hittable;
use crate::scalar::Scalar;

verus! {

/// The number by which a shape is ordered on an axis: the start of its box
/// there.
pub open spec fn start_key<T: Hittable>(shape: T, axis_index: i32) -> Scalar {
    shape.bounds().axis_spec(axis_index as int).start
}

/// Whether the keys of all the shapes are numbers on the axis.
pub open spec fn keys_are_numbers<T: Hittable>(items: Seq<T>, axis_index: i32) -> bool {
    forall|i: int| 0 <= i < items.len() ==> !(#[trigger] start_key(items[i], axis_index)).nan()
}

/// Whether the shapes stand in ascending order of their keys.
pub open spec fn ascending<T: Hittable>(items: Seq<T>, axis_index: i32) -> bool {
    forall|i: int, j: int|
        0 <= i < j < items.len() ==> (#[trigger] start_key(items[i], axis_index)).rank() <= (
        #[trigger] start_key(items[j], axis_index)).rank()
}

/// Whether `sorted` is `objects` sorted stably by the keys, with `from[i]`
/// for the place in `objects` of the shape that stands at `i` in `sorted`:
/// every place is taken once, the keys ascend, and shapes with equal keys
/// keep the order they had.
pub open spec fn stably_sorted<T: Hittable>(
    sorted: Seq<T>,
    objects: Seq<T>,
    axis_index: i32,
    from: Seq<int>,
) -> bool {
    &&& from.len() == sorted.len()
    &&& sorted.len() == objects.len()
    &&& forall|i: int|
        0 <= i < sorted.len() ==> 0 <= #[trigger] from[i] < objects.len() && sorted[i]
            == objects[from[i]]
    &&& forall|i: int, j: int|
        0 <= i < j < sorted.len() ==> {
            let a = start_key(objects[#[trigger] from[i]], axis_index).rank();
            let b = start_key(objects[#[trigger] from[j]], axis_index).rank();
            a < b || (a == b && from[i] < from[j])
        }
}

/// How two shapes compare by their keys on an axis.
pub fn box_cmp<A: Hittable, B: Hittable>(a: &A, b: &B, axis_index: i32) -> (r: Ordering)
    requires
        !start_key(*a, axis_index).nan(),
        !start_key(*b, axis_index).nan(),
    ensures
        match r {
            Ordering::Less => start_key(*a, axis_index).rank() < start_key(*b, axis_index).rank(),
            Ordering::Equal => start_key(*a, axis_index).rank() == start_key(
                *b,
                axis_index,
            ).rank(),
            Ordering::Greater => start_key(*a, axis_index).rank() > start_key(
                *b,
                axis_index,
            ).rank(),
        },
{
    let x = a.bounding_box().axis(axis_index).start;
    let y = b.bounding_box().axis(axis_index).start;
    if x.lt(y) {
        Ordering::Less
    } else if y.lt(x) {
        Ordering::Greater
    } else {
        Ordering::Equal
    }
}

/// Whether the key of `a` is less than that of `b`; false where one of them
/// is a NaN.
pub fn box_compare<A: Hittable, B: Hittable>(a: &A, b: &B, axis_index: i32) -> (r: bool)
    ensures
        r == start_key(*a, axis_index).lt_spec(start_key(*b, axis_index)),
{
    a.bounding_box().axis(axis_index).start.lt(b.bounding_box().axis(axis_index).start)
}

/// `box_compare` on the first axis.
pub fn box_x_compare<A: Hittable, B: Hittable>(a: &A, b: &B) -> (r: bool)
    ensures
        r == start_key(*a, 0).lt_spec(start_key(*b, 0)),
{
    box_compare(a, b, 0)
}

/// `box_compare` on the second axis.
pub fn box_y_compare<A: Hittable, B: Hittable>(a: &A, b: &B) -> (r: bool)
    ensures
        r == start_key(*a, 1).lt_spec(start_key(*b, 1)),
{
    box_compare(a, b, 1)
}

/// `box_compare` on the third axis.
pub fn box_z_compare<A: Hittable, B: Hittable>(a: &A, b: &B) -> (r: bool)
    ensures
        r == start_key(*a, 2).lt_spec(start_key(*b, 2)),
{
    box_compare(a, b, 2)
}

/// `Itertools::sorted_by` of the `itertools` crate, with `box_cmp` on the
/// given axis as the comparison. It collects the shapes and sorts them with
/// the stable sort of the standard library: the result holds the same shapes
/// as the argument, in ascending order of their keys, and shapes with equal
/// keys in the order in which they came.
#[verifier::external_body]
pub(crate) fn sorted_by_axis<T: Hittable>(objects: Vec<T>, axis_index: i32) -> (sorted: Vec<T>)
    requires
        keys_are_numbers(objects@, axis_index),
    ensures
        sorted@.to_multiset() == objects@.to_multiset(),
        sorted@.len() == objects@.len(),
        ascending(sorted@, axis_index),
        exists|from: Seq<int>| stably_sorted(sorted@, objects@, axis_index, from),
{
    objects.into_iter().sorted_by(|a, b| box_cmp(a, b, axis_index)).collect()
}

/// `Rng::gen_range` of the `rand` crate on the thread's generator, over the
/// inclusive range from 0 to 2: one of the three axes, whichever the
/// generator draws.
#[verifier::external_body]
pub(crate) fn random_axis() -> (axis_index: i32)
    ensures
        0 <= axis_index <= 2,
{
    rand::thread_rng().gen_range(0..=2)
}

} // verus!
