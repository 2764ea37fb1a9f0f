//! Boxes made of six quads.

use vstd::prelude::*;
use crate::material::Material;
use crate::scalar::{Scalar, Vec3};
use crate::shapes::Shapes;

verus! {

/// The box with the opposite corners `a` and `b`, and its six sides.
pub struct QuadBox {
    pub a: Vec3,
    pub b: Vec3,
    pub material: Material,
    pub objects: Vec<Shapes>,
}

/// One side of a box: the parallelogram with corner `q` and edges `u` and
/// `v`.
#[derive(Clone, Copy, Debug, PartialEq, Eq, Structural)]
pub struct Side {
    pub q: Vec3,
    pub u: Vec3,
    pub v: Vec3,
}

impl QuadBox {
    /// The corner with the least coordinates.
    pub open spec fn min_corner(a: Vec3, b: Vec3) -> Vec3 {
        Vec3 { x: a.x.min_spec(b.x), y: a.y.min_spec(b.y), z: a.z.min_spec(b.z) }
    }

    /// The corner with the greatest coordinates.
    pub open spec fn max_corner(a: Vec3, b: Vec3) -> Vec3 {
        Vec3 { x: a.x.max_spec(b.x), y: a.y.max_spec(b.y), z: a.z.max_spec(b.z) }
    }

    /// The six sides of the box between `min` and `max`, whose edges have
    /// the lengths `extent`: front, right, back, left, top, bottom. Each
    /// side's edges are so ordered that their cross product points out of
    /// the box.
    pub open spec fn sides_spec(min: Vec3, max: Vec3, extent: Vec3) -> Seq<Side> {
        let zero = Scalar { bits: 0 };
        let dx = Vec3 { x: extent.x, y: zero, z: zero };
        let dy = Vec3 { x: zero, y: extent.y, z: zero };
        let dz = Vec3 { x: zero, y: zero, z: extent.z };
        seq![
            Side { q: Vec3 { x: min.x, y: min.y, z: max.z }, u: dx, v: dy },
            Side { q: Vec3 { x: max.x, y: min.y, z: max.z }, u: dz.neg_spec(), v: dy },
            Side { q: Vec3 { x: max.x, y: min.y, z: min.z }, u: dx.neg_spec(), v: dy },
            Side { q: Vec3 { x: min.x, y: min.y, z: min.z }, u: dz, v: dy },
            Side { q: Vec3 { x: min.x, y: max.y, z: max.z }, u: dx, v: dz.neg_spec() },
            Side { q: Vec3 { x: min.x, y: min.y, z: min.z }, u: dx, v: dz },
        ]
    }

    /// The two corners with the least and the greatest coordinates.
    pub fn corners(a: Vec3, b: Vec3) -> (r: (Vec3, Vec3))
        ensures
            r.0 == Self::min_corner(a, b),
            r.1 == Self::max_corner(a, b),
    {
        let min = Vec3::new(a.x.min(b.x), a.y.min(b.y), a.z.min(b.z));
        let max = Vec3::new(a.x.max(b.x), a.y.max(b.y), a.z.max(b.z));
        (min, max)
    }

    /// The six sides of the box between `min` and `max`; `extent` is
    /// `max - min`.
    pub fn sides(min: Vec3, max: Vec3, extent: Vec3) -> (r: Vec<Side>)
        ensures
            r@ == Self::sides_spec(min, max, extent),
    {
        let zero = Scalar::zero();
        let dx = Vec3::new(extent.x, zero, zero);
        let dy = Vec3::new(zero, extent.y, zero);
        let dz = Vec3::new(zero, zero, extent.z);
        let mut world: Vec<Side> = Vec::new();
        world.push(Side { q: Vec3::new(min.x, min.y, max.z), u: dx, v: dy });
        world.push(Side { q: Vec3::new(max.x, min.y, max.z), u: dz.neg(), v: dy });
        world.push(Side { q: Vec3::new(max.x, min.y, min.z), u: dx.neg(), v: dy });
        world.push(Side { q: Vec3::new(min.x, min.y, min.z), u: dz, v: dy });
        world.push(Side { q: Vec3::new(min.x, max.y, max.z), u: dx, v: dz.neg() });
        world.push(Side { q: Vec3::new(min.x, min.y, min.z), u: dx, v: dz });
        assert(world@ =~= Self::sides_spec(min, max, extent));
        world
    }

    /// The box of the given corners and sides.
    pub fn new(a: Vec3, b: Vec3, material: Material, objects: Vec<Shapes>) -> (r: QuadBox)
        ensures
            r.a == a,
            r.b == b,
            r.material == material,
            r.objects == objects,
    {
        QuadBox { a, b, material, objects }
    }
}

} // verus!
