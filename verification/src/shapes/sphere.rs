//! Spheres, at rest or moving in a straight line.

use vstd::prelude::*;
use crate::interval::Interval;
use crate::material::Material;
use crate::scalar::{Scalar, Vec3, ONE_BITS};
use crate::textures::Texture;

verus! {

/// A sphere. Where `move_to` is set, the centre travels from `center` at
/// time zero to `move_to` at time one.
#[derive(Clone)]
pub struct Sphere {
    pub center: Vec3,
    pub radius: Scalar,
    pub material: Material,
    pub move_to: Option<Vec3>,
}

impl Default for Sphere {
    /// The sphere of radius zero at the origin, matt cyan and at rest.
    fn default() -> (r: Sphere)
        ensures
            r.center == Vec3::splat_spec(Scalar { bits: 0 }),
            r.radius == (Scalar { bits: 0 }),
            r.material == (Material::Lambertian {
                albedo: Texture::SolidColor(
                    Vec3 {
                        x: Scalar { bits: 0 },
                        y: Scalar { bits: ONE_BITS },
                        z: Scalar { bits: ONE_BITS },
                    },
                ),
            }),
            r.move_to is None,
    {
        Sphere {
            center: Vec3::splat(Scalar::zero()),
            radius: Scalar::zero(),
            material: Material::Lambertian {
                albedo: Texture::SolidColor(
                    Vec3::new(Scalar::zero(), Scalar::one(), Scalar::one()),
                ),
            },
            move_to: None,
        }
    }
}

impl Sphere {
    /// The parameter of the hit, given the discriminant of the quadratic
    /// and its two roots: nothing where the discriminant is negative, else
    /// the nearer root where it lies in the interval, else the farther one
    /// where that does.
    pub open spec fn pick_root_spec(
        discriminant: Scalar,
        near: Scalar,
        far: Scalar,
        interval: Interval,
    ) -> Option<Scalar> {
        if discriminant.lt_spec(Scalar { bits: 0 }) {
            None
        } else if interval.contains_spec(near) {
            Some(near)
        } else if interval.contains_spec(far) {
            Some(far)
        } else {
            None
        }
    }

    /// A sphere at rest.
    pub fn new(center: Vec3, radius: Scalar, material: Material) -> (r: Sphere)
        ensures
            r == (Sphere { center, radius, material, move_to: None }),
    {
        Sphere { center, radius, material, move_to: None }
    }

    /// The same sphere, moving towards `to`.
    pub fn with_move_to(self, to: Vec3) -> (r: Sphere)
        ensures
            r == (Sphere { move_to: Some(to), ..self }),
    {
        let mut moved = self;
        moved.move_to = Some(to);
        moved
    }

    /// The parameter at which a ray hits the sphere within the interval.
    ///
    /// `near` and `far` are the roots of `|O + tD - C|^2 = r^2`. Where
    /// `near <= far`, the result is the least root inside the interval.
    pub fn pick_root(discriminant: Scalar, near: Scalar, far: Scalar, interval: Interval) -> (r:
        Option<Scalar>)
        ensures
            r == Self::pick_root_spec(discriminant, near, far, interval),
            r matches Some(t) ==> interval.contains_spec(t) && (t == near || t == far),
            near.le_spec(far) ==> (r matches Some(t) ==> (interval.contains_spec(near)
                ==> t.rank() <= near.rank()) && (interval.contains_spec(far) ==> t.rank()
                <= far.rank())),
            r is None && !discriminant.lt_spec(Scalar { bits: 0 }) ==> !interval.contains_spec(near)
                && !interval.contains_spec(far),
    {
        if discriminant.lt(Scalar::zero()) {
            return None;
        }
        let mut root = near;
        if !interval.contains(root) {
            root = far;
            if !interval.contains(root) {
                return None;
            }
        }
        Some(root)
    }
}

} // verus!
