//! The tests that random directions have to pass.

use vstd::prelude::*;
use crate::scalar::{Scalar, Vec3, ONE_BITS};

verus! {

/// Whether a point drawn from the cube or the square round the origin lies
/// inside the unit sphere or disk: its squared length is below one.
pub open spec fn inside_unit_spec(length_squared: Scalar) -> bool {
    length_squared.lt_spec(Scalar { bits: ONE_BITS })
}

/// Whether a point that was drawn is kept; one that is not is drawn again.
pub fn inside_unit(length_squared: Scalar) -> (r: bool)
    ensures
        r == inside_unit_spec(length_squared),
{
    length_squared.lt(Scalar::one())
}

/// The direction turned to the side of a normal: the direction itself where
/// its product `facing` with the normal is positive, its opposite
/// otherwise.
pub open spec fn on_hemisphere_spec(on_unit_sphere: Vec3, facing: Scalar) -> Vec3 {
    if (Scalar { bits: 0 }).lt_spec(facing) {
        on_unit_sphere
    } else {
        on_unit_sphere.neg_spec()
    }
}

/// The direction turned to the side of a normal.
pub fn random_on_hemisphere(on_unit_sphere: Vec3, facing: Scalar) -> (r: Vec3)
    ensures
        r == on_hemisphere_spec(on_unit_sphere, facing),
{
    if facing.gt(Scalar::zero()) {
        on_unit_sphere
    } else {
        on_unit_sphere.neg()
    }
}

} // verus!
