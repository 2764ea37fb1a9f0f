//! Materials: what a surface does to a ray that strikes it.

use vstd::prelude::*;
use crate::hittable::HitRecord;
use crate::ray::Ray;
use crate::scalar::{Scalar, Vec3, ONE_BITS};
use crate::textures::Texture;

pub mod vectors;

verus! {

/// The pattern of 1e-8: a scatter direction whose components are all this
/// small counts as zero.
pub const DEGENERATE_BITS: u64 = 0x3E45_798E_E230_8C3A;

/// The kinds of surface.
#[non_exhaustive]
#[allow(inconsistent_fields)]
#[derive(Clone)]
pub enum Material {
    /// A matt surface that scatters in all directions.
    Lambertian { albedo: Texture },
    /// A mirror, blurred by `fuzz`.
    Metal { albedo: Vec3, fuzz: Scalar },
    /// Glass and the like, which reflect or refract.
    Dielectric { index_of_refraction: Scalar },
    /// A lamp: it emits and never scatters.
    DiffuseLight { emit: Texture },
    /// The phase function of a uniform fog.
    Isotropic { albedo: Texture },
}

/// A ray sent on by a material, and how much of each colour it keeps.
#[derive(Clone, Copy, Debug, PartialEq, Eq, Structural)]
pub struct Scattered {
    pub attenuation: Vec3,
    pub scattered: Ray,
}

/// The directions and numbers that the arithmetic of a scattering puts
/// before the material. A material reads the fields of its own kind.
#[derive(Clone, Copy, Debug, PartialEq, Eq, Structural)]
pub struct ScatterSample {
    /// The colour of the material's texture at the hit.
    pub albedo: Vec3,
    /// For a matt surface: the normal plus a random unit vector.
    pub diffuse: Vec3,
    /// For a metal: the mirrored direction plus `fuzz` times a random unit
    /// vector.
    pub mirrored: Vec3,
    /// For a metal: the product of `mirrored` with the normal.
    pub mirrored_facing: Scalar,
    /// For a dielectric: the refraction ratio times the sine of the angle
    /// of incidence.
    pub bend: Scalar,
    /// For a dielectric: the share of light that is reflected at this
    /// angle.
    pub reflectance: Scalar,
    /// For a dielectric: a number drawn uniformly from zero to one.
    pub draw: Scalar,
    /// For a dielectric: the reflected direction.
    pub reflected: Vec3,
    /// For a dielectric: the refracted direction.
    pub refracted: Vec3,
    /// For a fog: a random unit vector.
    pub isotropic: Vec3,
}

/// Whether every component is at most 1e-8 in absolute value.
pub open spec fn near_zero_spec(v: Vec3) -> bool {
    let limit = Scalar { bits: DEGENERATE_BITS };
    v.x.abs_spec().le_spec(limit) && v.y.abs_spec().le_spec(limit) && v.z.abs_spec().le_spec(limit)
}

/// Whether a direction is too short to be used.
pub fn near_zero(v: Vec3) -> (r: bool)
    ensures
        r == near_zero_spec(v),
{
    let limit = Scalar::from_bits(DEGENERATE_BITS);
    v.x.abs().le(limit) && v.y.abs().le(limit) && v.z.abs().le(limit)
}

impl Material {
    /// The ratio of the refractive indices that a ray meets: the
    /// reciprocal of the index on the way in, the index on the way out.
    pub open spec fn refraction_ratio_spec(front_face: bool, index: Scalar, reciprocal: Scalar) -> Scalar {
        if front_face {
            reciprocal
        } else {
            index
        }
    }

    /// Whether a dielectric reflects: the ray cannot be refracted, because
    /// `bend` is above one, or the reflectance is above the number drawn.
    pub open spec fn reflects_spec(sample: ScatterSample) -> bool {
        (Scalar { bits: ONE_BITS }).lt_spec(sample.bend) || sample.draw.lt_spec(sample.reflectance)
    }

    /// The direction in which the material sends the ray on, if it does.
    pub open spec fn direction_spec(self, hit_record: HitRecord, sample: ScatterSample) -> Option<
        Vec3,
    > {
        match self {
            Material::Lambertian { .. } => Some(
                if near_zero_spec(sample.diffuse) {
                    hit_record.normal
                } else {
                    sample.diffuse
                },
            ),
            Material::Metal { .. } => if (Scalar { bits: 0 }).lt_spec(sample.mirrored_facing) {
                Some(sample.mirrored)
            } else {
                None
            },
            Material::Dielectric { .. } => Some(
                if Self::reflects_spec(sample) {
                    sample.reflected
                } else {
                    sample.refracted
                },
            ),
            Material::DiffuseLight { .. } => None,
            Material::Isotropic { .. } => Some(sample.isotropic),
        }
    }

    /// How much of each colour a scattered ray keeps: the texture's colour
    /// for a matt surface and a fog, the albedo of a metal, everything for
    /// a dielectric.
    pub open spec fn attenuation_spec(self, sample: ScatterSample) -> Vec3 {
        match self {
            Material::Metal { albedo, .. } => albedo,
            Material::Dielectric { .. } => Vec3::splat_spec(Scalar { bits: ONE_BITS }),
            _ => sample.albedo,
        }
    }

    /// The scattered ray: it starts at the hit, at the time of the incoming
    /// ray.
    pub open spec fn scatter_spec(self, r_in: Ray, hit_record: HitRecord, sample: ScatterSample) -> Option<
        Scattered,
    > {
        match self.direction_spec(hit_record, sample) {
            Some(direction) => Some(
                Scattered {
                    attenuation: self.attenuation_spec(sample),
                    scattered: Ray { origin: hit_record.point, direction, time: r_in.time },
                },
            ),
            None => None,
        }
    }

    /// The light that the material gives off: `lookup`, the colour of its
    /// texture at the hit, for a lamp, and none for every other material.
    pub open spec fn emitted_spec(self, lookup: Vec3) -> Vec3 {
        match self {
            Material::DiffuseLight { .. } => lookup,
            _ => Vec3::splat_spec(Scalar { bits: 0 }),
        }
    }

    /// The ratio of the refractive indices that a ray meets.
    pub fn refraction_ratio(front_face: bool, index: Scalar, reciprocal: Scalar) -> (r: Scalar)
        ensures
            r == Self::refraction_ratio_spec(front_face, index, reciprocal),
    {
        if front_face {
            reciprocal
        } else {
            index
        }
    }

    /// Whether a dielectric reflects the ray.
    pub fn reflects(sample: &ScatterSample) -> (r: bool)
        ensures
            r == Self::reflects_spec(*sample),
    {
        let cannot_refract = sample.bend.gt(Scalar::one());
        cannot_refract || sample.reflectance.gt(sample.draw)
    }

    /// The ray that the material sends on and what it keeps of each colour,
    /// or nothing where the material absorbs the ray.
    ///
    /// A matt surface scatters along `diffuse`, or along the normal where
    /// `diffuse` is degenerate. A metal scatters along `mirrored` unless
    /// that points into the surface. A dielectric reflects or refracts. A
    /// lamp absorbs. A fog scatters along `isotropic`.
    pub fn scatter(&self, r_in: &Ray, hit_record: &HitRecord, sample: &ScatterSample) -> (r: Option<
        Scattered,
    >)
        ensures
            r == self.scatter_spec(*r_in, *hit_record, *sample),
    {
        match self {
            Material::Lambertian { .. } => {
                let mut scatter_direction = sample.diffuse;
                if near_zero(scatter_direction) {
                    scatter_direction = hit_record.normal;
                }
                Some(
                    Scattered {
                        attenuation: sample.albedo,
                        scattered: Ray {
                            origin: hit_record.point,
                            direction: scatter_direction,
                            time: r_in.time,
                        },
                    },
                )
            },
            Material::Metal { albedo, .. } => {
                let scattered = Ray {
                    origin: hit_record.point,
                    direction: sample.mirrored,
                    time: r_in.time,
                };
                if sample.mirrored_facing.gt(Scalar::zero()) {
                    Some(Scattered { attenuation: *albedo, scattered })
                } else {
                    None
                }
            },
            Material::Dielectric { .. } => {
                let attenuation = Vec3::splat(Scalar::one());
                let direction = if Self::reflects(sample) {
                    sample.reflected
                } else {
                    sample.refracted
                };
                Some(
                    Scattered {
                        attenuation,
                        scattered: Ray { origin: hit_record.point, direction, time: r_in.time },
                    },
                )
            },
            Material::DiffuseLight { .. } => None,
            Material::Isotropic { .. } => Some(
                Scattered {
                    attenuation: sample.albedo,
                    scattered: Ray {
                        origin: hit_record.point,
                        direction: sample.isotropic,
                        time: r_in.time,
                    },
                },
            ),
        }
    }

    /// The light that the material gives off at a hit.
    pub fn emitted(&self, lookup: Vec3) -> (r: Vec3)
        ensures
            r == self.emitted_spec(lookup),
    {
        match self {
            Material::DiffuseLight { .. } => lookup,
            _ => Vec3::splat(Scalar::zero()),
        }
    }
}

} // verus!
