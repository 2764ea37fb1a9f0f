//! Rays, and the light paths that they start.

use vstd::prelude::*;
use crate::hittable::{HitRecord, Hittable};
use crate::interval::Interval;
use crate::material::Scattered;
use crate::scalar::{Scalar, Vec3, INFINITY_BITS};

verus! {

/// The pattern of 0.001: a hit nearer than this to a ray's origin is not
/// counted, so that a scattered ray does not hit the surface it leaves.
pub const NEAREST_BITS: u64 = 0x3F50_624D_D2F1_A9FC;

/// The half line `origin + t * direction`, cast at a moment `time` of the
/// exposure.
#[derive(Clone, Copy, Debug, PartialEq, Eq, Structural)]
pub struct Ray {
    pub origin: Vec3,
    pub direction: Vec3,
    pub time: Scalar,
}

/// What a surface does to a ray that hits it: the light it gives off, and
/// the ray it sends on, if any.
#[derive(Clone, Copy, Debug, PartialEq, Eq, Structural)]
pub struct Surface {
    pub emission: Vec3,
    pub scattered: Option<Scattered>,
}

/// One bounce of a light path: the ray that hit a surface, the light that
/// the surface gave off and what the ray sent on keeps of each colour.
#[derive(Clone, Copy, Debug, PartialEq, Eq, Structural)]
pub struct Bounce {
    pub ray: Ray,
    pub emission: Vec3,
    pub attenuation: Vec3,
}

/// How a light path ends.
#[derive(Clone, Copy, Debug, PartialEq, Eq, Structural)]
pub enum PathEnd {
    /// The path has used up its bounces: it contributes no light.
    Exhausted,
    /// The last ray hit nothing: it sees the background.
    Missed,
    /// The last ray hit a surface that sent on no ray: it sees the light
    /// that this surface gives off.
    Absorbed(Vec3),
}

/// A light path: its bounces in order, the ray after the last bounce, and
/// how it ends. The colour seen along the first ray is
/// `e0 + a0 * (e1 + a1 * (... + c))`, with `e` and `a` for the emission
/// and the attenuation of the bounces and `c` for the colour of the end.
pub struct Path {
    pub bounces: Vec<Bounce>,
    pub last: Ray,
    pub end: PathEnd,
}

/// The interval in which the scene is searched: from 0.001 onwards.
pub open spec fn visible_spec() -> Interval {
    Interval { start: Scalar { bits: NEAREST_BITS }, end: Scalar { bits: INFINITY_BITS } }
}

/// The interval in which the scene is searched.
pub fn visible() -> (r: Interval)
    ensures
        r == visible_spec(),
{
    Interval { start: Scalar::from_bits(NEAREST_BITS), end: Scalar::infinity() }
}

/// The ray that makes bounce `k`, or the ray after the last bounce.
pub open spec fn ray_at(bounces: Seq<Bounce>, last: Ray, k: int) -> Ray {
    if 0 <= k < bounces.len() {
        bounces[k].ray
    } else {
        last
    }
}

/// Whether the bounces are steps of a path from `first` through `world`:
/// the first ray makes the first bounce, every ray that makes a bounce
/// hits the scene, and the surface it hits can answer with the emission
/// and the attenuation of the bounce and with the next ray.
pub open spec fn bounces_follow<T: Hittable, S: Fn(Ray, HitRecord) -> Surface>(
    bounces: Seq<Bounce>,
    last: Ray,
    first: Ray,
    world: T,
    respond: S,
) -> bool {
    &&& ray_at(bounces, last, 0) == first
    &&& forall|k: int|
        0 <= k < bounces.len() ==> match world.hit_spec((#[trigger] bounces[k]).ray, visible_spec()) {
            Some(rec) => call_ensures(
                respond,
                (bounces[k].ray, rec),
                Surface {
                    emission: bounces[k].emission,
                    scattered: Some(
                        Scattered {
                            attenuation: bounces[k].attenuation,
                            scattered: ray_at(bounces, last, k + 1),
                        },
                    ),
                },
            ),
            None => false,
        }
}

/// Whether the path ends as it must: exhausted after `depth` bounces;
/// else missed where the last ray hits nothing; else absorbed where the
/// surface that the last ray hits can answer with the light of the end and
/// no ray.
pub open spec fn ends_well<T: Hittable, S: Fn(Ray, HitRecord) -> Surface>(
    path: Path,
    depth: u32,
    world: T,
    respond: S,
) -> bool {
    match path.end {
        PathEnd::Exhausted => path.bounces@.len() == depth,
        PathEnd::Missed => path.bounces@.len() < depth && world.hit_spec(
            path.last,
            visible_spec(),
        ) is None,
        PathEnd::Absorbed(glow) => path.bounces@.len() < depth && match world.hit_spec(
            path.last,
            visible_spec(),
        ) {
            Some(rec) => call_ensures(
                respond,
                (path.last, rec),
                Surface { emission: glow, scattered: None },
            ),
            None => false,
        },
    }
}

impl Default for Ray {
    /// The ray whose fields are all positive zero.
    fn default() -> (r: Ray)
        ensures
            r.origin == Vec3::splat_spec(Scalar { bits: 0 }),
            r.direction == r.origin,
            r.time == (Scalar { bits: 0 }),
    {
        let zero = Vec3::splat(Scalar::zero());
        Ray { origin: zero, direction: zero, time: Scalar::zero() }
    }
}

impl Ray {
    /// The light path that decides the colour seen along the ray.
    ///
    /// The ray is followed through the scene for at most `depth` bounces.
    /// At each step the scene is asked for the nearest hit from 0.001
    /// onwards; where there is none the path ends as missed. `respond` says
    /// what the surface that was hit does: where it sends on no ray the
    /// path ends as absorbed, else the path goes on with the ray sent on.
    pub fn color<T: Hittable, S: Fn(Ray, HitRecord) -> Surface>(
        &self,
        depth: u32,
        world: &T,
        respond: &S,
    ) -> (path: Path)
        requires
            forall|ray: Ray, rec: HitRecord| call_requires(*respond, (ray, rec)),
        ensures
            path.bounces@.len() <= depth,
            bounces_follow(path.bounces@, path.last, *self, *world, *respond),
            ends_well(path, depth, *world, *respond),
    {
        let mut bounces: Vec<Bounce> = Vec::new();
        let mut ray = *self;
        let mut left = depth;
        while left > 0
            invariant
                bounces@.len() + left == depth,
                bounces_follow(bounces@, ray, *self, *world, *respond),
                forall|ray: Ray, rec: HitRecord| call_requires(*respond, (ray, rec)),
            decreases left,
        {
            let found = world.hit(&ray, visible());
            let rec = match found {
                Some(rec) => rec,
                None => {
                    return Path { bounces, last: ray, end: PathEnd::Missed };
                },
            };
            let surface = respond(ray, rec);
            let sent = match surface.scattered {
                Some(sent) => sent,
                None => {
                    return Path { bounces, last: ray, end: PathEnd::Absorbed(surface.emission) };
                },
            };
            let ghost before = bounces@;
            let bounce = Bounce { ray, emission: surface.emission, attenuation: sent.attenuation };
            bounces.push(bounce);
            proof {
                let after = bounces@;
                let next = sent.scattered;
                assert forall|k: int| 0 <= k < after.len() implies match world.hit_spec(
                    (#[trigger] after[k]).ray,
                    visible_spec(),
                ) {
                    Some(rec) => call_ensures(
                        *respond,
                        (after[k].ray, rec),
                        Surface {
                            emission: after[k].emission,
                            scattered: Some(
                                Scattered {
                                    attenuation: after[k].attenuation,
                                    scattered: ray_at(after, next, k + 1),
                                },
                            ),
                        },
                    ),
                    None => false,
                } by {
                    if k < before.len() {
                        assert(after[k] == before[k]);
                        assert(ray_at(after, next, k + 1) == ray_at(before, ray, k + 1));
                    } else {
                        assert(after[k] == bounce);
                        assert(ray_at(after, next, k + 1) == next);
                    }
                }
                assert(ray_at(after, next, 0) == *self);
            }
            ray = sent.scattered;
            left = left - 1;
        }
        Path { bounces, last: ray, end: PathEnd::Exhausted }
    }
}

} // verus!
