use raytracer::hittable::aabb::Aabb;
use raytracer::hittable::{HitRecord, Hittable};
use raytracer::interval::Interval;
use raytracer::material::Material;
use raytracer::scalar::{Scalar, Vec3};
use raytracer::shapes::a_box::{step, Box as SolidBox};
use raytracer::ray::Ray;
use raytracer::shapes::constant_medium::{ConstantMedium, FreePath};
use raytracer::shapes::cylinder::{Cap, Cylinder, CylinderHit, Lateral};
use raytracer::shapes::quad::Quad;
use raytracer::shapes::quad_box::{QuadBox, Side};
use raytracer::shapes::rounded_box::{Corner, Edge, RoundedBox};
use raytracer::shapes::sphere::Sphere;
use raytracer::shapes::Shapes;
use raytracer::textures::Texture;

fn s(x: f64) -> Scalar {
    Scalar::from_bits(x.to_bits())
}

fn f(x: Scalar) -> f64 {
    f64::from_bits(x.to_bits())
}

fn v(x: f64, y: f64, z: f64) -> Vec3 {
    Vec3::new(s(x), s(y), s(z))
}

fn range(start: f64, end: f64) -> Interval {
    Interval::new(s(start), s(end))
}

fn glass() -> Material {
    Material::Dielectric { index_of_refraction: s(1.5) }
}

#[test]
fn a_sphere_is_hit_at_its_nearer_root_in_range() {
    let all = range(0.001, f64::INFINITY);
    assert_eq!(Sphere::pick_root(s(1.0), s(4.0), s(6.0), all), Some(s(4.0)));
    assert_eq!(Sphere::pick_root(s(1.0), s(-6.0), s(4.0), all), Some(s(4.0)));
    assert_eq!(Sphere::pick_root(s(1.0), s(-6.0), s(-4.0), all), None);
    assert_eq!(Sphere::pick_root(s(0.0), s(5.0), s(5.0), all), Some(s(5.0)));
    assert_eq!(Sphere::pick_root(s(-0.5), s(4.0), s(6.0), all), None);
    assert_eq!(Sphere::pick_root(s(1.0), s(4.0), s(6.0), range(4.5, 5.5)), None);
    assert_eq!(Sphere::pick_root(s(1.0), s(4.0), s(6.0), range(4.5, 6.5)), Some(s(6.0)));
    assert_eq!(Sphere::pick_root(s(1.0), s(4.0), s(6.0), range(4.0, 6.0)), Some(s(4.0)));
    assert_eq!(Sphere::pick_root(s(1.0), s(4.0), s(6.0), range(0.0, 4.0)), None);
    assert_eq!(Sphere::pick_root(s(f64::NAN), s(f64::NAN), s(f64::NAN), all), None);
}

#[test]
fn a_sphere_is_made_at_rest_and_set_moving() {
    let still = Sphere::new(v(1.0, 2.0, 3.0), s(0.5), glass());
    assert_eq!(still.center, v(1.0, 2.0, 3.0));
    assert_eq!(still.radius, s(0.5));
    assert_eq!(still.move_to, None);
    let moving = still.with_move_to(v(1.0, 3.0, 3.0));
    assert_eq!(moving.center, v(1.0, 2.0, 3.0));
    assert_eq!(moving.radius, s(0.5));
    assert_eq!(moving.move_to, Some(v(1.0, 3.0, 3.0)));
    let plain = Sphere::default();
    assert_eq!(plain.center, v(0.0, 0.0, 0.0));
    assert_eq!(plain.radius, s(0.0));
    assert_eq!(plain.move_to, None);
    match plain.material {
        Material::Lambertian { albedo: Texture::SolidColor(color) } => {
            assert_eq!(color, v(0.0, 1.0, 1.0))
        }
        _ => panic!("a plain sphere is matt"),
    }
}

#[test]
fn a_point_of_a_quad_has_coordinates_from_zero_to_one() {
    assert_eq!(Quad::is_interior(s(0.0), s(0.0)), Some((s(0.0), s(0.0))));
    assert_eq!(Quad::is_interior(s(1.0), s(1.0)), Some((s(1.0), s(1.0))));
    assert_eq!(Quad::is_interior(s(0.25), s(0.75)), Some((s(0.25), s(0.75))));
    assert_eq!(Quad::is_interior(s(-1e-9), s(0.5)), None);
    assert_eq!(Quad::is_interior(s(0.5), s(1.0000001)), None);
    assert_eq!(Quad::is_interior(s(1.5), s(0.5)), None);
    assert_eq!(Quad::is_interior(s(0.5), s(-0.5)), None);
}

#[test]
fn a_ray_along_the_plane_misses_a_quad() {
    assert!(Quad::is_parallel(s(0.0)));
    assert!(Quad::is_parallel(s(9e-9)));
    assert!(Quad::is_parallel(s(-9e-9)));
    assert!(!Quad::is_parallel(s(1e-8)));
    assert!(!Quad::is_parallel(s(-1e-8)));
    assert!(!Quad::is_parallel(s(1.0)));
    let all = range(0.001, f64::INFINITY);
    assert_eq!(Quad::locate(s(0.0), s(2.0), s(0.5), s(0.5), all), None);
    assert_eq!(Quad::locate(s(1.0), s(2.0), s(0.5), s(0.25), all), Some((s(0.5), s(0.25))));
    assert_eq!(Quad::locate(s(1.0), s(-2.0), s(0.5), s(0.25), all), None);
    assert_eq!(Quad::locate(s(1.0), s(2.0), s(1.5), s(0.25), all), None);
    assert_eq!(Quad::locate(s(-1.0), s(2.0), s(0.5), s(0.25), range(0.001, 2.0)), None);
}

#[test]
fn a_quad_keeps_what_it_is_given() {
    let quad = Quad::new(
        v(0.0, 0.0, 0.0),
        v(1.0, 0.0, 0.0),
        v(0.0, 1.0, 0.0),
        glass(),
        v(0.0, 0.0, 1.0),
        s(0.0),
        v(0.0, 0.0, 1.0),
    );
    assert_eq!(quad.q, v(0.0, 0.0, 0.0));
    assert_eq!(quad.u, v(1.0, 0.0, 0.0));
    assert_eq!(quad.v, v(0.0, 1.0, 0.0));
    assert_eq!(quad.normal, v(0.0, 0.0, 1.0));
    assert_eq!(quad.d, s(0.0));
    assert_eq!(quad.w, v(0.0, 0.0, 1.0));
}

#[test]
fn the_sides_of_a_box_face_outwards() {
    let (min, max) = QuadBox::corners(v(3.0, -2.0, 5.0), v(-1.0, 4.0, 1.0));
    assert_eq!(min, v(-1.0, -2.0, 1.0));
    assert_eq!(max, v(3.0, 4.0, 5.0));
    let sides = QuadBox::sides(min, max, v(4.0, 6.0, 4.0));
    let dx = v(4.0, 0.0, 0.0);
    let dy = v(0.0, 6.0, 0.0);
    let dz = v(0.0, 0.0, 4.0);
    let expected = vec![
        Side { q: v(-1.0, -2.0, 5.0), u: dx, v: dy },
        Side { q: v(3.0, -2.0, 5.0), u: v(-0.0, -0.0, -4.0), v: dy },
        Side { q: v(3.0, -2.0, 1.0), u: v(-4.0, -0.0, -0.0), v: dy },
        Side { q: v(-1.0, -2.0, 1.0), u: dz, v: dy },
        Side { q: v(-1.0, 4.0, 5.0), u: dx, v: v(-0.0, -0.0, -4.0) },
        Side { q: v(-1.0, -2.0, 1.0), u: dx, v: dz },
    ];
    assert_eq!(sides, expected);
    // The cross product of the edges of each side points away from the
    // middle of the box.
    let middle = [1.0, 1.0, 3.0];
    for side in &sides {
        let (u, w) = ([f(side.u.x), f(side.u.y), f(side.u.z)], [f(side.v.x), f(side.v.y), f(side.v.z)]);
        let n = [u[1] * w[2] - u[2] * w[1], u[2] * w[0] - u[0] * w[2], u[0] * w[1] - u[1] * w[0]];
        let out = [f(side.q.x) - middle[0], f(side.q.y) - middle[1], f(side.q.z) - middle[2]];
        assert!(n[0] * out[0] + n[1] * out[1] + n[2] * out[2] > 0.0);
    }
    let made = QuadBox::new(v(3.0, -2.0, 5.0), v(-1.0, 4.0, 1.0), glass(), vec![]);
    assert_eq!(made.a, v(3.0, -2.0, 5.0));
    assert_eq!(made.b, v(-1.0, 4.0, 1.0));
    assert!(made.objects.is_empty());
}

#[test]
fn a_solid_box_is_hit_where_the_ray_enters_or_leaves() {
    let all = range(0.001, f64::INFINITY);
    assert_eq!(SolidBox::pick(s(4.0), s(6.0), all), Some(s(4.0)));
    assert_eq!(SolidBox::pick(s(-1.0), s(1.0), all), Some(s(1.0)));
    assert_eq!(SolidBox::pick(s(6.0), s(4.0), all), None);
    assert_eq!(SolidBox::pick(s(-6.0), s(-4.0), all), None);
    assert_eq!(SolidBox::pick(s(-6.0), s(0.0), all), None);
    assert_eq!(SolidBox::pick(s(4.0), s(6.0), range(0.001, 3.0)), None);
    assert_eq!(SolidBox::pick(s(4.0), s(6.0), range(5.0, 7.0)), Some(s(6.0)));
}

#[test]
fn the_step_is_one_from_the_edge_on() {
    assert_eq!(step(v(1.0, 2.0, 3.0), v(1.0, 1.5, 4.0)), v(1.0, 0.0, 1.0));
    assert_eq!(step(v(0.0, 0.0, 0.0), v(-0.0, -1.0, f64::NAN)), v(1.0, 0.0, 0.0));
}

fn lateral(discriminant: f64, d: f64, y: f64, caca: f64) -> Lateral {
    Lateral { discriminant: s(discriminant), d: s(d), y: s(y), caca: s(caca) }
}

fn cap(d: f64, reach: f64, limit: f64) -> Cap {
    Cap { d: s(d), reach: s(reach), limit: s(limit) }
}

#[test]
fn a_cylinder_is_hit_on_its_side_or_on_a_cap() {
    let all = range(0.001, f64::INFINITY);
    let no_cap = cap(9.0, 2.0, 1.0);
    assert_eq!(
        Cylinder::pick(lateral(1.0, 3.0, 2.0, 4.0), no_cap, all),
        Some(CylinderHit::Side(s(3.0)))
    );
    assert_eq!(Cylinder::pick(lateral(-1.0, 3.0, 2.0, 4.0), cap(9.0, 0.5, 1.0), all), None);
    assert_eq!(Cylinder::pick(lateral(1.0, 3.0, 5.0, 4.0), no_cap, all), None);
    assert_eq!(
        Cylinder::pick(lateral(1.0, 3.0, 5.0, 4.0), cap(9.0, 0.5, 1.0), all),
        Some(CylinderHit::Cap(s(9.0)))
    );
    assert_eq!(
        Cylinder::pick(lateral(1.0, 3.0, 0.0, 4.0), cap(2.0, 0.5, 1.0), all),
        Some(CylinderHit::Cap(s(2.0)))
    );
    assert_eq!(
        Cylinder::pick(lateral(1.0, 3.0, 2.0, 4.0), cap(9.0, 0.5, 1.0), range(5.0, 10.0)),
        Some(CylinderHit::Cap(s(9.0)))
    );
    assert_eq!(Cylinder::pick(lateral(1.0, 3.0, 5.0, 4.0), cap(-9.0, 0.5, 1.0), all), None);
    assert_eq!(Cylinder::cap_plane(lateral(1.0, 3.0, -0.5, 4.0)), s(0.0));
    assert_eq!(Cylinder::cap_plane(lateral(1.0, 3.0, 5.0, 4.0)), s(4.0));
    assert_eq!(Cylinder::cap_plane(lateral(1.0, 3.0, 0.0, 4.0)), s(4.0));
}

fn edge(discriminant: f64, t: f64, along: f64, limit: f64) -> Edge {
    Edge { discriminant: s(discriminant), t: s(t), along: s(along), limit: s(limit) }
}

#[test]
fn a_rounded_box_is_entered_through_its_grown_box() {
    let all = range(0.001, f64::INFINITY);
    assert_eq!(RoundedBox::entry(s(4.0), s(6.0), all), Some(s(4.0)));
    assert_eq!(RoundedBox::entry(s(6.0), s(4.0), all), None);
    assert_eq!(RoundedBox::entry(s(-6.0), s(-4.0), all), None);
    assert_eq!(RoundedBox::entry(s(-1.0), s(1.0), all), Some(s(1.0)));
    assert_eq!(RoundedBox::entry(s(4.0), s(6.0), range(0.001, 4.0)), Some(s(4.0)));
    assert_eq!(RoundedBox::entry(s(4.0), s(6.0), range(0.001, 3.0)), Some(s(1e100)));
    assert_eq!(RoundedBox::entry(s(-1.0), s(0.0), all), Some(s(1e100)));
    assert!(RoundedBox::on_face(s(-0.1), s(4.0), all));
    assert!(!RoundedBox::on_face(s(0.0), s(4.0), all));
    assert!(!RoundedBox::on_face(s(0.1), s(4.0), all));
    assert!(!RoundedBox::on_face(s(-0.1), s(1e100), range(0.001, 9.0)));
}

#[test]
fn the_rounded_parts_of_a_box_are_tried_in_turn() {
    let all = range(0.001, 100.0);
    let none = edge(-1.0, 0.0, 0.0, 1.0);
    let no_corner = Corner { discriminant: s(-1.0), t: s(1.0) };
    assert_eq!(RoundedBox::rounding(no_corner, none, none, none, all), None);
    let corner = Corner { discriminant: s(1.0), t: s(7.0) };
    assert_eq!(RoundedBox::rounding(corner, none, none, none, all), Some(s(7.0)));
    assert_eq!(
        RoundedBox::rounding(corner, edge(1.0, 5.0, 0.5, 1.0), none, none, all),
        Some(s(5.0))
    );
    assert_eq!(
        RoundedBox::rounding(corner, edge(1.0, 5.0, 1.5, 1.0), none, none, all),
        Some(s(7.0))
    );
    assert_eq!(
        RoundedBox::rounding(corner, edge(1.0, 5.0, -0.5, 1.0), edge(1.0, 6.0, 0.0, 1.0), edge(1.0, 3.0, 0.0, 1.0), all),
        Some(s(3.0))
    );
    assert_eq!(
        RoundedBox::rounding(no_corner, none, edge(1.0, 8.0, 0.0, 1.0), none, all),
        Some(s(8.0))
    );
    assert_eq!(
        RoundedBox::rounding(corner, edge(1.0, 0.0001, 0.0, 1.0), none, none, all),
        Some(s(7.0))
    );
    assert_eq!(RoundedBox::rounding(corner, none, none, none, range(0.001, 7.0)), None);
    assert_eq!(RoundedBox::try_edge(edge(0.0, 5.0, 0.0, 1.0), s(7.0), all), s(7.0));
}

#[test]
fn a_medium_is_crossed_between_entry_and_exit() {
    let all = range(0.001, f64::INFINITY);
    assert_eq!(ConstantMedium::span(s(2.0), s(5.0), all), Some((s(2.0), s(5.0))));
    assert_eq!(ConstantMedium::span(s(-2.0), s(5.0), all), Some((s(0.001), s(5.0))));
    assert_eq!(ConstantMedium::span(s(2.0), s(5.0), range(3.0, 4.0)), Some((s(3.0), s(4.0))));
    assert_eq!(ConstantMedium::span(s(2.0), s(5.0), range(6.0, 9.0)), None);
    assert_eq!(ConstantMedium::span(s(2.0), s(5.0), range(0.0, 2.0)), None);
    assert_eq!(ConstantMedium::span(s(5.0), s(5.0), all), None);
    assert_eq!(
        ConstantMedium::span(s(-3.0), s(5.0), range(-1.0, 9.0)),
        Some((s(0.0), s(5.0)))
    );
    let line = ConstantMedium::whole_line();
    assert_eq!(line, range(f64::NEG_INFINITY, f64::INFINITY));
    assert!(line.contains(s(-1e308)));
    assert!(line.contains(s(f64::NEG_INFINITY)));
    assert!(!line.contains(s(f64::INFINITY)));
    assert_eq!(ConstantMedium::beyond(s(2.0001)), range(2.0001, f64::INFINITY));
}

#[test]
fn a_ray_passes_a_medium_when_its_free_path_is_longer() {
    assert!(ConstantMedium::passes(s(3.0), s(2.0)));
    assert!(!ConstantMedium::passes(s(2.0), s(2.0)));
    assert!(!ConstantMedium::passes(s(1.0), s(2.0)));
    assert!(!ConstantMedium::passes(s(f64::NAN), s(2.0)));
}

#[test]
fn a_medium_of_no_density_lets_every_ray_pass() {
    let neg_inv_density = -(0.0f64.recip());
    for draw in [0.0f64, 1e-300, 0.25, 0.5, 0.999999] {
        let hit_distance = neg_inv_density * draw.log10();
        assert_eq!(hit_distance, f64::INFINITY);
        for distance_inside in [0.0, 1e-9, 1.0, 1e300, f64::MAX] {
            assert!(ConstantMedium::passes(s(hit_distance), s(distance_inside)));
        }
    }
}

#[test]
fn a_scattering_in_a_medium_has_a_fixed_normal() {
    let texture = Texture::from(v(0.5, 0.5, 0.5));
    let boundary = Shapes::Sphere(Sphere::new(v(0.0, 0.0, 0.0), s(1.0), glass()));
    let medium = ConstantMedium::new(boundary, s(-100.0), texture);
    assert_eq!(medium.neg_inv_density, s(-100.0));
    assert!(matches!(*medium.boundary, Shapes::Sphere(_)));
    let rec: HitRecord = ConstantMedium::record(medium.phase_function, v(1.0, 2.0, 3.0), s(4.0));
    assert_eq!(rec.point, v(1.0, 2.0, 3.0));
    assert_eq!(rec.normal, v(1.0, 0.0, 0.0));
    assert_eq!(rec.t, s(4.0));
    assert!(rec.front_face);
    assert_eq!(rec.u, s(0.0));
    assert_eq!(rec.v, s(0.0));
    match rec.material {
        Material::Isotropic { albedo: Texture::SolidColor(color) } => {
            assert_eq!(color, v(0.5, 0.5, 0.5))
        }
        _ => panic!("a medium scatters evenly"),
    }
}

#[test]
fn a_turned_shape_keeps_its_angle_and_its_object() {
    let inner = Shapes::Sphere(Sphere::new(v(0.0, 0.0, 0.0), s(1.0), glass()));
    match Shapes::new_rotate_y(s(0.5), s(0.75), inner) {
        Shapes::RotateY { sin_theta, cos_theta, object } => {
            assert_eq!(sin_theta, s(0.5));
            assert_eq!(cos_theta, s(0.75));
            assert!(matches!(*object, Shapes::Sphere(_)));
        }
        _ => panic!("a turned shape is a rotation"),
    }
}

/// A slab of fog between two planes across the third axis.
struct Slice {
    near: f64,
    far: f64,
}

impl Hittable for Slice {
    fn hit(&self, ray: &Ray, interval: Interval) -> Option<HitRecord> {
        let origin = f(ray.origin.z);
        let direction = f(ray.direction.z);
        let mut crossings = [(self.near - origin) / direction, (self.far - origin) / direction];
        crossings.sort_by(|a, b| a.total_cmp(b));
        let t = crossings.into_iter().find(|t| interval.contains(s(*t)))?;
        Some(HitRecord::with_face_normal(
            glass(),
            v(0.0, 0.0, origin + t * direction),
            v(0.0, 0.0, 1.0),
            s(t),
            s(direction),
            s(0.0),
            s(0.0),
        ))
    }

    fn bounding_box(&self) -> Aabb {
        Aabb::from((v(-1e9, -1e9, self.near), v(1e9, 1e9, self.far)))
    }
}

fn into_the_fog() -> Ray {
    Ray { origin: v(0.0, 0.0, 0.0), direction: v(0.0, 0.0, 2.0), time: s(0.0) }
}

/// The free path of a ray of `into_the_fog` that scatters after `length`.
fn free_path(length: f64) -> impl Fn(Scalar, Scalar) -> FreePath {
    move |entry: Scalar, exit: Scalar| {
        let t = f(entry) + length / 2.0;
        FreePath {
            distance_inside: s((f(exit) - f(entry)) * 2.0),
            hit_distance: s(length),
            t: s(t),
            point: v(0.0, 0.0, 2.0 * t),
        }
    }
}

fn past(t: Scalar) -> Scalar {
    s(f(t) + 0.0001)
}

fn fog() -> Material {
    Material::Isotropic { albedo: Texture::from(v(0.5, 0.5, 0.5)) }
}

#[test]
fn a_ray_scatters_inside_a_medium_at_the_end_of_its_free_path() {
    let boundary = Slice { near: 4.0, far: 10.0 };
    let all = range(0.001, f64::INFINITY);
    let found = ConstantMedium::hit(&boundary, fog(), &into_the_fog(), all, &past, &free_path(3.0));
    let rec = found.expect("the free path ends inside the medium");
    assert_eq!(rec.t, s(3.5));
    assert_eq!(rec.point, v(0.0, 0.0, 7.0));
    assert_eq!(rec.normal, v(1.0, 0.0, 0.0));
    assert!(rec.front_face);
    assert!(matches!(rec.material, Material::Isotropic { .. }));
}

#[test]
fn a_ray_with_a_long_free_path_leaves_the_medium() {
    let boundary = Slice { near: 4.0, far: 10.0 };
    let all = range(0.001, f64::INFINITY);
    let ray = into_the_fog();
    assert!(ConstantMedium::hit(&boundary, fog(), &ray, all, &past, &free_path(6.5)).is_none());
    assert!(ConstantMedium::hit(&boundary, fog(), &ray, all, &past, &free_path(6.0)).is_some());
    assert!(ConstantMedium::hit(&boundary, fog(), &ray, all, &past, &free_path(f64::INFINITY)).is_none());
}

#[test]
fn a_ray_starts_inside_a_medium_at_its_origin() {
    let boundary = Slice { near: -4.0, far: 10.0 };
    let ray = into_the_fog();
    let found = ConstantMedium::hit(&boundary, fog(), &ray, range(0.0, f64::INFINITY), &past, &free_path(1.0));
    assert_eq!(found.expect("the ray scatters").t, s(0.5));
    let clipped = ConstantMedium::hit(&boundary, fog(), &ray, range(2.0, 3.0), &past, &free_path(1.0));
    assert_eq!(clipped.expect("the ray scatters").t, s(2.5));
    assert!(ConstantMedium::hit(&boundary, fog(), &ray, range(2.0, 3.0), &past, &free_path(2.5)).is_none());
}

#[test]
fn a_medium_that_the_ray_does_not_cross_twice_is_not_hit() {
    let all = range(0.001, f64::INFINITY);
    let sideways = Ray { origin: v(0.0, 0.0, 0.0), direction: v(1.0, 0.0, 0.0), time: s(0.0) };
    let boundary = Slice { near: 4.0, far: 10.0 };
    assert!(ConstantMedium::hit(&boundary, fog(), &sideways, all, &past, &free_path(0.1)).is_none());
    let behind = Slice { near: -10.0, far: -4.0 };
    assert!(ConstantMedium::hit(&behind, fog(), &into_the_fog(), all, &past, &free_path(0.1)).is_none());
    let sheet = Slice { near: 4.0, far: 4.0 };
    assert!(ConstantMedium::hit(&sheet, fog(), &into_the_fog(), all, &past, &free_path(0.1)).is_none());
}

#[test]
fn a_free_path_scatters_unless_it_is_longer_than_the_way_inside() {
    let path = FreePath { distance_inside: s(2.0), hit_distance: s(1.5), t: s(7.0), point: v(1.0, 2.0, 3.0) };
    let rec = ConstantMedium::scattering(fog(), path).expect("the ray scatters");
    assert_eq!(rec.t, s(7.0));
    assert_eq!(rec.point, v(1.0, 2.0, 3.0));
    let long = FreePath { hit_distance: s(2.5), ..path };
    assert!(ConstantMedium::scattering(fog(), long).is_none());
}
