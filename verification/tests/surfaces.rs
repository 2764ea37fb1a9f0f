use raytracer::hittable::HitRecord;
use raytracer::material::vectors::{inside_unit, random_on_hemisphere};
use raytracer::material::{near_zero, Material, ScatterSample, Scattered};
use raytracer::ray::Ray;
use raytracer::scalar::{Scalar, Vec3};
use raytracer::textures::{Texel, Texture};

fn s(x: f64) -> Scalar {
    Scalar::from_bits(x.to_bits())
}

fn v(x: f64, y: f64, z: f64) -> Vec3 {
    Vec3::new(s(x), s(y), s(z))
}

fn incoming() -> Ray {
    Ray { origin: v(0.0, 5.0, 0.0), direction: v(1.0, -1.0, 0.0), time: s(0.25) }
}

fn struck(material: Material, front_face: bool) -> HitRecord {
    HitRecord {
        point: v(5.0, 0.0, 0.0),
        normal: v(0.0, 1.0, 0.0),
        t: s(5.0),
        front_face,
        material,
        u: s(0.5),
        v: s(0.5),
    }
}

fn sample() -> ScatterSample {
    ScatterSample {
        albedo: v(0.1, 0.2, 0.3),
        diffuse: v(0.5, 1.5, 0.0),
        mirrored: v(0.7, 0.7, 0.0),
        mirrored_facing: s(0.7),
        bend: s(0.4),
        reflectance: s(0.04),
        draw: s(0.5),
        reflected: v(1.0, 1.0, 0.0),
        refracted: v(1.0, -2.0, 0.0),
        isotropic: v(0.0, 0.0, 1.0),
    }
}

fn sent(attenuation: Vec3, direction: Vec3) -> Option<Scattered> {
    Some(Scattered {
        attenuation,
        scattered: Ray { origin: v(5.0, 0.0, 0.0), direction, time: s(0.25) },
    })
}

fn grey() -> Texture {
    Texture::SolidColor(v(0.5, 0.5, 0.5))
}

#[test]
fn a_matt_surface_scatters_round_the_normal() {
    let material = Material::Lambertian { albedo: grey() };
    let rec = struck(material.clone(), true);
    assert_eq!(material.scatter(&incoming(), &rec, &sample()), sent(v(0.1, 0.2, 0.3), v(0.5, 1.5, 0.0)));
}

#[test]
fn a_matt_surface_falls_back_on_the_normal() {
    let material = Material::Lambertian { albedo: grey() };
    let rec = struck(material.clone(), true);
    let mut degenerate = sample();
    degenerate.diffuse = v(1e-9, -1e-9, 0.0);
    assert_eq!(
        material.scatter(&incoming(), &rec, &degenerate),
        sent(v(0.1, 0.2, 0.3), v(0.0, 1.0, 0.0))
    );
    assert!(near_zero(v(0.0, 0.0, 0.0)));
    assert!(near_zero(v(1e-8, -1e-8, 1e-9)));
    assert!(!near_zero(v(1e-8, 2e-8, 0.0)));
    assert!(!near_zero(v(f64::NAN, 0.0, 0.0)));
}

#[test]
fn a_metal_absorbs_what_points_into_it() {
    let material = Material::Metal { albedo: v(0.8, 0.8, 0.8), fuzz: s(0.0) };
    let rec = struck(material.clone(), true);
    assert_eq!(material.scatter(&incoming(), &rec, &sample()), sent(v(0.8, 0.8, 0.8), v(0.7, 0.7, 0.0)));
    let mut grazing = sample();
    grazing.mirrored_facing = s(0.0);
    assert_eq!(material.scatter(&incoming(), &rec, &grazing), None);
    grazing.mirrored_facing = s(-0.3);
    assert_eq!(material.scatter(&incoming(), &rec, &grazing), None);
}

#[test]
fn a_dielectric_reflects_or_refracts_and_keeps_all_light() {
    let material = Material::Dielectric { index_of_refraction: s(1.5) };
    let rec = struck(material.clone(), true);
    let white = v(1.0, 1.0, 1.0);
    assert_eq!(material.scatter(&incoming(), &rec, &sample()), sent(white, v(1.0, -2.0, 0.0)));
    let mut total = sample();
    total.bend = s(1.2);
    assert_eq!(material.scatter(&incoming(), &rec, &total), sent(white, v(1.0, 1.0, 0.0)));
    let mut glancing = sample();
    glancing.reflectance = s(0.9);
    assert_eq!(material.scatter(&incoming(), &rec, &glancing), sent(white, v(1.0, 1.0, 0.0)));
    let mut even = sample();
    even.reflectance = s(0.5);
    even.bend = s(1.0);
    assert_eq!(material.scatter(&incoming(), &rec, &even), sent(white, v(1.0, -2.0, 0.0)));
    assert!(Material::reflects(&total));
    assert!(!Material::reflects(&sample()));
}

#[test]
fn the_refraction_ratio_depends_on_the_side() {
    assert_eq!(Material::refraction_ratio(true, s(1.5), s(1.0 / 1.5)), s(1.0 / 1.5));
    assert_eq!(Material::refraction_ratio(false, s(1.5), s(1.0 / 1.5)), s(1.5));
}

#[test]
fn a_lamp_emits_and_does_not_scatter() {
    let lamp = Material::DiffuseLight { emit: grey() };
    let rec = struck(lamp.clone(), true);
    assert_eq!(lamp.scatter(&incoming(), &rec, &sample()), None);
    assert_eq!(lamp.emitted(v(4.0, 4.0, 4.0)), v(4.0, 4.0, 4.0));
    let black = v(0.0, 0.0, 0.0);
    assert_eq!(Material::Lambertian { albedo: grey() }.emitted(v(4.0, 4.0, 4.0)), black);
    assert_eq!(Material::Metal { albedo: v(1.0, 1.0, 1.0), fuzz: s(0.0) }.emitted(v(4.0, 4.0, 4.0)), black);
    assert_eq!(Material::Dielectric { index_of_refraction: s(1.5) }.emitted(v(4.0, 4.0, 4.0)), black);
    assert_eq!(Material::Isotropic { albedo: grey() }.emitted(v(4.0, 4.0, 4.0)), black);
}

#[test]
fn a_fog_scatters_in_any_direction() {
    let material = Material::Isotropic { albedo: grey() };
    let rec = struck(material.clone(), true);
    assert_eq!(material.scatter(&incoming(), &rec, &sample()), sent(v(0.1, 0.2, 0.3), v(0.0, 0.0, 1.0)));
}

#[test]
fn a_normal_is_turned_against_the_ray() {
    let outward = v(0.0, 1.0, 0.0);
    assert_eq!(HitRecord::calc_face_normal(s(-1.0), &outward), (true, outward));
    assert_eq!(HitRecord::calc_face_normal(s(1.0), &outward), (false, v(-0.0, -1.0, -0.0)));
    assert_eq!(HitRecord::calc_face_normal(s(0.0), &outward), (false, v(-0.0, -1.0, -0.0)));
    assert_eq!(HitRecord::calc_face_normal(s(f64::NAN), &outward), (false, v(-0.0, -1.0, -0.0)));
    let glass = Material::Dielectric { index_of_refraction: s(1.5) };
    let rec = HitRecord::with_face_normal(glass.clone(), v(1.0, 2.0, 3.0), outward, s(4.0), s(2.0), s(0.25), s(0.75));
    assert_eq!(rec.point, v(1.0, 2.0, 3.0));
    assert_eq!(rec.normal, v(-0.0, -1.0, -0.0));
    assert_eq!(rec.t, s(4.0));
    assert!(!rec.front_face);
    assert_eq!(rec.u, s(0.25));
    assert_eq!(rec.v, s(0.75));
    let mut again = rec.clone();
    again.set_face_normal(s(-2.0), &outward);
    assert!(again.front_face);
    assert_eq!(again.normal, outward);
    assert_eq!(again.point, rec.point);
    assert_eq!(again.t, rec.t);
}

#[test]
fn the_direction_never_runs_with_the_normal_it_is_given() {
    // The product of the direction with the returned normal, in the
    // arithmetic of the machine.
    let directions = [[1.0, -1.0, 0.0], [0.3, 0.4, -0.5], [0.0, 1.0, 0.0], [-2.0, 0.5, 7.0]];
    let normals = [[0.0, 1.0, 0.0], [0.6, 0.0, 0.8], [-1.0, 0.0, 0.0]];
    for d in directions {
        for n in normals {
            let facing: f64 = d[0] * n[0] + d[1] * n[1] + d[2] * n[2];
            let (_, turned) = HitRecord::calc_face_normal(s(facing), &v(n[0], n[1], n[2]));
            let t = [
                f64::from_bits(turned.x.to_bits()),
                f64::from_bits(turned.y.to_bits()),
                f64::from_bits(turned.z.to_bits()),
            ];
            assert!(d[0] * t[0] + d[1] * t[1] + d[2] * t[2] <= 0.0);
        }
    }
}

#[test]
fn a_hit_on_a_moved_shape_keeps_all_but_the_place() {
    let glass = Material::Dielectric { index_of_refraction: s(1.5) };
    let rec = struck(glass, true);
    let moved = rec.clone().moved(v(6.0, 1.0, 1.0));
    assert_eq!(moved.point, v(6.0, 1.0, 1.0));
    assert_eq!(moved.normal, rec.normal);
    assert_eq!(moved.t, rec.t);
    let turned = rec.clone().turned(v(0.0, 0.0, 5.0), v(0.0, 0.0, 1.0));
    assert_eq!(turned.point, v(0.0, 0.0, 5.0));
    assert_eq!(turned.normal, v(0.0, 0.0, 1.0));
    assert_eq!(turned.t, rec.t);
    assert_eq!(turned.front_face, rec.front_face);
}

#[test]
fn a_drawn_point_is_kept_inside_the_unit_sphere() {
    assert!(inside_unit(s(0.0)));
    assert!(inside_unit(s(0.999999)));
    assert!(!inside_unit(s(1.0)));
    assert!(!inside_unit(s(2.5)));
    assert!(!inside_unit(s(f64::NAN)));
    assert_eq!(random_on_hemisphere(v(1.0, 2.0, 3.0), s(0.5)), v(1.0, 2.0, 3.0));
    assert_eq!(random_on_hemisphere(v(1.0, 2.0, 3.0), s(-0.5)), v(-1.0, -2.0, -3.0));
    assert_eq!(random_on_hemisphere(v(1.0, 2.0, 3.0), s(0.0)), v(-1.0, -2.0, -3.0));
}

#[test]
fn a_checkered_texture_alternates_by_the_parity_of_the_cube() {
    assert!(Texture::is_even((0, 0, 0)));
    assert!(!Texture::is_even((1, 0, 0)));
    assert!(Texture::is_even((1, 1, 0)));
    assert!(!Texture::is_even((-1, 0, 0)));
    assert!(Texture::is_even((-1, -1, 0)));
    assert!(!Texture::is_even((-3, 1, -1)));
    assert!(!Texture::is_even((i32::MAX, i32::MAX, i32::MAX)));
    assert!(Texture::is_even((i32::MIN, i32::MIN, 0)));
    assert!(!Texture::is_even((i32::MIN, i32::MAX, 0)));
    let squares = Texture::Checkered { even: v(1.0, 1.0, 1.0), odd: v(0.0, 0.0, 0.0), scale: s(0.5) };
    let sampled = v(9.0, 9.0, 9.0);
    assert_eq!(squares.color((2, 3, 5), sampled), v(1.0, 1.0, 1.0));
    assert_eq!(squares.color((2, 3, 4), sampled), v(0.0, 0.0, 0.0));
    assert_eq!(Texture::from(v(0.2, 0.4, 0.6)).color((1, 0, 0), sampled), v(0.2, 0.4, 0.6));
    let noise = Texture::Turbulence(noise::Perlin::new(1));
    assert_eq!(noise.color((1, 0, 0), sampled), sampled);
    let picture = Texture::Image(image::DynamicImage::new_rgb8(2, 2));
    assert_eq!(picture.clone().color((0, 0, 0), sampled), sampled);
}

fn picture() -> image::DynamicImage {
    let mut buffer = image::RgbImage::new(3, 2);
    for y in 0..2u32 {
        for x in 0..3u32 {
            buffer.put_pixel(x, y, image::Rgb([(10 * x) as u8, (100 * y) as u8, 7]));
        }
    }
    image::DynamicImage::ImageRgb8(buffer)
}

#[test]
fn a_picture_shows_its_pixels_by_column_and_row() {
    let picture = picture();
    assert_eq!(Texture::texel(&picture, 0, 0), Some(Texel::Pixel(0, 0, 7)));
    assert_eq!(Texture::texel(&picture, 2, 0), Some(Texel::Pixel(20, 0, 7)));
    assert_eq!(Texture::texel(&picture, 1, 1), Some(Texel::Pixel(10, 100, 7)));
    assert_eq!(Texture::texel(&picture, 2, 1), Some(Texel::Pixel(20, 100, 7)));
}

#[test]
fn a_picture_shows_nothing_outside_itself() {
    let picture = picture();
    assert_eq!(Texture::texel(&picture, 3, 0), None);
    assert_eq!(Texture::texel(&picture, 0, 2), None);
    assert_eq!(Texture::texel(&picture, u32::MAX, u32::MAX), None);
}

#[test]
fn a_picture_without_rows_is_blank() {
    let empty = image::DynamicImage::new_rgb8(0, 0);
    assert_eq!(Texture::texel(&empty, 0, 0), Some(Texel::Blank));
    assert_eq!(Texture::texel(&empty, 5, 9), Some(Texel::Blank));
    let flat = image::DynamicImage::new_rgb8(4, 0);
    assert_eq!(Texture::texel(&flat, 1, 0), Some(Texel::Blank));
    let thin = image::DynamicImage::new_rgb8(0, 4);
    assert_eq!(Texture::texel(&thin, 0, 1), None);
}

#[test]
fn a_grey_picture_shows_its_grey_in_every_channel() {
    let mut buffer = image::GrayImage::new(1, 1);
    buffer.put_pixel(0, 0, image::Luma([200]));
    let picture = image::DynamicImage::ImageLuma8(buffer);
    assert_eq!(Texture::texel(&picture, 0, 0), Some(Texel::Pixel(200, 200, 200)));
}

#[test]
fn a_metal_without_fuzz_sends_on_the_mirrored_direction() {
    let d = [1.0f64, -1.0, 0.0];
    let n = [0.0f64, 1.0, 0.0];
    let along = d[0] * n[0] + d[1] * n[1] + d[2] * n[2];
    let reflected = [d[0] - 2.0 * along * n[0], d[1] - 2.0 * along * n[1], d[2] - 2.0 * along * n[2]];
    let fuzz = 0.0;
    let drawn = [0.6, 0.0, 0.8];
    let mirrored = [
        reflected[0] + fuzz * drawn[0],
        reflected[1] + fuzz * drawn[1],
        reflected[2] + fuzz * drawn[2],
    ];
    let material = Material::Metal { albedo: v(0.8, 0.6, 0.2), fuzz: s(fuzz) };
    let rec = struck(material.clone(), true);
    let mut mirror = sample();
    mirror.mirrored = v(mirrored[0], mirrored[1], mirrored[2]);
    mirror.mirrored_facing = s(mirrored[0] * n[0] + mirrored[1] * n[1] + mirrored[2] * n[2]);
    assert_eq!(material.scatter(&incoming(), &rec, &mirror), sent(v(0.8, 0.6, 0.2), v(1.0, 1.0, 0.0)));
}
