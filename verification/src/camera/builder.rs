//! The settings of a camera.

use vstd::prelude::*;
use crate::camera::{Camera, Frame};
use crate::scalar::{Scalar, Vec3, ONE_BITS, SIGN_BIT};

verus! {

/// The pattern of 16/9, the aspect ratio of a camera that was given none.
pub const WIDE_BITS: u64 = 0x3FFC_71C7_1C71_C71C;

/// The pattern of ten, the focus distance of a camera that was given none.
pub const TEN_BITS: u64 = 0x4024_0000_0000_0000;

/// The pattern of twenty, the field of view in degrees of a camera that
/// was given none.
pub const TWENTY_BITS: u64 = 0x4034_0000_0000_0000;

/// What a camera is made from. Each setter replaces one setting and keeps
/// the others.
#[derive(Clone, Copy, Debug, PartialEq, Eq, Structural)]
pub struct CameraBuilder {
    pub image_width: u32,
    pub aspect_ratio: Scalar,
    pub look_from: Vec3,
    pub look_at: Vec3,
    pub vup: Vec3,
    pub focus_dist: Scalar,
    pub defocus_angle: Scalar,
    pub samples_per_pixel: u32,
    pub max_depth: u32,
    pub vfov: Scalar,
    pub background: Option<Vec3>,
}

/// The settings of a camera that was given none: 400 pixels wide at 16:9,
/// looking from one unit behind the origin at the origin with the second
/// axis up, 20 degrees of view, focused at distance 10 with no blur, 100
/// samples for each pixel, 50 bounces, and the sky as background.
pub open spec fn default_settings() -> CameraBuilder {
    let zero = Scalar { bits: 0 };
    let one = Scalar { bits: ONE_BITS };
    CameraBuilder {
        image_width: 400,
        aspect_ratio: Scalar { bits: WIDE_BITS },
        look_from: Vec3 { x: zero, y: zero, z: Scalar { bits: (ONE_BITS + SIGN_BIT) as u64 } },
        look_at: Vec3 { x: zero, y: zero, z: zero },
        vup: Vec3 { x: zero, y: one, z: zero },
        focus_dist: Scalar { bits: TEN_BITS },
        defocus_angle: zero,
        samples_per_pixel: 100,
        max_depth: 50,
        vfov: Scalar { bits: TWENTY_BITS },
        background: None,
    }
}

impl Default for CameraBuilder {
    fn default() -> (r: CameraBuilder)
        ensures
            r == default_settings(),
    {
        let zero = Scalar::zero();
        let one = Scalar::one();
        CameraBuilder {
            image_width: 400,
            aspect_ratio: Scalar::from_bits(WIDE_BITS),
            look_from: Vec3::new(zero, zero, one.neg()),
            look_at: Vec3::new(zero, zero, zero),
            vup: Vec3::new(zero, one, zero),
            focus_dist: Scalar::from_bits(TEN_BITS),
            defocus_angle: zero,
            samples_per_pixel: 100,
            max_depth: 50,
            vfov: Scalar::from_bits(TWENTY_BITS),
            background: None,
        }
    }
}

impl CameraBuilder {
    /// The camera of these settings and of the frame derived from them.
    pub open spec fn build_spec(self, frame: Frame) -> Camera {
        Camera {
            image_width: self.image_width,
            image_height: frame.image_height,
            max_value: 255,
            aspect_ratio: self.aspect_ratio,
            center: self.look_from,
            pixel_delta_u: frame.pixel_delta_u,
            pixel_delta_v: frame.pixel_delta_v,
            pixel00_loc: frame.pixel00_loc,
            samples_per_pixel: self.samples_per_pixel,
            max_depth: self.max_depth,
            vfov: self.vfov,
            lookfrom: self.look_from,
            lookat: self.look_at,
            vup: self.vup,
            u: frame.u,
            v: frame.v,
            w: frame.w,
            defocus_angle: self.defocus_angle,
            focus_dist: self.focus_dist,
            defocus_disk_u: frame.defocus_disk_u,
            defocus_disk_v: frame.defocus_disk_v,
            background: self.background,
        }
    }

    /// Sets the width of the picture in pixels.
    pub fn image_width(self, image_width: u32) -> (r: CameraBuilder)
        ensures
            r == (CameraBuilder { image_width, ..self }),
    {
        let mut next = self;
        next.image_width = image_width;
        next
    }

    /// Sets the ratio of the picture's width to its height.
    pub fn aspect_ratio(self, aspect_ratio: Scalar) -> (r: CameraBuilder)
        ensures
            r == (CameraBuilder { aspect_ratio, ..self }),
    {
        let mut next = self;
        next.aspect_ratio = aspect_ratio;
        next
    }

    /// Sets the point from which the camera looks.
    pub fn look_from(self, look_from: Vec3) -> (r: CameraBuilder)
        ensures
            r == (CameraBuilder { look_from, ..self }),
    {
        let mut next = self;
        next.look_from = look_from;
        next
    }

    /// Sets the point at which the camera looks.
    pub fn look_at(self, look_at: Vec3) -> (r: CameraBuilder)
        ensures
            r == (CameraBuilder { look_at, ..self }),
    {
        let mut next = self;
        next.look_at = look_at;
        next
    }

    /// Sets the direction that is up for the camera.
    pub fn vup(self, vup: Vec3) -> (r: CameraBuilder)
        ensures
            r == (CameraBuilder { vup, ..self }),
    {
        let mut next = self;
        next.vup = vup;
        next
    }

    /// Sets the distance of the plane that is in focus.
    pub fn focus_dist(self, focus_dist: Scalar) -> (r: CameraBuilder)
        ensures
            r == (CameraBuilder { focus_dist, ..self }),
    {
        let mut next = self;
        next.focus_dist = focus_dist;
        next
    }

    /// Sets the angle of the cone of rays through each pixel.
    pub fn defocus_angle(self, defocus_angle: Scalar) -> (r: CameraBuilder)
        ensures
            r == (CameraBuilder { defocus_angle, ..self }),
    {
        let mut next = self;
        next.defocus_angle = defocus_angle;
        next
    }

    /// Sets the number of rays cast for each pixel.
    pub fn samples_per_pixel(self, samples_per_pixel: u32) -> (r: CameraBuilder)
        ensures
            r == (CameraBuilder { samples_per_pixel, ..self }),
    {
        let mut next = self;
        next.samples_per_pixel = samples_per_pixel;
        next
    }

    /// Sets the number of bounces after which a light path is given up.
    pub fn max_depth(self, max_depth: u32) -> (r: CameraBuilder)
        ensures
            r == (CameraBuilder { max_depth, ..self }),
    {
        let mut next = self;
        next.max_depth = max_depth;
        next
    }

    /// Sets the vertical field of view in degrees.
    pub fn vfov(self, vfov: Scalar) -> (r: CameraBuilder)
        ensures
            r == (CameraBuilder { vfov, ..self }),
    {
        let mut next = self;
        next.vfov = vfov;
        next
    }

    /// Sets the colour seen by a ray that hits nothing.
    pub fn background(self, bg: Vec3) -> (r: CameraBuilder)
        ensures
            r == (CameraBuilder { background: Some(bg), ..self }),
    {
        let mut next = self;
        next.background = Some(bg);
        next
    }

    /// The camera of these settings. `frame` holds what follows from them
    /// by arithmetic: the height of the picture, the basis of the camera
    /// and the layout of its viewport.
    pub fn build(self, frame: Frame) -> (r: Camera)
        ensures
            r == self.build_spec(frame),
    {
        Camera {
            image_width: self.image_width,
            image_height: frame.image_height,
            max_value: 255,
            aspect_ratio: self.aspect_ratio,
            center: self.look_from,
            pixel_delta_u: frame.pixel_delta_u,
            pixel_delta_v: frame.pixel_delta_v,
            pixel00_loc: frame.pixel00_loc,
            samples_per_pixel: self.samples_per_pixel,
            max_depth: self.max_depth,
            vfov: self.vfov,
            lookfrom: self.look_from,
            lookat: self.look_at,
            vup: self.vup,
            u: frame.u,
            v: frame.v,
            w: frame.w,
            defocus_angle: self.defocus_angle,
            focus_dist: self.focus_dist,
            defocus_disk_u: frame.defocus_disk_u,
            defocus_disk_v: frame.defocus_disk_v,
            background: self.background,
        }
    }
}

} // verus!
