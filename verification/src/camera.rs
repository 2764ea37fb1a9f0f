//! The camera: where the rays of a picture start.

use vstd::prelude::*;
use itertools::Itertools;
use crate::camera::builder::{default_settings, CameraBuilder};
use crate::scalar::{Scalar, Vec3};

pub mod builder;

verus! {

/// The pattern of 0.999: the brightest that a colour channel is shown.
pub const BRIGHTEST_BITS: u64 = 0x3FEF_F7CE_D916_872B;

/// A camera, with its settings and what is derived from them.
#[derive(Clone, Copy, Debug, PartialEq, Eq, Structural)]
pub struct Camera {
    /// The width of the picture in pixels.
    pub image_width: u32,
    /// The height of the picture in pixels.
    pub image_height: u32,
    /// The greatest value of a colour channel in the picture file.
    pub max_value: u8,
    /// The ratio of the picture's width to its height.
    pub aspect_ratio: Scalar,
    /// The point from which the rays start.
    pub center: Vec3,
    /// The step from a pixel to the next one in its row.
    pub pixel_delta_u: Vec3,
    /// The step from a pixel to the next one in its column.
    pub pixel_delta_v: Vec3,
    /// The centre of the pixel in the upper left corner.
    pub pixel00_loc: Vec3,
    /// The number of rays cast for each pixel.
    pub samples_per_pixel: u32,
    /// The number of bounces after which a light path is given up.
    pub max_depth: u32,
    /// The vertical field of view in degrees.
    pub vfov: Scalar,
    /// The point from which the camera looks.
    pub lookfrom: Vec3,
    /// The point at which the camera looks.
    pub lookat: Vec3,
    /// The direction that is up for the camera.
    pub vup: Vec3,
    /// The basis of the camera: to the right, up, and against the view.
    pub u: Vec3,
    pub v: Vec3,
    pub w: Vec3,
    /// The angle of the cone of rays through each pixel.
    pub defocus_angle: Scalar,
    /// The distance of the plane that is in focus.
    pub focus_dist: Scalar,
    /// The two radii of the disk on which blurred rays start.
    pub defocus_disk_u: Vec3,
    pub defocus_disk_v: Vec3,
    /// The colour seen by a ray that hits nothing; the sky where it is not
    /// set.
    pub background: Option<Vec3>,
}

/// What follows from the settings of a camera by arithmetic.
#[derive(Clone, Copy, Debug, PartialEq, Eq, Structural)]
pub struct Frame {
    pub image_height: u32,
    pub pixel_delta_u: Vec3,
    pub pixel_delta_v: Vec3,
    pub pixel00_loc: Vec3,
    pub u: Vec3,
    pub v: Vec3,
    pub w: Vec3,
    pub defocus_disk_u: Vec3,
    pub defocus_disk_v: Vec3,
}

/// The pixels of a picture row by row: pixel `k` stands in row `k / width`
/// and column `k % width`, and is written as (row, column).
pub open spec fn grid_spec(height: u32, width: u32) -> Seq<(u32, u32)> {
    Seq::new(
        (height * width) as nat,
        |k: int| ((k / width as int) as u32, (k % width as int) as u32),
    )
}

/// `Itertools::cartesian_product` of the `itertools` crate on the ranges of
/// the rows and of the columns, collected: every pair of a row and a
/// column, the rows in ascending order and within a row the columns in
/// ascending order.
#[verifier::external_body]
pub(crate) fn pixel_grid(height: u32, width: u32) -> (grid: Vec<(u32, u32)>)
    requires
        height * width * 8 <= isize::MAX,
    ensures
        grid@ == grid_spec(height, width),
{
    (0..height).cartesian_product(0..width).collect()
}

/// A colour channel cut to what can be shown: at least zero and at most
/// 0.999.
pub open spec fn shown_spec(channel: Scalar) -> Scalar {
    channel.max_spec(Scalar { bits: 0 }).min_spec(Scalar { bits: BRIGHTEST_BITS })
}

/// A colour channel cut to what can be shown.
pub fn shown(channel: Scalar) -> (r: Scalar)
    ensures
        r == shown_spec(channel),
        !r.nan(),
        0 <= r.rank() <= BRIGHTEST_BITS,
{
    channel.max(Scalar::zero()).min(Scalar::from_bits(BRIGHTEST_BITS))
}

impl Camera {
    /// Where a ray of this camera starts: at the centre for a camera
    /// without blur, whose defocus angle is zero or less, and at the point
    /// drawn on the defocus disk otherwise.
    pub open spec fn ray_origin_spec(self, disk_sample: Vec3) -> Vec3 {
        if self.defocus_angle.le_spec(Scalar { bits: 0 }) {
            self.center
        } else {
            disk_sample
        }
    }

    /// The settings of a camera that was given none.
    pub fn init() -> (r: CameraBuilder)
        ensures
            r == default_settings(),
    {
        CameraBuilder::default()
    }

    /// Where a ray of this camera starts.
    pub fn ray_origin(&self, disk_sample: Vec3) -> (r: Vec3)
        ensures
            r == self.ray_origin_spec(disk_sample),
    {
        if self.defocus_angle.le(Scalar::zero()) {
            self.center
        } else {
            disk_sample
        }
    }

    /// The pixels of the picture in the order in which they are written:
    /// row by row, each as (row, column). Nothing where the picture is too
    /// large for the memory of the machine.
    pub fn pixels(&self) -> (r: Option<Vec<(u32, u32)>>)
        ensures
            match r {
                Some(grid) => grid@ == grid_spec(self.image_height, self.image_width),
                None => self.image_height * self.image_width * 8 > isize::MAX,
            },
    {
        let height = self.image_height as u64;
        let width = self.image_width as u64;
        assert(height * width <= 0xFFFF_FFFF * 0xFFFF_FFFF) by (nonlinear_arith)
            requires
                height <= 0xFFFF_FFFF,
                width <= 0xFFFF_FFFF,
        ;
        let cells: u64 = height * width;
        if cells > (isize::MAX as u64) / 8 {
            return None;
        }
        Some(pixel_grid(self.image_height, self.image_width))
    }

    /// The colour of a pixel cut to what can be shown, channel by channel.
    pub fn shown_color(color: Vec3) -> (r: Vec3)
        ensures
            r == (Vec3 { x: shown_spec(color.x), y: shown_spec(color.y), z: shown_spec(color.z) }),
    {
        Vec3 { x: shown(color.x), y: shown(color.y), z: shown(color.z) }
    }
}

} // verus!
