//! Textures: where a surface takes its colour from.

use vstd::prelude::*;
use crate::scalar::{Scalar, Vec3};

verus! {

/// A decoded picture of the `image` crate. The library carries it and asks
/// it for its size and its pixels; it does not look inside.
#[verifier::external_type_specification]
#[verifier::external_body]
pub struct ExDynamicImage(image::DynamicImage);

/// A Perlin noise generator of the `noise` crate. The library only carries
/// it.
#[verifier::external_type_specification]
#[verifier::external_body]
pub struct ExPerlin(noise::Perlin);

/// `Clone::clone` of a picture: the copy has the pixels of the picture.
pub assume_specification[ <image::DynamicImage as Clone>::clone ](
    picture: &image::DynamicImage,
) -> (copy: image::DynamicImage)
    ensures
        picture_rows(copy) == picture_rows(*picture),
        picture_width(copy) == picture_width(*picture),
;

/// `Clone::clone` of a noise generator. Nothing is claimed of the copy.
pub assume_specification[ <noise::Perlin as Clone>::clone ](generator: &noise::Perlin) -> (copy:
    noise::Perlin)
;

/// The rows of a picture from the top down, each from left to right, with
/// every pixel as red, green, blue and alpha in eight bits each.
pub uninterp spec fn picture_rows(picture: image::DynamicImage) -> Seq<Seq<(u8, u8, u8, u8)>>;

/// The width of a picture in pixels.
pub uninterp spec fn picture_width(picture: image::DynamicImage) -> int;

/// `DynamicImage::height` of the `image` crate: the number of rows of the
/// picture.
#[verifier::external_body]
pub(crate) fn height_of(picture: &image::DynamicImage) -> (height: u32)
    ensures
        height == picture_rows(*picture).len(),
{
    picture.height()
}

/// `DynamicImage::width` of the `image` crate: the number of pixels in
/// every row of the picture.
#[verifier::external_body]
pub(crate) fn width_of(picture: &image::DynamicImage) -> (width: u32)
    ensures
        width == picture_width(*picture),
        forall|y: int|
            0 <= y < picture_rows(*picture).len() ==> (#[trigger] picture_rows(*picture)[y]).len()
                == width,
{
    picture.width()
}

/// `GenericImageView::get_pixel` of the `image` crate on a picture: the
/// pixel in column `x` of row `y`, brought to eight bits for each of red,
/// green, blue and alpha. The call panics outside the picture, which the
/// conditions leave out.
#[verifier::external_body]
pub(crate) fn pixel_of(picture: &image::DynamicImage, x: u32, y: u32) -> (pixel: (u8, u8, u8, u8))
    requires
        y < picture_rows(*picture).len(),
        x < picture_width(*picture),
    ensures
        pixel == picture_rows(*picture)[y as int][x as int],
{
    let rgba = image::GenericImageView::get_pixel(picture, x, y);
    (rgba[0], rgba[1], rgba[2], rgba[3])
}

/// What a picture shows at a place.
#[derive(Clone, Copy, Debug, PartialEq, Eq, Structural)]
pub enum Texel {
    /// The picture has no rows.
    Blank,
    /// The red, green and blue of the pixel.
    Pixel(u8, u8, u8),
}

/// The colour source of a material.
#[derive(Clone)]
pub enum Texture {
    /// One colour everywhere.
    SolidColor(Vec3),
    /// Cubes of side `scale` that alternate between two colours.
    Checkered { even: Vec3, odd: Vec3, scale: Scalar },
    /// A picture wrapped round the surface.
    Image(image::DynamicImage),
    /// Perlin noise sampled at the given frequency.
    PerlinNoise(noise::Perlin, Scalar),
    /// Perlin noise with turbulence.
    Turbulence(noise::Perlin),
}

impl Texture {
    /// Whether the cube with the given whole coordinates has the even
    /// colour: the coordinates add up to an even number.
    pub open spec fn is_even_spec(cell: (i32, i32, i32)) -> bool {
        (cell.0 + cell.1 + cell.2) % 2 == 0
    }

    /// The colour of the texture at a point. `cell` holds the whole
    /// coordinates of the cube of a checkered texture in which the point
    /// lies, and `sampled` what the picture or the noise yields there. A
    /// solid texture has its colour everywhere, a checkered one the colour
    /// of the cube, and the others have `sampled`.
    pub open spec fn color_spec(self, cell: (i32, i32, i32), sampled: Vec3) -> Vec3 {
        match self {
            Texture::SolidColor(color) => color,
            Texture::Checkered { even, odd, .. } => if Self::is_even_spec(cell) {
                even
            } else {
                odd
            },
            _ => sampled,
        }
    }

    /// What the picture shows in column `i` of row `j`: a picture without
    /// rows is blank everywhere, and a picture with rows shows nothing
    /// outside itself.
    pub open spec fn texel_spec(picture: image::DynamicImage, i: u32, j: u32) -> Option<Texel> {
        let rows = picture_rows(picture);
        if rows.len() == 0 {
            Some(Texel::Blank)
        } else if j < rows.len() && i < picture_width(picture) {
            Some(Texel::Pixel(rows[j as int][i as int].0, rows[j as int][i as int].1, rows[j as int][i as int].2))
        } else {
            None
        }
    }

    /// What the picture shows in column `i` of row `j`.
    pub fn texel(picture: &image::DynamicImage, i: u32, j: u32) -> (r: Option<Texel>)
        ensures
            r == Self::texel_spec(*picture, i, j),
    {
        let height = height_of(picture);
        if height == 0 {
            return Some(Texel::Blank);
        }
        let width = width_of(picture);
        if j >= height || i >= width {
            return None;
        }
        let pixel = pixel_of(picture, i, j);
        Some(Texel::Pixel(pixel.0, pixel.1, pixel.2))
    }

    /// Whether the cube with the given whole coordinates has the even
    /// colour.
    pub fn is_even(cell: (i32, i32, i32)) -> (r: bool)
        ensures
            r == Self::is_even_spec(cell),
    {
        let sum: i64 = cell.0 as i64 + cell.1 as i64 + cell.2 as i64;
        sum % 2 == 0
    }

    /// The colour of the texture at a point.
    pub fn color(&self, cell: (i32, i32, i32), sampled: Vec3) -> (r: Vec3)
        ensures
            r == self.color_spec(cell, sampled),
    {
        match self {
            Texture::SolidColor(color) => *color,
            Texture::Checkered { even, odd, .. } => {
                if Self::is_even(cell) {
                    *even
                } else {
                    *odd
                }
            },
            _ => sampled,
        }
    }
}

impl From<Vec3> for Texture {
    /// The solid texture of a colour.
    fn from(value: Vec3) -> (r: Texture) {
        Texture::SolidColor(value)
    }
}

impl vstd::std_specs::convert::FromSpecImpl<Vec3> for Texture {
    open spec fn obeys_from_spec() -> bool {
        true
    }

    open spec fn from_spec(value: Vec3) -> Texture {
        Texture::SolidColor(value)
    }
}

} // verus!
