//! The camera: what is fixed about a render before the first ray is cast.

use crate::decimal::Decimal;
use crate::decimal::SCALE;
use crate::film::allocatable;
use crate::film::develop;
use crate::film::flattened;
use crate::film::raster_bytes;
use crate::film::raster_height;
use crate::film::raster_width;
use crate::film::Film;
use crate::film::Rgb8;
use crate::triple::Triple;
use vstd::prelude::*;

verus! {

/// The shape of the image, as `width : height`.
#[derive(Clone, Copy, Debug, PartialEq, Eq, Structural)]
pub struct AspectRatio {
    pub width: u32,
    pub height: u32,
}

/// What a ray sees that leaves the scene.
#[derive(Clone, Copy, Debug, PartialEq, Eq, Structural)]
pub enum Background {
    /// White at the horizon blending to sky blue overhead.
    Gradient,
    /// One colour in every direction.
    Solid(Triple),
}

/// A fully parameterised camera.
#[derive(Clone, Copy, Debug)]
pub struct Camera {
    pub aspect_ratio: AspectRatio,
    pub image_width: u32,
    pub image_height: u32,
    pub samples_per_pixel: u32,
    pub max_depth: u32,
    pub background: Background,
    /// The vertical field of view, in degrees.
    pub vfov: Decimal,
    pub look_from: Triple,
    pub look_at: Triple,
    pub vup: Triple,
    /// The aperture angle of the lens, in degrees; zero or less for a pinhole.
    pub defocus_angle: Decimal,
    pub focus_dist: Decimal,
}

/// The number of rows of an image `image_width` wide in the given shape: the
/// width divided by the ratio, rounded down, but at least one and at most what
/// `u32` holds.
pub open spec fn rows_for(image_width: int, ratio: AspectRatio) -> int {
    let exact = (image_width * ratio.height) / (ratio.width as int);
    if exact < 1 {
        1
    } else if exact > u32::MAX {
        u32::MAX as int
    } else {
        exact
    }
}

impl Camera {
    /// Whether the camera can render: the image has pixels, every pixel gets a
    /// sample, and the shape and the focus distance are positive.
    pub open spec fn renderable(self) -> bool {
        &&& self.image_width > 0
        &&& self.image_height > 0
        &&& self.samples_per_pixel > 0
        &&& self.aspect_ratio.width > 0
        &&& self.aspect_ratio.height > 0
        &&& self.focus_dist@ > 0
    }

    /// The camera for an image `image_width` wide. The height follows from the
    /// aspect ratio and is never zero; a focus distance of zero or less is taken
    /// as one.
    pub fn new(
        image_width: u32,
        aspect_ratio: AspectRatio,
        samples_per_pixel: u32,
        max_depth: u32,
        background: Background,
        vfov: Decimal,
        look_from: Triple,
        look_at: Triple,
        vup: Triple,
        defocus_angle: Decimal,
        focus_dist: Decimal,
    ) -> (c: Camera)
        requires
            aspect_ratio.width > 0,
        ensures
            c.aspect_ratio == aspect_ratio,
            c.image_width == image_width,
            c.image_height == rows_for(image_width as int, aspect_ratio),
            c.image_height >= 1,
            c.samples_per_pixel == samples_per_pixel,
            c.max_depth == max_depth,
            c.background == background,
            c.vfov == vfov,
            c.look_from == look_from,
            c.look_at == look_at,
            c.vup == vup,
            c.defocus_angle == defocus_angle,
            c.focus_dist@ == if focus_dist@ <= 0 { SCALE as int } else { focus_dist@ },
            c.renderable() <==> image_width > 0 && samples_per_pixel > 0 && aspect_ratio.height > 0,
    {
        assert(image_width * aspect_ratio.height <= u64::MAX) by (nonlinear_arith)
            requires
                image_width <= u32::MAX,
                aspect_ratio.height <= u32::MAX,
        ;
        let scaled: u64 = (image_width as u64) * (aspect_ratio.height as u64);
        let exact: u64 = scaled / (aspect_ratio.width as u64);
        let image_height: u32 = if exact < 1 {
            1
        } else if exact > u32::MAX as u64 {
            u32::MAX
        } else {
            exact as u32
        };
        let focus = if focus_dist.is_non_positive() {
            Decimal::from_units(SCALE)
        } else {
            focus_dist
        };
        Camera {
            aspect_ratio,
            image_width,
            image_height,
            samples_per_pixel,
            max_depth,
            background,
            vfov,
            look_from,
            look_at,
            vup,
            defocus_angle,
            focus_dist: focus,
        }
    }

    /// Whether the camera can render.
    pub fn is_renderable(&self) -> (b: bool)
        ensures
            b == self.renderable(),
    {
        self.image_width > 0 && self.image_height > 0 && self.samples_per_pixel > 0
            && self.aspect_ratio.width > 0 && self.aspect_ratio.height > 0
            && self.focus_dist.units > 0
    }

    /// Whether rays start on the defocus disk rather than at the eye.
    pub fn uses_defocus(&self) -> (b: bool)
        ensures
            b == (self.defocus_angle@ > 0),
    {
        self.defocus_angle.units > 0
    }

    /// The image of this camera from the colours of its pixels, row by row from
    /// the top left; `None` where the count of colours is not that of the
    /// pixels or the image cannot be allocated.
    pub fn render(&self, pixels: &Vec<Rgb8>) -> (film: Option<Film>)
        ensures
            film is Some <==> pixels@.len() == self.image_width * self.image_height && allocatable(
                self.image_width as int,
                self.image_height as int,
            ),
            film matches Some(img) ==> {
                &&& raster_width(img) == self.image_width
                &&& raster_height(img) == self.image_height
                &&& raster_bytes(img) == flattened(pixels@)
            },
    {
        develop(self.image_width, self.image_height, pixels)
    }

    /// The number of pixels of the image.
    pub fn pixel_count(&self) -> (n: u64)
        ensures
            n == self.image_width * self.image_height,
    {
        assert(self.image_width * self.image_height <= u64::MAX) by (nonlinear_arith)
            requires
                self.image_width <= u32::MAX,
                self.image_height <= u32::MAX,
        ;
        (self.image_width as u64) * (self.image_height as u64)
    }
}

} // verus!
