//! Bitmap textures: nearest-pixel lookup in a decoded image, and where its
//! file is looked for.

use crate::film::allocatable;
use crate::film::Rgb8;
use crate::scenes::is_whole;
use crate::triple::Triple;
use vstd::prelude::*;
use vstd::string::StringExecFns;

verus! {

/// Trusted: `image::DynamicImage`, a decoded image of any pixel format, is
/// carried through as an opaque value.
#[verifier::external_type_specification]
#[verifier::external_body]
pub struct ExDynamicImage(image::DynamicImage);

/// The number of columns of a decoded image.
pub uninterp spec fn picture_width(img: image::DynamicImage) -> nat;

/// The number of rows of a decoded image.
pub uninterp spec fn picture_height(img: image::DynamicImage) -> nat;

/// The pixels of a decoded image as 8-bit sRGB, row by row from the top.
pub uninterp spec fn picture_pixels(img: image::DynamicImage) -> Seq<Rgb8>;

/// A texture backed by a decoded image, or by none.
pub struct ImageTexture {
    data: image::DynamicImage,
}

/// What a lookup in an image texture gives.
#[derive(Clone, Copy, Debug, PartialEq, Eq, Structural)]
pub enum Texel {
    /// There is no image to sample: the diagnostic colour stands in.
    Diagnostic,
    /// A pixel of the image, still gamma-encoded.
    Srgb(Rgb8),
}

/// Trusted: `DynamicImage::width` returns the width of the image.
#[verifier::external_body]
pub(crate) fn columns(img: &image::DynamicImage) -> (w: u32)
    ensures
        w == picture_width(*img),
{
    img.width()
}

/// Trusted: `DynamicImage::height` returns the height of the image.
#[verifier::external_body]
pub(crate) fn rows(img: &image::DynamicImage) -> (h: u32)
    ensures
        h == picture_height(*img),
{
    img.height()
}

/// Trusted: `GenericImageView::get_pixel` on a `DynamicImage` returns the pixel in
/// column `x` of row `y`, converted to 8-bit RGBA, of which the first three
/// channels are kept. It panics outside the image, which is left out.
#[verifier::external_body]
pub(crate) fn pixel_at(img: &image::DynamicImage, x: u32, y: u32) -> (p: Rgb8)
    requires
        x < picture_width(*img),
        y < picture_height(*img),
    ensures
        p == picture_pixels(*img)[y * picture_width(*img) + x],
{
    let pixel = image::GenericImageView::get_pixel(img, x, y);
    Rgb8 { r: pixel[0], g: pixel[1], b: pixel[2] }
}

/// Trusted: `DynamicImage::new_rgb8` makes an image of the width and height it
/// is given. It panics where the byte count overflows, and the allocation fails
/// above `isize::MAX` bytes; both are left out.
#[verifier::external_body]
pub(crate) fn new_picture(width: u32, height: u32) -> (img: image::DynamicImage)
    requires
        allocatable(width as int, height as int),
    ensures
        picture_width(img) == width,
        picture_height(img) == height,
{
    image::DynamicImage::new_rgb8(width, height)
}

fn joined(prefix: &str, name: &str) -> (path: String)
    ensures
        path@ == prefix@ + name@,
{
    prefix.to_string().concat(name)
}

/// The pixel that a lookup at column `i`, row `j` reads: the nearest one inside
/// the image.
pub open spec fn nearest_inside(i: int, j: int, width: int, height: int) -> (int, int) {
    (
        if i < width {
            i
        } else {
            width - 1
        },
        if j < height {
            j
        } else {
            height - 1
        },
    )
}

impl ImageTexture {
    /// The image behind the texture.
    pub closed spec fn image(self) -> image::DynamicImage {
        self.data
    }

    /// Whether there is nothing to sample.
    pub open spec fn spec_is_missing(self) -> bool {
        picture_width(self.image()) == 0 || picture_height(self.image()) == 0
    }

    /// What a lookup at column `i`, row `j` gives.
    pub open spec fn spec_texel(self, i: int, j: int) -> Texel {
        if self.spec_is_missing() {
            Texel::Diagnostic
        } else {
            let w = picture_width(self.image()) as int;
            let h = picture_height(self.image()) as int;
            let (x, y) = nearest_inside(i, j, w, h);
            Texel::Srgb(picture_pixels(self.image())[y * w + x])
        }
    }

    /// The texture backed by a decoded image.
    pub fn from_image(data: image::DynamicImage) -> (t: ImageTexture)
        ensures
            t.image() == data,
    {
        ImageTexture { data }
    }

    /// The texture whose image could not be had: it stands on an image of no
    /// columns and no rows.
    pub fn missing() -> (t: ImageTexture)
        ensures
            picture_width(t.image()) == 0,
            picture_height(t.image()) == 0,
            t.spec_is_missing(),
    {
        ImageTexture { data: new_picture(0, 0) }
    }

    /// The number of columns of the image.
    pub fn width(&self) -> (w: u32)
        ensures
            w == picture_width(self.image()),
    {
        columns(&self.data)
    }

    /// The number of rows of the image.
    pub fn height(&self) -> (h: u32)
        ensures
            h == picture_height(self.image()),
    {
        rows(&self.data)
    }

    /// Whether there is nothing to sample.
    pub fn is_missing(&self) -> (b: bool)
        ensures
            b == self.spec_is_missing(),
    {
        columns(&self.data) == 0 || rows(&self.data) == 0
    }

    /// Looks up the pixel in column `i` of row `j`. An index past the last
    /// column or row reads the last one; a texture without an image gives the
    /// diagnostic colour.
    pub fn texel(&self, i: u32, j: u32) -> (t: Texel)
        ensures
            t == self.spec_texel(i as int, j as int),
    {
        let w: u32 = columns(&self.data);
        let h: u32 = rows(&self.data);
        if w == 0 || h == 0 {
            return Texel::Diagnostic;
        }
        let x: u32 = if i < w {
            i
        } else {
            w - 1
        };
        let y: u32 = if j < h {
            j
        } else {
            h - 1
        };
        Texel::Srgb(pixel_at(&self.data, x, y))
    }
}

/// The colour that stands in for an image that could not be had: cyan.
pub fn diagnostic_colour() -> (c: Triple)
    ensures
        is_whole(c, 0, 1, 1),
{
    Triple::ints(0, 1, 1)
}

/// The places where the file of an image texture is looked for, in order: as
/// named, beside the working directory, then in `textures` here and up to four
/// levels up.
pub open spec fn search_prefixes() -> Seq<Seq<char>> {
    seq![
        ""@,
        "./"@,
        "textures/"@,
        "../textures/"@,
        "../../textures/"@,
        "../../../textures/"@,
        "../../../../textures/"@,
    ]
}

/// The paths under which the file `file_name` is looked for, in order.
pub fn search_paths(file_name: &str) -> (paths: Vec<String>)
    ensures
        paths@.len() == search_prefixes().len(),
        forall|k: int|
            0 <= k < paths@.len() ==> (#[trigger] paths@[k])@ == search_prefixes()[k] + file_name@,
{
    let mut paths: Vec<String> = Vec::new();
    paths.push(joined("", file_name));
    paths.push(joined("./", file_name));
    paths.push(joined("textures/", file_name));
    paths.push(joined("../textures/", file_name));
    paths.push(joined("../../textures/", file_name));
    paths.push(joined("../../../textures/", file_name));
    paths.push(joined("../../../../textures/", file_name));
    paths
}

/// The first path that exists, given for each path in order whether it does.
pub fn first_found(exists: &Vec<bool>) -> (found: Option<usize>)
    ensures
        match found {
            Some(k) => k < exists@.len() && exists@[k as int] && forall|j: int|
                0 <= j < k ==> !exists@[j],
            None => forall|j: int| 0 <= j < exists@.len() ==> !exists@[j],
        },
{
    let mut k: usize = 0;
    while k < exists.len()
        invariant
            k <= exists@.len(),
            forall|j: int| 0 <= j < k ==> !exists@[j],
        decreases exists@.len() - k,
    {
        if exists[k] {
            return Some(k);
        }
        k = k + 1;
    }
    None
}

} // verus!
