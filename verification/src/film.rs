//! The output raster: a grid of byte triples, filled pixel by pixel and handed
//! to whoever encodes it.

use vstd::arithmetic::div_mod::lemma_fundamental_div_mod;
use vstd::arithmetic::div_mod::lemma_fundamental_div_mod_converse;
use vstd::prelude::*;

verus! {

/// A raster of RGB pixels, kept in an `image::ImageBuffer`.
///
/// Trusted: the buffer is opaque here. What it holds is spoken of through
/// `raster_bytes`, `raster_width` and `raster_height`, and it is made, written
/// and read only by the wrappers below.
#[verifier::external_body]
pub struct Film {
    image: image::ImageBuffer<image::Rgb<u8>, Vec<u8>>,
}

/// A pixel as it is written out: red, green and blue in `0..=255`.
#[derive(Clone, Copy, Debug, PartialEq, Eq, Structural)]
pub struct Rgb8 {
    pub r: u8,
    pub g: u8,
    pub b: u8,
}

/// The bytes of a raster, row by row from the top, three to a pixel.
pub uninterp spec fn raster_bytes(img: Film) -> Seq<u8>;

/// The number of columns of a raster.
pub uninterp spec fn raster_width(img: Film) -> nat;

/// The number of rows of a raster.
pub uninterp spec fn raster_height(img: Film) -> nat;

/// The bytes `bytes` with the three at `at` replaced by a pixel.
pub open spec fn with_pixel(bytes: Seq<u8>, at: int, pixel: Rgb8) -> Seq<u8> {
    bytes.update(at, pixel.r).update(at + 1, pixel.g).update(at + 2, pixel.b)
}

/// The channel `c` of a pixel: red, green, blue for 0, 1, 2.
pub open spec fn channel(pixel: Rgb8, c: int) -> u8 {
    if c == 0 {
        pixel.r
    } else if c == 1 {
        pixel.g
    } else {
        pixel.b
    }
}

/// The bytes of a raster in which the first `done` of `pixels` are written and
/// the rest, up to `count`, is still black.
pub open spec fn written(pixels: Seq<Rgb8>, done: int, count: int) -> Seq<u8> {
    Seq::new(
        (3 * count) as nat,
        |k: int|
            if k / 3 < done {
                channel(pixels[k / 3], k % 3)
            } else {
                0u8
            },
    )
}

/// The bytes of the raster that holds exactly `pixels`.
pub open spec fn flattened(pixels: Seq<Rgb8>) -> Seq<u8> {
    written(pixels, pixels.len() as int, pixels.len() as int)
}

/// The column and row of the pixel with the given index, counting row by row.
pub open spec fn position_of(index: int, width: int) -> (int, int) {
    (index % width, index / width)
}

/// Whether a raster of this size can be allocated.
pub open spec fn allocatable(width: int, height: int) -> bool {
    3 * width * height <= isize::MAX
}

/// A black raster.
///
/// Trusted: `ImageBuffer::new` keeps the width and height it is given and holds
/// three zero bytes for each pixel. It panics where the byte count overflows, and
/// the allocation fails above `isize::MAX` bytes; both are left out.
#[verifier::external_body]
pub(crate) fn blank(width: u32, height: u32) -> (img: Film)
    requires
        allocatable(width as int, height as int),
    ensures
        raster_width(img) == width,
        raster_height(img) == height,
        raster_bytes(img) == Seq::new((3 * width * height) as nat, |k: int| 0u8),
{
    Film { image: image::ImageBuffer::new(width, height) }
}

/// Writes one pixel.
///
/// Trusted: `ImageBuffer::put_pixel` overwrites the three bytes at
/// `3 * (y * width + x)` and nothing else. It panics outside the raster, which
/// is left out.
#[verifier::external_body]
pub(crate) fn put(img: &mut Film, x: u32, y: u32, pixel: Rgb8)
    requires
        x < raster_width(*old(img)),
        y < raster_height(*old(img)),
    ensures
        raster_width(*final(img)) == raster_width(*old(img)),
        raster_height(*final(img)) == raster_height(*old(img)),
        raster_bytes(*final(img)) == with_pixel(
            raster_bytes(*old(img)),
            3 * (y * raster_width(*old(img)) + x),
            pixel,
        ),
{
    img.image.put_pixel(x, y, image::Rgb([pixel.r, pixel.g, pixel.b]))
}

/// Trusted: `ImageBuffer::width` returns the width that the raster was made with.
#[verifier::external_body]
pub(crate) fn width_of(img: &Film) -> (w: u32)
    ensures
        w == raster_width(*img),
{
    img.image.width()
}

/// Trusted: `ImageBuffer::height` returns the height that the raster was made with.
#[verifier::external_body]
pub(crate) fn height_of(img: &Film) -> (h: u32)
    ensures
        h == raster_height(*img),
{
    img.image.height()
}

/// Trusted: `ImageBuffer::into_raw` hands out the bytes that the raster holds.
#[verifier::external_body]
pub(crate) fn raw_of(img: Film) -> (bytes: Vec<u8>)
    ensures
        bytes@ == raster_bytes(img),
{
    img.image.into_raw()
}

impl Film {
    /// The number of columns.
    pub fn width(&self) -> (w: u32)
        ensures
            w == raster_width(*self),
    {
        width_of(self)
    }

    /// The number of rows.
    pub fn height(&self) -> (h: u32)
        ensures
            h == raster_height(*self),
    {
        height_of(self)
    }

    /// The bytes of the raster, row by row from the top, three to a pixel.
    pub fn into_bytes(self) -> (bytes: Vec<u8>)
        ensures
            bytes@ == raster_bytes(self),
    {
        raw_of(self)
    }
}

/// The column and row of the pixel with the given index, counting row by row
/// from the top left.
pub fn pixel_position(index: u64, width: u32) -> (at: (u32, u32))
    requires
        width > 0,
        index / (width as u64) <= u32::MAX,
    ensures
        (at.0 as int, at.1 as int) == position_of(index as int, width as int),
        at.0 < width,
        at.1 * width + at.0 == index,
{
    let x: u64 = index % (width as u64);
    let y: u64 = index / (width as u64);
    proof {
        lemma_fundamental_div_mod(index as int, width as int);
        assert(width * (index as int / width as int) == y * width) by (nonlinear_arith)
            requires
                y == index as int / width as int,
        ;
    }
    (x as u32, y as u32)
}

/// The index of the pixel in column `x` of row `y`, counting row by row.
pub fn pixel_index(x: u32, y: u32, width: u32) -> (index: u64)
    requires
        x < width,
    ensures
        index == y * width + x,
        position_of(index as int, width as int) == (x as int, y as int),
{
    proof {
        assert(y * width + x <= u64::MAX) by (nonlinear_arith)
            requires
                y <= u32::MAX,
                width <= u32::MAX,
                x < width,
        ;
        assert(y * width >= 0) by (nonlinear_arith)
            requires
                y >= 0,
                width >= 0,
        ;
        lemma_fundamental_div_mod_converse(y * width + x, width as int, y as int, x as int);
    }
    (y as u64) * (width as u64) + (x as u64)
}

/// Whether the sink is told of progress when `done` of `total` pixels are
/// finished, and with which percentage: at every tenth of the image, and never
/// for an image of fewer than ten pixels.
pub open spec fn report_at(done: int, total: int) -> Option<int> {
    if total / 10 > 0 && done % (total / 10) == 0 {
        Some((done * 100) / total)
    } else {
        None
    }
}

/// The percentage to report when `done` of `total` pixels are finished, if any.
pub fn progress_report(done: u64, total: u64) -> (percent: Option<u64>)
    requires
        done * 100 <= u64::MAX,
    ensures
        percent matches Some(p) ==> report_at(done as int, total as int) == Some(p as int),
        percent is None ==> report_at(done as int, total as int) is None,
{
    let tenth: u64 = total / 10;
    if tenth > 0 && done % tenth == 0 {
        Some((done * 100) / total)
    } else {
        None
    }
}

/// The raster of `width` by `height` pixels that holds `pixels`, row by row from
/// the top left; `None` where the count of pixels is not `width * height` or the
/// raster cannot be allocated.
pub fn develop(width: u32, height: u32, pixels: &Vec<Rgb8>) -> (film: Option<Film>)
    ensures
        film is Some <==> pixels@.len() == width * height && allocatable(
            width as int,
            height as int,
        ),
        film matches Some(img) ==> {
            &&& raster_width(img) == width
            &&& raster_height(img) == height
            &&& raster_bytes(img) == flattened(pixels@)
        },
{
    assert(width * height <= u64::MAX) by (nonlinear_arith)
        requires
            width <= u32::MAX,
            height <= u32::MAX,
    ;
    assert(3 * width * height == 3 * (width * height)) by (nonlinear_arith);
    let count: u64 = (width as u64) * (height as u64);
    if pixels.len() as u64 != count || count > (isize::MAX as u64) / 3 {
        return None;
    }
    let mut img = blank(width, height);
    assert(raster_bytes(img) =~= written(pixels@, 0, count as int));
    let mut i: usize = 0;
    while i < pixels.len()
        invariant
            i <= pixels@.len(),
            pixels@.len() == count,
            count == width * height,
            raster_width(img) == width,
            raster_height(img) == height,
            raster_bytes(img) == written(pixels@, i as int, count as int),
        decreases pixels@.len() - i,
    {
        proof {
            if width == 0 {
                assert(width * height == 0) by (nonlinear_arith)
                    requires
                        width == 0,
                ;
            }
            lemma_fundamental_div_mod(i as int, width as int);
            assert((i as int) / (width as int) < height) by (nonlinear_arith)
                requires
                    i < width * height,
                    width > 0,
                    i == width * ((i as int) / (width as int)) + (i as int) % (width as int),
                    0 <= (i as int) % (width as int),
            ;
        }
        let at: (u32, u32) = pixel_position(i as u64, width);
        put(&mut img, at.0, at.1, pixels[i]);
        assert(raster_bytes(img) =~= written(pixels@, i + 1, count as int)) by {
            assert forall|k: int| 0 <= k < 3 * count implies #[trigger] raster_bytes(img)[k]
                == written(pixels@, i + 1, count as int)[k] by {
                if k / 3 == i {
                    assert(k == 3 * i || k == 3 * i + 1 || k == 3 * i + 2);
                }
            }
        }
        i = i + 1;
    }
    Some(img)
}

/// Numbering the pixels row by row and finding a pixel's place undo each other.
pub proof fn lemma_position_round_trip(index: int, width: int)
    requires
        width > 0,
        index >= 0,
    ensures
        ({
            let (x, y) = position_of(index, width);
            0 <= x < width && y >= 0 && y * width + x == index
        }),
{
    lemma_fundamental_div_mod(index, width);
    assert(width * (index / width) == (index / width) * width) by (nonlinear_arith);
    assert(index / width >= 0) by (nonlinear_arith)
        requires
            index >= 0,
            width > 0,
    ;
}

} // verus!
