//! Textures: what colours a surface, as a closed family of variants.

use crate::decimal::Decimal;
use crate::triple::Triple;
use vstd::prelude::*;

verus! {

/// A constant colour.
#[derive(Clone, Copy, Debug)]
pub struct SolidTexture {
    pub albedo: Triple,
}

/// A checkerboard of two sub-textures over unit cells of scaled space.
#[derive(Debug)]
pub struct CheckerTexture {
    pub scale: Decimal,
    pub odd: Box<Texture>,
    pub even: Box<Texture>,
}

/// The family of textures.
#[derive(Debug)]
pub enum Texture {
    Solid(SolidTexture),
    Checker(CheckerTexture),
    /// A bitmap, named by its file.
    Image(String),
}

/// Whether the lattice cell `(x, y, z)` has even parity. The remainder is
/// Euclidean, so cells on the negative side alternate like those on the positive.
pub open spec fn cell_is_even(x: int, y: int, z: int) -> bool {
    (x + y + z) % 2 == 0
}

impl SolidTexture {
    /// The texture that is `albedo` everywhere.
    pub fn new(albedo: Triple) -> (t: SolidTexture)
        ensures
            t.albedo == albedo,
    {
        SolidTexture { albedo }
    }
}

impl CheckerTexture {
    /// A checkerboard of two solid colours.
    pub fn new(scale: Decimal, odd: Triple, even: Triple) -> (t: CheckerTexture)
        ensures
            t.scale == scale,
            *t.odd == Texture::Solid(SolidTexture { albedo: odd }),
            *t.even == Texture::Solid(SolidTexture { albedo: even }),
    {
        CheckerTexture {
            scale,
            odd: Box::new(Texture::Solid(SolidTexture::new(odd))),
            even: Box::new(Texture::Solid(SolidTexture::new(even))),
        }
    }

    /// A checkerboard of two textures.
    pub fn from_texture(scale: Decimal, odd: Box<Texture>, even: Box<Texture>) -> (t:
        CheckerTexture)
        ensures
            t.scale == scale,
            t.odd == odd,
            t.even == even,
    {
        CheckerTexture { scale, odd, even }
    }

    /// The sub-texture that covers the lattice cell `(x, y, z)`, where the cell of
    /// a point `p` is the component-wise floor of `scale * p`.
    pub fn select(&self, x: i64, y: i64, z: i64) -> (t: &Texture)
        ensures
            *t == if cell_is_even(x as int, y as int, z as int) {
                *self.even
            } else {
                *self.odd
            },
    {
        if checker_cell_is_even(x, y, z) {
            &*self.even
        } else {
            &*self.odd
        }
    }
}

/// Decides the parity of a lattice cell.
pub fn checker_cell_is_even(x: i64, y: i64, z: i64) -> (even: bool)
    ensures
        even == cell_is_even(x as int, y as int, z as int),
{
    let sum: i128 = x as i128 + y as i128 + z as i128;
    sum % 2 == 0
}

/// Crossing one cell boundary along any axis flips the parity.
pub proof fn lemma_neighbour_cells_differ(x: int, y: int, z: int)
    ensures
        cell_is_even(x + 1, y, z) != cell_is_even(x, y, z),
        cell_is_even(x, y + 1, z) != cell_is_even(x, y, z),
        cell_is_even(x, y, z + 1) != cell_is_even(x, y, z),
{
}

} // verus!
