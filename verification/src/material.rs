//! Materials: how a surface answers a ray, as a closed family of variants.

use crate::decimal::Decimal;
use crate::decimal::SCALE;
use crate::texture::SolidTexture;
use crate::texture::Texture;
use crate::triple::Triple;
use std::sync::Arc;
use vstd::prelude::*;

verus! {

/// A diffuse surface: scatters about the normal, attenuated by its texture.
#[derive(Debug)]
pub struct Lambertian {
    pub texture: Box<Texture>,
}

/// A glossy mirror of constant colour. `fuzz` is never above one.
#[derive(Clone, Copy, Debug)]
pub struct Metal {
    pub albedo: Triple,
    pub fuzz: Decimal,
}

/// A transparent medium with a fixed refraction index.
#[derive(Clone, Copy, Debug)]
pub struct Dielectric {
    pub refraction_index: Decimal,
}

/// A light source: emits its texture and never scatters.
#[derive(Debug)]
pub struct DiffuseLight {
    pub texture: Box<Texture>,
}

/// The material inside a volume: scatters uniformly in every direction.
#[derive(Debug)]
pub struct Isotropic {
    pub texture: Box<Texture>,
}

/// The family of materials.
#[derive(Debug)]
pub enum Material {
    Lambertian(Lambertian),
    Metal(Metal),
    Dielectric(Dielectric),
    DiffuseLight(DiffuseLight),
    Isotropic(Isotropic),
}

/// The ratio of refraction indices `numerator / denominator` that a ray meets
/// at a dielectric boundary.
#[derive(Clone, Copy, Debug)]
pub struct RefractionRatio {
    pub numerator: Decimal,
    pub denominator: Decimal,
}

/// The solid texture of one colour.
pub open spec fn solid(albedo: Triple) -> Texture {
    Texture::Solid(SolidTexture { albedo })
}

impl Lambertian {
    /// A diffuse surface of one colour.
    pub fn new(albedo: Triple) -> (m: Lambertian)
        ensures
            *m.texture == solid(albedo),
    {
        Lambertian { texture: Box::new(Texture::Solid(SolidTexture::new(albedo))) }
    }

    /// A diffuse surface with the given texture.
    pub fn from_texture(texture: Box<Texture>) -> (m: Lambertian)
        ensures
            m.texture == texture,
    {
        Lambertian { texture }
    }
}

impl Metal {
    /// A mirror of colour `albedo`; a `fuzz` above one is taken as one.
    pub fn new(albedo: Triple, fuzz: Decimal) -> (m: Metal)
        ensures
            m.albedo == albedo,
            m.fuzz@ == if fuzz@ > SCALE { SCALE as int } else { fuzz@ },
    {
        let clamped = if fuzz.units > SCALE {
            Decimal::from_units(SCALE)
        } else {
            fuzz
        };
        Metal { albedo, fuzz: clamped }
    }
}

impl Dielectric {
    /// A medium with the given refraction index.
    pub fn new(refraction_index: Decimal) -> (m: Dielectric)
        ensures
            m.refraction_index == refraction_index,
    {
        Dielectric { refraction_index }
    }

    /// The ratio that a ray meets: `1 / index` when it enters through the front
    /// face, `index / 1` when it leaves.
    pub fn refraction_ratio(&self, front_face: bool) -> (r: RefractionRatio)
        ensures
            front_face ==> r.numerator@ == SCALE && r.denominator == self.refraction_index,
            !front_face ==> r.numerator == self.refraction_index && r.denominator@ == SCALE,
    {
        let one = Decimal::from_units(SCALE);
        if front_face {
            RefractionRatio { numerator: one, denominator: self.refraction_index }
        } else {
            RefractionRatio { numerator: self.refraction_index, denominator: one }
        }
    }

    /// The choice between reflection and refraction, as a function of the two
    /// tests that decide it.
    pub open spec fn spec_reflects(cannot_refract: bool, reflectance_above_draw: bool) -> bool {
        cannot_refract || reflectance_above_draw
    }

    /// Whether the ray is reflected rather than refracted. `cannot_refract` says
    /// that the ratio times the sine of the incidence angle is above one;
    /// `reflectance_above_draw` says that the Schlick reflectance is above the
    /// uniform draw of this bounce.
    pub fn reflects(cannot_refract: bool, reflectance_above_draw: bool) -> (r: bool)
        ensures
            r == Self::spec_reflects(cannot_refract, reflectance_above_draw),
    {
        cannot_refract || reflectance_above_draw
    }
}

impl DiffuseLight {
    /// A light of one colour.
    pub fn new(emit: Triple) -> (m: DiffuseLight)
        ensures
            *m.texture == solid(emit),
    {
        DiffuseLight { texture: Box::new(Texture::Solid(SolidTexture::new(emit))) }
    }

    /// A light that emits the given texture.
    pub fn from_texture(texture: Box<Texture>) -> (m: DiffuseLight)
        ensures
            m.texture == texture,
    {
        DiffuseLight { texture }
    }
}

impl Isotropic {
    /// A volume material of one colour.
    pub fn new(albedo: Triple) -> (m: Isotropic)
        ensures
            *m.texture == solid(albedo),
    {
        Isotropic { texture: Box::new(Texture::Solid(SolidTexture::new(albedo))) }
    }

    /// A volume material with the given texture.
    pub fn from_texture(texture: Box<Texture>) -> (m: Isotropic)
        ensures
            m.texture == texture,
    {
        Isotropic { texture }
    }
}

impl Material {
    /// Whether a hit on this material continues the path.
    pub open spec fn spec_scatters(self) -> bool {
        !(self is DiffuseLight)
    }

    /// Whether a hit on this material adds light of its own.
    pub open spec fn spec_emits(self) -> bool {
        self is DiffuseLight
    }

    /// Whether a hit on this material continues the path: every material
    /// scatters but the light, which absorbs.
    pub fn scatters(&self) -> (b: bool)
        ensures
            b == self.spec_scatters(),
    {
        match self {
            Material::DiffuseLight(_) => false,
            _ => true,
        }
    }

    /// Whether a hit on this material adds light of its own: only the light
    /// does, the others emit black.
    pub fn emits(&self) -> (b: bool)
        ensures
            b == self.spec_emits(),
    {
        match self {
            Material::DiffuseLight(_) => true,
            _ => false,
        }
    }

    /// The texture that attenuates a scattered ray, or that a light emits;
    /// `None` for the materials of constant colour.
    pub fn texture(&self) -> (t: Option<&Texture>)
        ensures
            match *self {
                Material::Lambertian(m) => t == Some(&*m.texture),
                Material::DiffuseLight(m) => t == Some(&*m.texture),
                Material::Isotropic(m) => t == Some(&*m.texture),
                Material::Metal(_) => t.is_none(),
                Material::Dielectric(_) => t.is_none(),
            },
    {
        match self {
            Material::Lambertian(m) => Some(&*m.texture),
            Material::DiffuseLight(m) => Some(&*m.texture),
            Material::Isotropic(m) => Some(&*m.texture),
            Material::Metal(_) => None,
            Material::Dielectric(_) => None,
        }
    }
}

/// A dielectric that cannot refract reflects, whatever the draw.
pub proof fn lemma_total_internal_reflection(reflectance_above_draw: bool)
    ensures
        Dielectric::spec_reflects(true, reflectance_above_draw),
{
}

/// A second handle on a shared value.
///
/// Trusted: `Arc::clone` returns a pointer to the same allocation, so the value
/// behind the new handle is the value behind the old one.
#[verifier::external_body]
pub(crate) fn share<T>(handle: &Arc<T>) -> (other: Arc<T>)
    ensures
        other == *handle,
{
    Arc::clone(handle)
}

} // verus!
