use pathtracer::decimal::Decimal;
use pathtracer::material::Dielectric;
use pathtracer::material::DiffuseLight;
use pathtracer::material::Isotropic;
use pathtracer::material::Lambertian;
use pathtracer::material::Material;
use pathtracer::material::Metal;
use pathtracer::texture::checker_cell_is_even;
use pathtracer::texture::CheckerTexture;
use pathtracer::texture::SolidTexture;
use pathtracer::texture::Texture;
use pathtracer::triple::Triple;

fn colour_of(t: &Texture) -> (i64, i64, i64) {
    match t {
        Texture::Solid(s) => (s.albedo.x.units, s.albedo.y.units, s.albedo.z.units),
        _ => panic!("a solid texture was expected"),
    }
}

fn green_white() -> CheckerTexture {
    CheckerTexture::new(
        Decimal::from_int(1),
        Triple::units(2_000, 3_000, 1_000),
        Triple::units(9_000, 9_000, 9_000),
    )
}

#[test]
fn checker_flips_across_a_cell_boundary() {
    let checker = green_white();
    let at_origin = colour_of(checker.select(0, 0, 0));
    let one_cell_on = colour_of(checker.select(1, 0, 0));
    assert_eq!(at_origin, (9_000, 9_000, 9_000));
    assert_eq!(one_cell_on, (2_000, 3_000, 1_000));
    assert_ne!(at_origin, one_cell_on);
}

#[test]
fn checker_uses_floor_parity_on_the_negative_side() {
    // The point (-0.5, 0, 0) lies in the cell (-1, 0, 0), which is odd; truncation
    // would put it in the cell (0, 0, 0), which is even.
    let checker = green_white();
    let cell = (-0.5f64).floor() as i64;
    assert_eq!(cell, -1);
    assert_eq!(colour_of(checker.select(cell, 0, 0)), (2_000, 3_000, 1_000));
    assert_eq!(colour_of(checker.select(-2, 0, 0)), (9_000, 9_000, 9_000));
    assert_eq!(colour_of(checker.select(-1, -1, 0)), (9_000, 9_000, 9_000));
    assert_eq!(colour_of(checker.select(-1, -1, -1)), (2_000, 3_000, 1_000));
}

#[test]
fn cell_parity_is_that_of_the_sum() {
    assert!(checker_cell_is_even(0, 0, 0));
    assert!(!checker_cell_is_even(1, 0, 0));
    assert!(!checker_cell_is_even(0, 1, 0));
    assert!(!checker_cell_is_even(0, 0, 1));
    assert!(checker_cell_is_even(1, 1, 0));
    assert!(checker_cell_is_even(3, -5, 2));
    assert!(!checker_cell_is_even(-1, 0, 0));
    assert!(!checker_cell_is_even(-3, 0, 0));
}

#[test]
fn cell_parity_does_not_overflow() {
    assert!(!checker_cell_is_even(i64::MAX, i64::MAX, i64::MAX));
    assert!(checker_cell_is_even(i64::MIN, i64::MIN, i64::MIN));
    assert!(!checker_cell_is_even(i64::MAX, i64::MIN, 0));
    assert!(checker_cell_is_even(i64::MAX, i64::MAX, 0));
    // Cells beyond two to the thirty-first keep their own parity.
    assert!(checker_cell_is_even(1 << 31, 0, 0));
    assert!(!checker_cell_is_even((1 << 31) + 1, 0, 0));
    assert!(!checker_cell_is_even(-(1 << 31) - 1, 0, 0));
    assert!(checker_cell_is_even(4_000_000_000, 2, -6_000_000_000));
}

#[test]
fn neighbouring_cells_differ_along_every_axis() {
    for x in -3i64..3 {
        for y in -3i64..3 {
            for z in -3i64..3 {
                let here = checker_cell_is_even(x, y, z);
                assert_ne!(here, checker_cell_is_even(x + 1, y, z));
                assert_ne!(here, checker_cell_is_even(x, y + 1, z));
                assert_ne!(here, checker_cell_is_even(x, y, z + 1));
            }
        }
    }
}

#[test]
fn checker_from_textures_keeps_them() {
    let inner = Box::new(Texture::Checker(green_white()));
    let plain = Box::new(Texture::Solid(SolidTexture::new(Triple::ints(1, 0, 0))));
    let checker = CheckerTexture::from_texture(Decimal::from_units(5_000), inner, plain);
    assert_eq!(checker.scale.units, 5_000);
    assert!(matches!(checker.select(1, 0, 0), Texture::Checker(_)));
    assert_eq!(colour_of(checker.select(2, 0, 0)), (10_000, 0, 0));
}

#[test]
fn metal_fuzz_is_at_most_one() {
    let grey = Triple::units(8_000, 8_000, 8_000);
    assert_eq!(Metal::new(grey, Decimal::from_units(15_000)).fuzz.units, 10_000);
    assert_eq!(Metal::new(grey, Decimal::from_units(10_001)).fuzz.units, 10_000);
    assert_eq!(Metal::new(grey, Decimal::from_units(10_000)).fuzz.units, 10_000);
    assert_eq!(Metal::new(grey, Decimal::from_units(3_000)).fuzz.units, 3_000);
    assert_eq!(Metal::new(grey, Decimal::zero()).fuzz.units, 0);
    assert_eq!(Metal::new(grey, Decimal::from_units(-4)).fuzz.units, -4);
    assert_eq!(Metal::new(grey, Decimal::zero()).albedo, grey);
}

#[test]
fn only_the_light_absorbs_and_emits() {
    let c = Triple::ints(1, 1, 1);
    let all = vec![
        (Material::Lambertian(Lambertian::new(c)), true, false),
        (Material::Metal(Metal::new(c, Decimal::zero())), true, false),
        (Material::Dielectric(Dielectric::new(Decimal::from_units(15_000))), true, false),
        (Material::DiffuseLight(DiffuseLight::new(c)), false, true),
        (Material::Isotropic(Isotropic::new(c)), true, false),
    ];
    for (material, scatters, emits) in all.iter() {
        assert_eq!(material.scatters(), *scatters);
        assert_eq!(material.emits(), *emits);
    }
}

#[test]
fn materials_hand_out_their_texture() {
    let c = Triple::units(1, 2, 3);
    assert_eq!(colour_of(Material::Lambertian(Lambertian::new(c)).texture().unwrap()), (1, 2, 3));
    assert_eq!(colour_of(Material::DiffuseLight(DiffuseLight::new(c)).texture().unwrap()), (1, 2, 3));
    assert_eq!(colour_of(Material::Isotropic(Isotropic::new(c)).texture().unwrap()), (1, 2, 3));
    assert!(Material::Metal(Metal::new(c, Decimal::zero())).texture().is_none());
    assert!(Material::Dielectric(Dielectric::new(Decimal::from_int(1))).texture().is_none());
    let boxed = Box::new(Texture::Image("earthmap.jpg".to_string()));
    let pictured = Material::Lambertian(Lambertian::from_texture(boxed));
    match pictured.texture() {
        Some(Texture::Image(name)) => assert_eq!(name, "earthmap.jpg"),
        _ => panic!("an image texture was expected"),
    }
    let lit = DiffuseLight::from_texture(Box::new(Texture::Solid(SolidTexture::new(c))));
    assert_eq!(colour_of(&lit.texture), (1, 2, 3));
    let hazy = Isotropic::from_texture(Box::new(Texture::Solid(SolidTexture::new(c))));
    assert_eq!(colour_of(&hazy.texture), (1, 2, 3));
}

#[test]
fn refraction_ratio_depends_on_the_face() {
    let glass = Dielectric::new(Decimal::from_units(15_000));
    let entering = glass.refraction_ratio(true);
    assert_eq!((entering.numerator.units, entering.denominator.units), (10_000, 15_000));
    let leaving = glass.refraction_ratio(false);
    assert_eq!((leaving.numerator.units, leaving.denominator.units), (15_000, 10_000));
}

#[test]
fn total_internal_reflection_ignores_the_draw() {
    // Inside glass of index 1.5 at a grazing angle: cos = 0.1, so
    // 1.5 * sin > 1 and the ray cannot refract.
    let cos_theta: f64 = 0.1;
    let sin_theta = (1.0 - cos_theta * cos_theta).sqrt();
    let cannot_refract = 1.5 * sin_theta > 1.0;
    assert!(cannot_refract);
    assert!(Dielectric::reflects(cannot_refract, false));
    assert!(Dielectric::reflects(cannot_refract, true));
    assert!(Dielectric::reflects(false, true));
    assert!(!Dielectric::reflects(false, false));
}
