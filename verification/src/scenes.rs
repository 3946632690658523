//! The built-in scenes: each is a camera and the list of surfaces it looks at.

use crate::camera::AspectRatio;
use crate::camera::Background;
use crate::camera::Camera;
use crate::decimal::Decimal;
use crate::decimal::SCALE;
use crate::material::share;
use crate::material::DiffuseLight;
use crate::material::Lambertian;
use crate::material::Material;
use crate::shapes::is_triple;
use crate::shapes::BoxQuad;
use crate::shapes::ConstantMedium;
use crate::shapes::Hittable;
use crate::shapes::Quad;
use crate::shapes::RotateY;
use crate::shapes::Sphere;
use crate::shapes::Translate;
use crate::texture::CheckerTexture;
use crate::texture::Texture;
use crate::triple::Triple;
use std::sync::Arc;
use vstd::prelude::*;

verus! {

/// A scene ready to render. The list of surfaces is read-only from here on.
#[derive(Debug)]
pub struct Scene {
    pub camera: Camera,
    pub world: Vec<Hittable>,
}

/// Whether `t` is the triple of whole numbers `(x, y, z)`.
pub open spec fn is_whole(t: Triple, x: int, y: int, z: int) -> bool {
    is_triple(t, x * SCALE, y * SCALE, z * SCALE)
}

/// Whether `t` is the solid colour `(r, g, b)`, in ten-thousandths.
pub open spec fn is_solid(t: Texture, r: int, g: int, b: int) -> bool {
    match t {
        Texture::Solid(s) => is_triple(s.albedo, r, g, b),
        _ => false,
    }
}

/// Whether `m` is a diffuse surface of the solid colour `(r, g, b)`.
pub open spec fn is_matte(m: Material, r: int, g: int, b: int) -> bool {
    match m {
        Material::Lambertian(l) => is_solid(*l.texture, r, g, b),
        _ => false,
    }
}

/// Whether `m` is a light of the solid colour `(r, g, b)`.
pub open spec fn is_lamp(m: Material, r: int, g: int, b: int) -> bool {
    match m {
        Material::DiffuseLight(l) => is_solid(*l.texture, r, g, b),
        _ => false,
    }
}

/// Whether `m` is a volume material of the solid colour `(r, g, b)`.
pub open spec fn is_haze(m: Material, r: int, g: int, b: int) -> bool {
    match m {
        Material::Isotropic(i) => is_solid(*i.texture, r, g, b),
        _ => false,
    }
}

/// Whether `m` is a diffuse surface with the green and white checker of scale 3.
pub open spec fn is_checkered(m: Material) -> bool {
    match m {
        Material::Lambertian(l) => match *l.texture {
            Texture::Checker(c) => {
                &&& c.scale@ == 3 * SCALE
                &&& is_solid(*c.odd, 2_000, 3_000, 1_000)
                &&& is_solid(*c.even, 9_000, 9_000, 9_000)
            },
            _ => false,
        },
        _ => false,
    }
}

/// Whether `m` is a diffuse surface textured with the bitmap in `file_name`.
pub open spec fn is_pictured(m: Material, file_name: Seq<char>) -> bool {
    match m {
        Material::Lambertian(l) => match *l.texture {
            Texture::Image(name) => name@ == file_name,
            _ => false,
        },
        _ => false,
    }
}

/// The material of a sphere or a patch.
pub open spec fn material_of(h: Hittable) -> Material {
    match h {
        Hittable::Sphere(s) => *s.material,
        Hittable::Quad(q) => *q.material,
        Hittable::ConstantMedium(m) => *m.material,
        _ => arbitrary(),
    }
}

/// Whether `h` is the sphere about the whole-numbered `center` with a whole radius.
pub open spec fn is_sphere(h: Hittable, center: (int, int, int), radius: int) -> bool {
    match h {
        Hittable::Sphere(s) => {
            &&& is_whole(s.center, center.0, center.1, center.2)
            &&& s.radius@ == radius * SCALE
        },
        _ => false,
    }
}

/// Whether `h` is the patch at `corner` with the edges `u` and `v`, all in whole numbers.
pub open spec fn is_quad(h: Hittable, corner: (int, int, int), u: (int, int, int), v: (
    int,
    int,
    int,
)) -> bool {
    match h {
        Hittable::Quad(q) => {
            &&& is_whole(q.starting_corner, corner.0, corner.1, corner.2)
            &&& is_whole(q.u, u.0, u.1, u.2)
            &&& is_whole(q.v, v.0, v.1, v.2)
        },
        _ => false,
    }
}

/// Whether `h` is a matte box from the origin to `size`, of the colour `(r, g, b)`,
/// turned about the Y axis by `angle` degrees and then moved by `offset`.
pub open spec fn is_placed_box(
    h: Hittable,
    size: (int, int, int),
    angle: int,
    offset: (int, int, int),
    rgb: (int, int, int),
) -> bool {
    match h {
        Hittable::Translate(t) => is_whole(t.offset, offset.0, offset.1, offset.2) && match *t.object {
            Hittable::RotateY(r) => r.angle@ == angle * SCALE && match *r.object {
                Hittable::BoxQuad(b) => exists|a: Triple, c: Triple, m: Arc<Material>|
                    {
                        &&& #[trigger] b.is_box(a, c, m)
                        &&& is_whole(a, 0, 0, 0)
                        &&& is_whole(c, size.0, size.1, size.2)
                        &&& is_matte(*m, rgb.0, rgb.1, rgb.2)
                    },
                _ => false,
            },
            _ => false,
        },
        _ => false,
    }
}

/// Whether `h` is a medium of the given density (in ten-thousandths) and solid
/// colour, bounded by a placed box.
pub open spec fn is_smoke_box(
    h: Hittable,
    size: (int, int, int),
    angle: int,
    offset: (int, int, int),
    density: int,
    rgb: (int, int, int),
) -> bool {
    match h {
        Hittable::ConstantMedium(m) => {
            &&& is_placed_box(*m.boundary, size, angle, offset, (7_300, 7_300, 7_300))
            &&& m.density@ == density
            &&& is_haze(*m.material, rgb.0, rgb.1, rgb.2)
        },
        _ => false,
    }
}

/// Whether `c` looks from `from` at `target`, both in whole numbers, with the Y
/// axis up, a field of view of `vfov` degrees and no lens.
pub open spec fn is_pinhole(c: Camera, vfov: int, from: (int, int, int), target: (
    int,
    int,
    int,
)) -> bool {
    &&& c.vfov@ == vfov * SCALE
    &&& is_whole(c.look_from, from.0, from.1, from.2)
    &&& is_whole(c.look_at, target.0, target.1, target.2)
    &&& is_whole(c.vup, 0, 1, 0)
    &&& c.defocus_angle@ == 0
    &&& c.focus_dist@ == SCALE
}

/// Whether `c` makes an image of `width` by `height` pixels in the shape
/// `ratio`, with the given samples per pixel and depth of recursion.
pub open spec fn is_film(
    c: Camera,
    width: int,
    height: int,
    ratio: (int, int),
    samples: int,
    depth: int,
) -> bool {
    &&& c.image_width == width
    &&& c.image_height == height
    &&& c.aspect_ratio.width == ratio.0
    &&& c.aspect_ratio.height == ratio.1
    &&& c.samples_per_pixel == samples
    &&& c.max_depth == depth
}

/// Whether the first six surfaces of `world` are the walls of the Cornell room:
/// green and red side walls, the lamp in the ceiling, then the white floor,
/// ceiling and back wall.
pub open spec fn has_cornell_room(
    world: Seq<Hittable>,
    lamp_corner: (int, int, int),
    lamp_u: (int, int, int),
    lamp_v: (int, int, int),
    lamp: int,
) -> bool {
    &&& world.len() >= 6
    &&& is_quad(world[0], (555, 0, 0), (0, 555, 0), (0, 0, 555))
    &&& is_matte(material_of(world[0]), 1_200, 4_500, 1_500)
    &&& is_quad(world[1], (0, 0, 0), (0, 555, 0), (0, 0, 555))
    &&& is_matte(material_of(world[1]), 6_500, 500, 500)
    &&& is_quad(world[2], lamp_corner, lamp_u, lamp_v)
    &&& is_lamp(material_of(world[2]), lamp * SCALE, lamp * SCALE, lamp * SCALE)
    &&& is_quad(world[3], (0, 0, 0), (555, 0, 0), (0, 0, 555))
    &&& is_matte(material_of(world[3]), 7_300, 7_300, 7_300)
    &&& is_quad(world[4], (555, 555, 555), (-555, 0, 0), (0, 0, -555))
    &&& is_matte(material_of(world[4]), 7_300, 7_300, 7_300)
    &&& is_quad(world[5], (0, 0, 555), (555, 0, 0), (0, 555, 0))
    &&& is_matte(material_of(world[5]), 7_300, 7_300, 7_300)
}

pub(crate) fn matte(r: i64, g: i64, b: i64) -> (m: Arc<Material>)
    ensures
        is_matte(*m, r as int, g as int, b as int),
{
    Arc::new(Material::Lambertian(Lambertian::new(Triple::units(r, g, b))))
}

pub(crate) fn lamp(level: i32) -> (m: Arc<Material>)
    ensures
        is_lamp(*m, level * SCALE, level * SCALE, level * SCALE),
{
    Arc::new(Material::DiffuseLight(DiffuseLight::new(Triple::ints(level, level, level))))
}

fn checkered() -> (m: Arc<Material>)
    ensures
        is_checkered(*m),
{
    let checker = CheckerTexture::new(
        Decimal::from_int(3),
        Triple::units(2_000, 3_000, 1_000),
        Triple::units(9_000, 9_000, 9_000),
    );
    Arc::new(Material::Lambertian(Lambertian::from_texture(Box::new(Texture::Checker(checker)))))
}

pub(crate) fn sphere(center: (i32, i32, i32), radius: i32, material: Arc<Material>) -> (h: Hittable)
    ensures
        is_sphere(h, (center.0 as int, center.1 as int, center.2 as int), radius as int),
        material_of(h) == *material,
{
    Hittable::Sphere(
        Sphere::new(
            Triple::ints(center.0, center.1, center.2),
            Decimal::from_int(radius),
            material,
        ),
    )
}

pub(crate) fn quad(corner: (i32, i32, i32), u: (i32, i32, i32), v: (i32, i32, i32), material: Arc<
    Material,
>) -> (h: Hittable)
    ensures
        is_quad(
            h,
            (corner.0 as int, corner.1 as int, corner.2 as int),
            (u.0 as int, u.1 as int, u.2 as int),
            (v.0 as int, v.1 as int, v.2 as int),
        ),
        material_of(h) == *material,
{
    Hittable::Quad(
        Quad::new(
            Triple::ints(corner.0, corner.1, corner.2),
            Triple::ints(u.0, u.1, u.2),
            Triple::ints(v.0, v.1, v.2),
            material,
        ),
    )
}

fn pinhole(
    image_width: u32,
    ratio: (u32, u32),
    samples: u32,
    depth: u32,
    background: Background,
    vfov: i32,
    from: (i32, i32, i32),
    target: (i32, i32, i32),
    focus: i32,
) -> (c: Camera)
    requires
        ratio.0 > 0,
        0 <= focus <= 1,
    ensures
        is_pinhole(
            c,
            vfov as int,
            (from.0 as int, from.1 as int, from.2 as int),
            (target.0 as int, target.1 as int, target.2 as int),
        ),
        c.image_width == image_width,
        c.image_height == crate::camera::rows_for(image_width as int, c.aspect_ratio),
        c.aspect_ratio.width == ratio.0,
        c.aspect_ratio.height == ratio.1,
        c.samples_per_pixel == samples,
        c.max_depth == depth,
        c.background == background,
        c.renderable() <==> image_width > 0 && samples > 0 && ratio.1 > 0,
{
    Camera::new(
        image_width,
        AspectRatio { width: ratio.0, height: ratio.1 },
        samples,
        depth,
        background,
        Decimal::from_int(vfov),
        Triple::ints(from.0, from.1, from.2),
        Triple::ints(target.0, target.1, target.2),
        Triple::ints(0, 1, 0),
        Decimal::zero(),
        Decimal::from_int(focus),
    )
}

fn placed_box(size: (i32, i32, i32), angle: i32, offset: (i32, i32, i32), rgb: (
    i64,
    i64,
    i64,
)) -> (h: Hittable)
    ensures
        is_placed_box(
            h,
            (size.0 as int, size.1 as int, size.2 as int),
            angle as int,
            (offset.0 as int, offset.1 as int, offset.2 as int),
            (rgb.0 as int, rgb.1 as int, rgb.2 as int),
        ),
{
    let origin = Triple::ints(0, 0, 0);
    let far = Triple::ints(size.0, size.1, size.2);
    let material = matte(rgb.0, rgb.1, rgb.2);
    let ghost m = material;
    let solid_box = BoxQuad::new(origin, far, material);
    assert(solid_box.is_box(origin, far, m));
    let turned = Hittable::RotateY(
        RotateY::new(Arc::new(Hittable::BoxQuad(solid_box)), Decimal::from_int(angle)),
    );
    Hittable::Translate(
        Translate::new(Arc::new(turned), Triple::ints(offset.0, offset.1, offset.2)),
    )
}

fn cornell_room(
    lamp_corner: (i32, i32, i32),
    lamp_u: (i32, i32, i32),
    lamp_v: (i32, i32, i32),
    level: i32,
) -> (world: Vec<Hittable>)
    ensures
        world@.len() == 6,
        has_cornell_room(
            world@,
            (lamp_corner.0 as int, lamp_corner.1 as int, lamp_corner.2 as int),
            (lamp_u.0 as int, lamp_u.1 as int, lamp_u.2 as int),
            (lamp_v.0 as int, lamp_v.1 as int, lamp_v.2 as int),
            level as int,
        ),
{
    let mut world: Vec<Hittable> = Vec::new();
    let red = matte(6_500, 500, 500);
    let white = matte(7_300, 7_300, 7_300);
    let green = matte(1_200, 4_500, 1_500);
    let light = lamp(level);

    world.push(quad((555, 0, 0), (0, 555, 0), (0, 0, 555), green));
    world.push(quad((0, 0, 0), (0, 555, 0), (0, 0, 555), red));
    world.push(quad(lamp_corner, lamp_u, lamp_v, light));
    world.push(quad((0, 0, 0), (555, 0, 0), (0, 0, 555), share(&white)));
    world.push(quad((555, 555, 555), (-555, 0, 0), (0, 0, -555), share(&white)));
    world.push(quad((0, 0, 555), (555, 0, 0), (0, 555, 0), white));
    world
}

/// Two checkered spheres that touch at the origin, under the sky.
pub fn checkered_spheres() -> (scene: Scene)
    ensures
        scene.camera.renderable(),
        scene.world@.len() == 2,
        is_sphere(scene.world@[0], (0, -10, 0), 10),
        is_checkered(material_of(scene.world@[0])),
        is_sphere(scene.world@[1], (0, 10, 0), 10),
        is_checkered(material_of(scene.world@[1])),
        is_film(scene.camera, 400, 225, (16, 9), 100, 50),
        is_pinhole(scene.camera, 20, (13, 2, 3), (0, 0, 0)),
        scene.camera.background == Background::Gradient,
{
    let mut world: Vec<Hittable> = Vec::new();
    world.push(sphere((0, -10, 0), 10, checkered()));
    world.push(sphere((0, 10, 0), 10, checkered()));
    let camera = pinhole(400, (16, 9), 100, 50, Background::Gradient, 20, (13, 2, 3), (0, 0, 0), 0);
    Scene { camera, world }
}

/// A globe textured with the bitmap `earthmap.jpg`, under the sky.
pub fn earth() -> (scene: Scene)
    ensures
        scene.camera.renderable(),
        scene.world@.len() == 1,
        is_sphere(scene.world@[0], (0, 0, 0), 2),
        is_pictured(material_of(scene.world@[0]), "earthmap.jpg"@),
        is_film(scene.camera, 400, 225, (16, 9), 100, 50),
        is_pinhole(scene.camera, 20, (0, 0, 12), (0, 0, 0)),
        scene.camera.background == Background::Gradient,
{
    let mut world: Vec<Hittable> = Vec::new();
    let earth_texture = Box::new(Texture::Image("earthmap.jpg".to_string()));
    let earth_surface = Arc::new(Material::Lambertian(Lambertian::from_texture(earth_texture)));
    world.push(sphere((0, 0, 0), 2, earth_surface));
    let camera = pinhole(400, (16, 9), 100, 50, Background::Gradient, 20, (0, 0, 12), (0, 0, 0), 0);
    Scene { camera, world }
}

/// Five coloured patches around the view axis, under the sky.
pub fn quads() -> (scene: Scene)
    ensures
        scene.camera.renderable(),
        scene.world@.len() == 5,
        is_quad(scene.world@[0], (-3, -2, 5), (0, 0, -4), (0, 4, 0)),
        is_matte(material_of(scene.world@[0]), 10_000, 2_000, 2_000),
        is_quad(scene.world@[1], (-2, -2, 0), (4, 0, 0), (0, 4, 0)),
        is_matte(material_of(scene.world@[1]), 2_000, 10_000, 2_000),
        is_quad(scene.world@[2], (3, -2, 1), (0, 0, 4), (0, 4, 0)),
        is_matte(material_of(scene.world@[2]), 2_000, 2_000, 10_000),
        is_quad(scene.world@[3], (-2, 3, 1), (4, 0, 0), (0, 0, 4)),
        is_matte(material_of(scene.world@[3]), 10_000, 5_000, 0),
        is_quad(scene.world@[4], (-2, -3, 5), (4, 0, 0), (0, 0, -4)),
        is_matte(material_of(scene.world@[4]), 2_000, 8_000, 8_000),
        is_film(scene.camera, 400, 400, (1, 1), 100, 50),
        is_pinhole(scene.camera, 80, (0, 0, 9), (0, 0, 0)),
        scene.camera.background == Background::Gradient,
{
    let mut world: Vec<Hittable> = Vec::new();

    let left_red = matte(10_000, 2_000, 2_000);
    let back_green = matte(2_000, 10_000, 2_000);
    let right_blue = matte(2_000, 2_000, 10_000);
    let upper_orange = matte(10_000, 5_000, 0);
    let lower_teal = matte(2_000, 8_000, 8_000);

    world.push(quad((-3, -2, 5), (0, 0, -4), (0, 4, 0), left_red));
    world.push(quad((-2, -2, 0), (4, 0, 0), (0, 4, 0), back_green));
    world.push(quad((3, -2, 1), (0, 0, 4), (0, 4, 0), right_blue));
    world.push(quad((-2, 3, 1), (4, 0, 0), (0, 0, 4), upper_orange));
    world.push(quad((-2, -3, 5), (4, 0, 0), (0, 0, -4), lower_teal));

    let camera = pinhole(400, (1, 1), 100, 50, Background::Gradient, 80, (0, 0, 9), (0, 0, 0), 1);
    Scene { camera, world }
}

/// A sphere on the ground, lit by a sphere and a patch of light in the dark.
pub fn simple_lights() -> (scene: Scene)
    ensures
        scene.camera.renderable(),
        scene.world@.len() == 4,
        is_sphere(scene.world@[0], (0, -1000, 0), 1000),
        is_matte(material_of(scene.world@[0]), 5_000, 5_000, 5_000),
        is_sphere(scene.world@[1], (0, 2, 0), 2),
        is_matte(material_of(scene.world@[1]), 5_000, 5_000, 5_000),
        is_sphere(scene.world@[2], (0, 7, 0), 2),
        is_lamp(material_of(scene.world@[2]), 40_000, 40_000, 40_000),
        is_quad(scene.world@[3], (3, 1, -2), (2, 0, 0), (0, 2, 0)),
        is_lamp(material_of(scene.world@[3]), 40_000, 40_000, 40_000),
        is_film(scene.camera, 1920, 1080, (16, 9), 10000, 50),
        is_pinhole(scene.camera, 20, (26, 3, 6), (0, 2, 0)),
        scene.camera.background matches Background::Solid(c) && is_whole(c, 0, 0, 0),
{
    let mut world: Vec<Hittable> = Vec::new();
    let material = matte(5_000, 5_000, 5_000);
    world.push(sphere((0, -1000, 0), 1000, share(&material)));
    world.push(sphere((0, 2, 0), 2, material));

    let diff_light = lamp(4);
    world.push(sphere((0, 7, 0), 2, share(&diff_light)));
    world.push(quad((3, 1, -2), (2, 0, 0), (0, 2, 0), diff_light));

    let camera = pinhole(
        1920,
        (16, 9),
        10000,
        50,
        Background::Solid(Triple::ints(0, 0, 0)),
        20,
        (26, 3, 6),
        (0, 2, 0),
        0,
    );
    Scene { camera, world }
}

/// The Cornell box: a lit room with two white boxes.
pub fn cornell_box() -> (scene: Scene)
    ensures
        scene.camera.renderable(),
        scene.world@.len() == 8,
        has_cornell_room(scene.world@, (343, 554, 332), (-130, 0, 0), (0, 0, -105), 15),
        is_placed_box(scene.world@[6], (165, 330, 165), 15, (265, 0, 295), (7_300, 7_300, 7_300)),
        is_placed_box(scene.world@[7], (165, 165, 165), -18, (130, 0, 65), (7_300, 7_300, 7_300)),
        is_film(scene.camera, 1920, 1920, (1, 1), 10000, 5),
        is_pinhole(scene.camera, 40, (278, 278, -800), (278, 278, 0)),
        scene.camera.background matches Background::Solid(c) && is_whole(c, 0, 0, 0),
{
    let mut world = cornell_room((343, 554, 332), (-130, 0, 0), (0, 0, -105), 15);
    world.push(placed_box((165, 330, 165), 15, (265, 0, 295), (7_300, 7_300, 7_300)));
    world.push(placed_box((165, 165, 165), -18, (130, 0, 65), (7_300, 7_300, 7_300)));

    let camera = pinhole(
        1920,
        (1, 1),
        10000,
        5,
        Background::Solid(Triple::ints(0, 0, 0)),
        40,
        (278, 278, -800),
        (278, 278, 0),
        0,
    );
    Scene { camera, world }
}

/// The Cornell box with its two boxes made of smoke, one black and one white.
pub fn cornell_smoke() -> (scene: Scene)
    ensures
        scene.camera.renderable(),
        scene.world@.len() == 8,
        has_cornell_room(scene.world@, (113, 554, 127), (330, 0, 0), (0, 0, 305), 7),
        is_smoke_box(scene.world@[6], (165, 330, 165), 15, (265, 0, 295), 100, (0, 0, 0)),
        is_smoke_box(
            scene.world@[7],
            (165, 165, 165),
            -18,
            (130, 0, 65),
            100,
            (10_000, 10_000, 10_000),
        ),
        is_film(scene.camera, 1920, 1920, (1, 1), 10000, 5),
        is_pinhole(scene.camera, 40, (278, 278, -800), (278, 278, 0)),
        scene.camera.background matches Background::Solid(c) && is_whole(c, 0, 0, 0),
{
    let mut world = cornell_room((113, 554, 127), (330, 0, 0), (0, 0, 305), 7);

    let box_1 = placed_box((165, 330, 165), 15, (265, 0, 295), (7_300, 7_300, 7_300));
    let fog_1 = ConstantMedium::new(Box::new(box_1), Decimal::from_units(100), Triple::ints(0, 0, 0));
    world.push(Hittable::ConstantMedium(fog_1));

    let box_2 = placed_box((165, 165, 165), -18, (130, 0, 65), (7_300, 7_300, 7_300));
    let fog_2 = ConstantMedium::new(Box::new(box_2), Decimal::from_units(100), Triple::ints(1, 1, 1));
    world.push(Hittable::ConstantMedium(fog_2));

    let camera = pinhole(
        1920,
        (1, 1),
        10000,
        5,
        Background::Solid(Triple::ints(0, 0, 0)),
        40,
        (278, 278, -800),
        (278, 278, 0),
        0,
    );
    Scene { camera, world }
}

} // verus!
