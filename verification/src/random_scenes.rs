//! The scenes that are sprinkled at random: each run places and colours some
//! of their surfaces anew.
//!
//! A draw is a whole number of ten-thousandths below one, uniform over `0..10_000`.

use crate::camera::AspectRatio;
use crate::camera::Background;
use crate::camera::Camera;
use crate::decimal::Decimal;
use crate::decimal::SCALE;
use crate::material::share;
use crate::material::Dielectric;
use crate::material::Lambertian;
use crate::material::Material;
use crate::material::Metal;
use crate::scenes::is_checkered;
use crate::scenes::is_haze;
use crate::scenes::is_lamp;
use crate::scenes::is_pictured;
use crate::scenes::is_quad;
use crate::scenes::is_whole;
use crate::scenes::lamp;
use crate::scenes::matte;
use crate::scenes::quad;
use crate::scenes::sphere;
use crate::scenes::is_film;
use crate::scenes::is_matte;
use crate::scenes::is_pinhole;
use crate::scenes::is_sphere;
use crate::scenes::material_of;
use crate::scenes::Scene;
use crate::shapes::is_triple;
use crate::shapes::BoxQuad;
use crate::shapes::ConstantMedium;
use crate::shapes::Hittable;
use crate::shapes::RotateY;
use crate::shapes::Translate;
use crate::shapes::Sphere;
use crate::texture::CheckerTexture;
use crate::texture::Texture;
use crate::triple::Triple;
use std::sync::Arc;
use vstd::arithmetic::div_mod::lemma_fundamental_div_mod_converse;
use vstd::prelude::*;

verus! {

/// The draws that place and colour one small sphere, each below `10_000`.
#[derive(Clone, Copy, Debug)]
pub struct SphereDraws {
    /// Chooses the material: diffuse below 0.8, metal below 0.95, else glass.
    pub kind: u32,
    /// Moves the centre within its grid cell.
    pub shift_x: u32,
    pub shift_z: u32,
    /// Two colours, multiplied for a diffuse albedo; the first alone tints metal.
    pub first: (u32, u32, u32),
    pub second: (u32, u32, u32),
    /// Twice the fuzz of a metal.
    pub fuzz: u32,
}

/// A uniform whole number below `bound`.
///
/// Trusted: `fastrand::u32` returns a value in the range it is given. It panics
/// on an empty range, which is left out. Nothing else is known of the value.
#[verifier::external_body]
pub(crate) fn draw_below(bound: u32) -> (d: u32)
    requires
        bound > 0,
    ensures
        d < bound,
{
    fastrand::u32(0..bound)
}

impl SphereDraws {
    /// Whether every draw is below one.
    pub open spec fn valid(self) -> bool {
        &&& self.kind < 10_000
        &&& self.shift_x < 10_000
        &&& self.shift_z < 10_000
        &&& self.first.0 < 10_000 && self.first.1 < 10_000 && self.first.2 < 10_000
        &&& self.second.0 < 10_000 && self.second.1 < 10_000 && self.second.2 < 10_000
        &&& self.fuzz < 10_000
    }
}

/// Whether `m` is a metal of the colour `(r, g, b)` and the given fuzz, in
/// ten-thousandths.
pub open spec fn is_mirror(m: Material, r: int, g: int, b: int, fuzz: int) -> bool {
    match m {
        Material::Metal(metal) => is_triple(metal.albedo, r, g, b) && metal.fuzz@ == fuzz,
        _ => false,
    }
}

/// Whether `m` is glass of refraction index 1.5.
pub open spec fn is_glass(m: Material) -> bool {
    match m {
        Material::Dielectric(d) => d.refraction_index@ == 15_000,
        _ => false,
    }
}

/// Where the small sphere of the grid cell `(a, b)` is centred, along X and Z:
/// the cell's corner moved by nine tenths of the shift.
pub open spec fn small_centre(a: int, b: int, draws: SphereDraws) -> (int, int) {
    (a * SCALE + (9 * draws.shift_x) / 10, b * SCALE + (9 * draws.shift_z) / 10)
}

/// Whether a small sphere centred at `(x, 0.2, z)` keeps clear of the large
/// sphere at `(4, 1, 0)`: its centre is more than 0.9 from `(4, 0.2, 0)`.
pub open spec fn keeps_clear(x: int, z: int) -> bool {
    (x - 40_000) * (x - 40_000) + z * z > 9_000 * 9_000
}

/// Whether `m` is the material that the draws choose.
pub open spec fn is_drawn_material(m: Material, draws: SphereDraws) -> bool {
    if draws.kind < 8_000 {
        is_matte(
            m,
            (draws.first.0 * draws.second.0) / 10_000,
            (draws.first.1 * draws.second.1) / 10_000,
            (draws.first.2 * draws.second.2) / 10_000,
        )
    } else if draws.kind < 9_500 {
        is_mirror(
            m,
            5_000 + draws.first.0 / 2,
            5_000 + draws.first.1 / 2,
            5_000 + draws.first.2 / 2,
            draws.fuzz as int / 2,
        )
    } else {
        is_glass(m)
    }
}

/// Whether a small sphere of the grid cell `(a, b)` can touch the large sphere
/// at `(4, 1, 0)` for some draws: only in the four cells next to its foot.
pub open spec fn may_touch(a: int, b: int) -> bool {
    (a == 3 || a == 4) && (b == -1 || b == 0)
}

/// The place of the grid cell `(a, b)` in the order in which the cells are
/// filled: row by row along `a`, and along `b` within a row.
pub open spec fn row_order(a: int, b: int) -> int {
    (a + 11) * 22 + (b + 11)
}

/// Whether `h` is the small sphere that the draws `cell.2` make in the grid
/// cell `(cell.0, cell.1)`.
pub open spec fn is_sprinkle_of(h: Hittable, cell: (int, int, SphereDraws)) -> bool {
    let (x, z) = small_centre(cell.0, cell.1, cell.2);
    &&& -11 <= cell.0 < 11
    &&& -11 <= cell.1 < 11
    &&& cell.2.valid()
    &&& keeps_clear(x, z)
    &&& is_small_sphere_at(h, x, z)
    &&& is_drawn_material(material_of(h), cell.2)
}

/// Whether the surfaces of `world` after the first are, one for one, the small
/// spheres of `cells`, and the cells come in the order in which they are filled.
pub open spec fn sprinkled_by(world: Seq<Hittable>, cells: Seq<(int, int, SphereDraws)>) -> bool {
    &&& world.len() >= 1 + cells.len()
    &&& forall|k: int| 0 <= k < cells.len() ==> is_sprinkle_of(world[k + 1], #[trigger] cells[k])
    &&& forall|j: int, k: int|
        0 <= j < k < cells.len() ==> row_order((#[trigger] cells[j]).0, cells[j].1) < row_order(
            (#[trigger] cells[k]).0,
            cells[k].1,
        )
}

/// The number of cells before `(a, b)` in the order of filling that may touch
/// the large sphere.
pub open spec fn may_touch_before(a: int, b: int) -> int {
    let rows = if a <= 3 {
        0int
    } else if a == 4 {
        2int
    } else {
        4int
    };
    let cells = if a == 3 || a == 4 {
        (if b > -1 {
            1int
        } else {
            0int
        }) + (if b > 0 {
            1int
        } else {
            0int
        })
    } else {
        0int
    };
    rows + cells
}

/// Whether `h` is a sphere of radius 0.2 resting on the ground at `(x, z)`.
pub open spec fn is_small_sphere_at(h: Hittable, x: int, z: int) -> bool {
    match h {
        Hittable::Sphere(s) => is_triple(s.center, x, 2_000, z) && s.radius@ == 2_000,
        _ => false,
    }
}

/// Whether `h` is a small sphere as some draws could have made it in some cell
/// of the grid: resting on the ground inside the grid, clear of the large
/// sphere, and diffuse, metal or glass within the ranges of the draws.
pub open spec fn is_sprinkled(h: Hittable) -> bool {
    match h {
        Hittable::Sphere(s) => {
            &&& s.radius@ == 2_000
            &&& s.center.y@ == 2_000
            &&& -11 * SCALE <= s.center.x@ < 10 * SCALE + 9_000
            &&& -11 * SCALE <= s.center.z@ < 10 * SCALE + 9_000
            &&& keeps_clear(s.center.x@, s.center.z@)
            &&& match *s.material {
                Material::Lambertian(l) => match *l.texture {
                    Texture::Solid(c) => {
                        &&& 0 <= c.albedo.x@ < 10_000
                        &&& 0 <= c.albedo.y@ < 10_000
                        &&& 0 <= c.albedo.z@ < 10_000
                    },
                    _ => false,
                },
                Material::Metal(m) => {
                    &&& 5_000 <= m.albedo.x@ < 10_000
                    &&& 5_000 <= m.albedo.y@ < 10_000
                    &&& 5_000 <= m.albedo.z@ < 10_000
                    &&& 0 <= m.fuzz@ < 5_000
                },
                Material::Dielectric(d) => d.refraction_index@ == 15_000,
                _ => false,
            }
        },
        _ => false,
    }
}

fn product(a: u32, b: u32) -> (p: i64)
    requires
        a < 10_000,
        b < 10_000,
    ensures
        p == (a * b) / 10_000,
        0 <= p < 10_000,
{
    assert(0 <= a * b < 10_000 * 10_000) by (nonlinear_arith)
        requires
            a < 10_000,
            b < 10_000,
    ;
    ((a as i64) * (b as i64)) / 10_000
}

/// The small sphere of the grid cell `(a, b)` that the draws make, or `None`
/// where it would touch the large sphere at `(4, 1, 0)`. The scene takes its
/// cells from `-11` up to `11` along both axes.
pub fn small_sphere(a: i32, b: i32, draws: &SphereDraws) -> (made: Option<Hittable>)
    requires
        draws.valid(),
    ensures
        ({
            let (x, z) = small_centre(a as int, b as int, *draws);
            match made {
                Some(h) => {
                    &&& keeps_clear(x, z)
                    &&& is_small_sphere_at(h, x, z)
                    &&& is_drawn_material(material_of(h), *draws)
                    &&& -11 <= a < 11 && -11 <= b < 11 ==> is_sprinkled(h)
                },
                None => !keeps_clear(x, z) && may_touch(a as int, b as int),
            }
        }),
{
    let x: i64 = (a as i64) * SCALE + (9 * (draws.shift_x as i64)) / 10;
    let z: i64 = (b as i64) * SCALE + (9 * (draws.shift_z as i64)) / 10;
    let dx: i128 = (x - 40_000) as i128;
    let dz: i128 = z as i128;
    assert(-0x4000_0000_0000 <= dx <= 0x4000_0000_0000 && -0x4000_0000_0000 <= dz
        <= 0x4000_0000_0000);
    assert(0 <= dx * dx <= 0x4000_0000_0000 * 0x4000_0000_0000 && 0 <= dz * dz <= 0x4000_0000_0000
        * 0x4000_0000_0000) by (nonlinear_arith)
        requires
            -0x4000_0000_0000 <= dx <= 0x4000_0000_0000,
            -0x4000_0000_0000 <= dz <= 0x4000_0000_0000,
    ;
    proof {
        // A centre more than 0.9 away along one axis is more than 0.9 away.
        assert(dx >= 10_000 || dx <= -10_000 ==> dx * dx >= 10_000 * 10_000) by (nonlinear_arith);
        assert(dz >= 10_000 || dz <= -10_000 ==> dz * dz >= 10_000 * 10_000) by (nonlinear_arith);
    }
    if dx * dx + dz * dz <= 9_000 * 9_000 {
        return None;
    }
    let material = if draws.kind < 8_000 {
        let albedo = Triple::units(
            product(draws.first.0, draws.second.0),
            product(draws.first.1, draws.second.1),
            product(draws.first.2, draws.second.2),
        );
        Material::Lambertian(Lambertian::new(albedo))
    } else if draws.kind < 9_500 {
        let albedo = Triple::units(
            5_000 + (draws.first.0 as i64) / 2,
            5_000 + (draws.first.1 as i64) / 2,
            5_000 + (draws.first.2 as i64) / 2,
        );
        Material::Metal(Metal::new(albedo, Decimal::from_units((draws.fuzz as i64) / 2)))
    } else {
        Material::Dielectric(Dielectric::new(Decimal::from_units(15_000)))
    };
    Some(
        Hittable::Sphere(
            Sphere::new(Triple::units(x, 2_000, z), Decimal::from_units(2_000), Arc::new(material)),
        ),
    )
}

fn draw_sphere() -> (draws: SphereDraws)
    ensures
        draws.valid(),
{
    SphereDraws {
        kind: draw_below(10_000),
        shift_x: draw_below(10_000),
        shift_z: draw_below(10_000),
        first: (draw_below(10_000), draw_below(10_000), draw_below(10_000)),
        second: (draw_below(10_000), draw_below(10_000), draw_below(10_000)),
        fuzz: draw_below(10_000),
    }
}

/// Whether `world` ends with the three large spheres: glass at the origin side,
/// brown diffuse behind, and a clear mirror in front.
pub open spec fn ends_with_large_spheres(world: Seq<Hittable>) -> bool {
    let n = world.len() as int;
    &&& n >= 3
    &&& is_sphere(world[n - 3], (0, 1, 0), 1)
    &&& is_glass(material_of(world[n - 3]))
    &&& is_sphere(world[n - 2], (-4, 1, 0), 1)
    &&& is_matte(material_of(world[n - 2]), 4_000, 2_000, 1_000)
    &&& is_sphere(world[n - 1], (4, 1, 0), 1)
    &&& is_mirror(material_of(world[n - 1]), 7_000, 6_000, 5_000, 0)
}

/// Whether `c` is the camera of the sprinkled spheres: a lens of 0.2 degrees
/// focused ten away, looking from `(13, 2, 3)` at the origin under the sky.
pub open spec fn is_sphere_camera(c: Camera) -> bool {
    &&& is_film(c, 1920, 1080, (16, 9), 20, 10)
    &&& c.background == Background::Gradient
    &&& c.vfov@ == 20 * SCALE
    &&& is_triple(c.look_from, 13 * SCALE, 2 * SCALE, 3 * SCALE)
    &&& is_triple(c.look_at, 0, 0, 0)
    &&& is_triple(c.vup, 0, SCALE as int, 0)
    &&& c.defocus_angle@ == 2_000
    &&& c.focus_dist@ == 10 * SCALE
}

/// A checkered ground sprinkled with small spheres, one to a cell of a grid of
/// 22 by 22 unless it would touch the third large sphere, and three large
/// spheres in their midst. Only the four cells at the foot of that sphere can
/// stay empty, so at least 480 small spheres are placed; they stand in the
/// order of their cells.
pub fn spheres() -> (scene: Scene)
    ensures
        scene.camera.renderable(),
        is_sphere_camera(scene.camera),
        4 + 22 * 22 - 4 <= scene.world@.len() <= 4 + 22 * 22,
        exists|cells: Seq<(int, int, SphereDraws)>|
            cells.len() == scene.world@.len() - 4 && #[trigger] sprinkled_by(scene.world@, cells),
        is_sphere(scene.world@[0], (0, -1000, 0), 1000),
        is_checkered(material_of(scene.world@[0])),
        forall|k: int| 1 <= k < scene.world@.len() - 3 ==> is_sprinkled(#[trigger] scene.world@[k]),
        ends_with_large_spheres(scene.world@),
{
    let camera = Camera::new(
        1920,
        AspectRatio { width: 16, height: 9 },
        20,
        10,
        Background::Gradient,
        Decimal::from_int(20),
        Triple::ints(13, 2, 3),
        Triple::ints(0, 0, 0),
        Triple::ints(0, 1, 0),
        Decimal::from_units(2_000),
        Decimal::from_int(10),
    );
    let mut world: Vec<Hittable> = Vec::new();
    let checker = CheckerTexture::new(
        Decimal::from_int(3),
        Triple::units(2_000, 3_000, 1_000),
        Triple::units(9_000, 9_000, 9_000),
    );
    let ground = Arc::new(
        Material::Lambertian(Lambertian::from_texture(Box::new(Texture::Checker(checker)))),
    );
    world.push(
        Hittable::Sphere(Sphere::new(Triple::ints(0, -1000, 0), Decimal::from_int(1000), ground)),
    );

    let ghost mut cells: Seq<(int, int, SphereDraws)> = Seq::empty();
    let mut a: i32 = -11;
    while a < 11
        invariant
            -11 <= a <= 11,
            world@.len() <= 1 + row_order(a as int, -11),
            world@.len() + may_touch_before(a as int, -11) >= 1 + row_order(a as int, -11),
            is_sphere(world@[0], (0, -1000, 0), 1000),
            is_checkered(material_of(world@[0])),
            forall|k: int| 1 <= k < world@.len() ==> is_sprinkled(#[trigger] world@[k]),
            cells.len() == world@.len() - 1,
            sprinkled_by(world@, cells),
            forall|k: int|
                0 <= k < cells.len() ==> row_order((#[trigger] cells[k]).0, cells[k].1) < row_order(
                    a as int,
                    -11,
                ),
        decreases 11 - a,
    {
        let mut b: i32 = -11;
        while b < 11
            invariant
                -11 <= a < 11,
                -11 <= b <= 11,
                world@.len() <= 1 + row_order(a as int, b as int),
                world@.len() + may_touch_before(a as int, b as int) >= 1 + row_order(
                    a as int,
                    b as int,
                ),
                is_sphere(world@[0], (0, -1000, 0), 1000),
                is_checkered(material_of(world@[0])),
                forall|k: int| 1 <= k < world@.len() ==> is_sprinkled(#[trigger] world@[k]),
                cells.len() == world@.len() - 1,
                sprinkled_by(world@, cells),
                forall|k: int|
                    0 <= k < cells.len() ==> row_order((#[trigger] cells[k]).0, cells[k].1)
                        < row_order(a as int, b as int),
            decreases 11 - b,
        {
            let draws = draw_sphere();
            match small_sphere(a, b, &draws) {
                Some(h) => {
                    world.push(h);
                    proof {
                        cells = cells.push((a as int, b as int, draws));
                    }
                },
                None => {},
            }
            b = b + 1;
        }
        a = a + 1;
    }
    let ghost sprinkled = world@;

    let glass = Arc::new(Material::Dielectric(Dielectric::new(Decimal::from_units(15_000))));
    world.push(Hittable::Sphere(Sphere::new(Triple::ints(0, 1, 0), Decimal::from_int(1), glass)));
    let brown = Arc::new(Material::Lambertian(Lambertian::new(Triple::units(4_000, 2_000, 1_000))));
    world.push(Hittable::Sphere(Sphere::new(Triple::ints(-4, 1, 0), Decimal::from_int(1), brown)));
    let mirror = Arc::new(
        Material::Metal(Metal::new(Triple::units(7_000, 6_000, 5_000), Decimal::zero())),
    );
    world.push(Hittable::Sphere(Sphere::new(Triple::ints(4, 1, 0), Decimal::from_int(1), mirror)));
    assert(forall|k: int| 0 <= k < sprinkled.len() ==> world@[k] == sprinkled[k]);
    assert(sprinkled_by(world@, cells));

    Scene { camera, world }
}

/// The number of ground boxes along each side, and the width of one.
pub open spec fn ground_grid(reduced: bool) -> (int, int) {
    if reduced {
        (5, 400)
    } else {
        (20, 100)
    }
}

/// Whether `h` is the ground box `i` along X and `j` along Z of a grid of boxes
/// `side` wide that starts at `(-1000, 0, -1000)`: green, and between 1 and 101 high.
pub open spec fn is_ground_box(h: Hittable, i: int, j: int, side: int) -> bool {
    match h {
        Hittable::BoxQuad(bx) => exists|a: Triple, c: Triple, m: Arc<Material>|
            {
                &&& #[trigger] bx.is_box(a, c, m)
                &&& is_triple(a, (-1000 + i * side) * SCALE, 0, (-1000 + j * side) * SCALE)
                &&& c.x@ == (-1000 + (i + 1) * side) * SCALE
                &&& c.z@ == (-1000 + (j + 1) * side) * SCALE
                &&& SCALE <= c.y@ < 101 * SCALE
                &&& is_matte(*m, 4_800, 8_300, 5_300)
            },
        _ => false,
    }
}

/// Whether `h` is a medium of the given density (in ten-thousandths) and solid
/// colour inside a glass sphere.
pub open spec fn is_fog_ball(
    h: Hittable,
    center: (int, int, int),
    radius: int,
    density: int,
    rgb: (int, int, int),
) -> bool {
    match h {
        Hittable::ConstantMedium(m) => {
            &&& is_sphere(*m.boundary, center, radius)
            &&& is_glass(material_of(*m.boundary))
            &&& m.density@ == density
            &&& is_haze(*m.material, rgb.0, rgb.1, rgb.2)
        },
        _ => false,
    }
}

/// Whether `h` is one sphere of the cluster: white, of radius 10, somewhere in
/// a cube of side 165, turned by 15 degrees and moved to `(-100, 270, 395)`.
pub open spec fn is_cluster_sphere(h: Hittable) -> bool {
    match h {
        Hittable::Translate(t) => is_whole(t.offset, -100, 270, 395) && match *t.object {
            Hittable::RotateY(r) => r.angle@ == 15 * SCALE && match *r.object {
                Hittable::Sphere(s) => {
                    &&& s.radius@ == 10 * SCALE
                    &&& 0 <= s.center.x@ < 165 * SCALE
                    &&& 0 <= s.center.y@ < 165 * SCALE
                    &&& 0 <= s.center.z@ < 165 * SCALE
                    &&& is_matte(*s.material, 7_300, 7_300, 7_300)
                },
                _ => false,
            },
            _ => false,
        },
        _ => false,
    }
}

/// Whether the nine surfaces of `world` from `at` on are the fixed part of the
/// final scene: the lamp, five spheres, the two media and their glass shell.
pub open spec fn has_showpieces(world: Seq<Hittable>, at: int) -> bool {
    &&& 0 <= at && at + 9 <= world.len()
    &&& is_quad(world[at], (123, 554, 147), (300, 0, 0), (0, 0, 265))
    &&& is_lamp(material_of(world[at]), 7 * SCALE, 7 * SCALE, 7 * SCALE)
    &&& is_sphere(world[at + 1], (400, 400, 200), 50)
    &&& is_matte(material_of(world[at + 1]), 7_000, 3_000, 1_000)
    &&& is_sphere(world[at + 2], (260, 150, 45), 50)
    &&& is_glass(material_of(world[at + 2]))
    &&& is_sphere(world[at + 3], (0, 150, 145), 50)
    &&& is_mirror(material_of(world[at + 3]), 8_000, 8_000, 9_000, SCALE as int)
    &&& is_sphere(world[at + 4], (360, 150, 145), 70)
    &&& is_glass(material_of(world[at + 4]))
    &&& is_fog_ball(world[at + 5], (360, 150, 145), 70, 200, (2_000, 4_000, 9_000))
    &&& is_fog_ball(world[at + 6], (0, 0, 0), 5000, 1, (10_000, 10_000, 10_000))
    &&& is_sphere(world[at + 7], (400, 200, 400), 100)
    &&& is_pictured(material_of(world[at + 7]), "earthmap.jpg"@)
    &&& is_sphere(world[at + 8], (220, 280, 300), 80)
    &&& is_mirror(material_of(world[at + 8]), 8_000, 8_000, 8_000, 0)
}

fn ground_box(i: u32, j: u32, side: i32, ground: &Arc<Material>) -> (h: Hittable)
    requires
        i < 20,
        j < 20,
        side == 100 || side == 400,
        (i + 1) * side <= 2000,
        (j + 1) * side <= 2000,
        is_matte(**ground, 4_800, 8_300, 5_300),
    ensures
        is_ground_box(h, i as int, j as int, side as int),
{
    let x0: i32 = -1000 + (i as i32) * side;
    let z0: i32 = -1000 + (j as i32) * side;
    let height: i64 = SCALE + (draw_below(1_000_000) as i64);
    let a = Triple::ints(x0, 0, z0);
    let c = Triple::new(
        Decimal::from_int(x0 + side),
        Decimal::from_units(height),
        Decimal::from_int(z0 + side),
    );
    let material = share(ground);
    let ghost m = material;
    let bx = BoxQuad::new(a, c, material);
    assert(bx.is_box(a, c, m));
    assert((i + 1) * side == i * side + side && (j + 1) * side == j * side + side)
        by (nonlinear_arith);
    Hittable::BoxQuad(bx)
}

fn glass_ball(center: (i32, i32, i32), radius: i32) -> (s: Sphere)
    ensures
        is_sphere(
            Hittable::Sphere(s),
            (center.0 as int, center.1 as int, center.2 as int),
            radius as int,
        ),
        is_glass(*s.material),
{
    Sphere::new(
        Triple::ints(center.0, center.1, center.2),
        Decimal::from_int(radius),
        Arc::new(Material::Dielectric(Dielectric::new(Decimal::from_units(15_000)))),
    )
}

fn cluster_sphere(white: &Arc<Material>) -> (h: Hittable)
    requires
        is_matte(**white, 7_300, 7_300, 7_300),
    ensures
        is_cluster_sphere(h),
{
    let center = Triple::units(
        draw_below(1_650_000) as i64,
        draw_below(1_650_000) as i64,
        draw_below(1_650_000) as i64,
    );
    let ball = Sphere::new(center, Decimal::from_int(10), share(white));
    let turned = RotateY::new(Arc::new(Hittable::Sphere(ball)), Decimal::from_int(15));
    Hittable::Translate(
        Translate::new(Arc::new(Hittable::RotateY(turned)), Triple::ints(-100, 270, 395)),
    )
}

/// The final scene: a ground of green boxes of random height, a lamp, spheres
/// of every material, two media and, unless `reduced`, a cluster of a thousand
/// small white spheres. A reduced scene has 25 large ground boxes in place of 400.
pub fn final_scene(image_width: u32, samples: u32, max_depth: u32, reduced: bool) -> (scene: Scene)
    ensures
        ({
            let (per_side, side) = ground_grid(reduced);
            let boxes = per_side * per_side;
            &&& scene.world@.len() == boxes + 9 + if reduced {
                0int
            } else {
                1000int
            }
            &&& forall|k: int|
                0 <= k < boxes ==> is_ground_box(
                    #[trigger] scene.world@[k],
                    k / per_side,
                    k % per_side,
                    side,
                )
            &&& has_showpieces(scene.world@, boxes)
            &&& forall|k: int|
                boxes + 9 <= k < scene.world@.len() ==> is_cluster_sphere(
                    #[trigger] scene.world@[k],
                )
        }),
        is_film(
            scene.camera,
            image_width as int,
            if image_width == 0 {
                1
            } else {
                image_width as int
            },
            (1, 1),
            samples as int,
            max_depth as int,
        ),
        is_pinhole(scene.camera, 40, (478, 278, -600), (278, 278, 0)),
        scene.camera.renderable() <==> image_width > 0 && samples > 0,
        scene.camera.background matches Background::Solid(c) && is_whole(c, 0, 0, 0),
{
    let mut world: Vec<Hittable> = Vec::new();
    let ground = Arc::new(Material::Lambertian(Lambertian::new(Triple::units(4_800, 8_300, 5_300))));
    let per_side: u32 = if reduced {
        5
    } else {
        20
    };
    let side: i32 = if reduced {
        400
    } else {
        100
    };

    let mut i: u32 = 0;
    while i < per_side
        invariant
            i <= per_side,
            (per_side as int, side as int) == ground_grid(reduced),
            is_matte(*ground, 4_800, 8_300, 5_300),
            world@.len() == i * per_side,
            forall|k: int|
                0 <= k < world@.len() ==> is_ground_box(
                    #[trigger] world@[k],
                    k / per_side as int,
                    k % per_side as int,
                    side as int,
                ),
        decreases per_side - i,
    {
        let mut j: u32 = 0;
        while j < per_side
            invariant
                i < per_side,
                j <= per_side,
                (per_side as int, side as int) == ground_grid(reduced),
                is_matte(*ground, 4_800, 8_300, 5_300),
                world@.len() == i * per_side + j,
                forall|k: int|
                    0 <= k < world@.len() ==> is_ground_box(
                        #[trigger] world@[k],
                        k / per_side as int,
                        k % per_side as int,
                        side as int,
                    ),
            decreases per_side - j,
        {
            assert((i + 1) * side <= 2000 && (j + 1) * side <= 2000) by (nonlinear_arith)
                requires
                    i < per_side,
                    j < per_side,
                    (per_side == 5 && side == 400) || (per_side == 20 && side == 100),
            ;
            let h = ground_box(i, j, side, &ground);
            proof {
                lemma_fundamental_div_mod_converse(
                    i * per_side + j,
                    per_side as int,
                    i as int,
                    j as int,
                );
            }
            world.push(h);
            j = j + 1;
        }
        assert((i + 1) * per_side == i * per_side + per_side) by (nonlinear_arith);
        i = i + 1;
    }
    let ghost boxes = world@.len() as int;
    let ghost ground_part = world@;
    assert(boxes == per_side * per_side);

    world.push(quad((123, 554, 147), (300, 0, 0), (0, 0, 265), lamp(7)));
    world.push(sphere((400, 400, 200), 50, matte(7_000, 3_000, 1_000)));
    world.push(Hittable::Sphere(glass_ball((260, 150, 45), 50)));
    let brushed = Arc::new(
        Material::Metal(Metal::new(Triple::units(8_000, 8_000, 9_000), Decimal::from_int(1))),
    );
    world.push(sphere((0, 150, 145), 50, brushed));
    world.push(Hittable::Sphere(glass_ball((360, 150, 145), 70)));
    world.push(
        Hittable::ConstantMedium(
            ConstantMedium::new(
                Box::new(Hittable::Sphere(glass_ball((360, 150, 145), 70))),
                Decimal::from_units(200),
                Triple::units(2_000, 4_000, 9_000),
            ),
        ),
    );
    world.push(
        Hittable::ConstantMedium(
            ConstantMedium::new(
                Box::new(Hittable::Sphere(glass_ball((0, 0, 0), 5000))),
                Decimal::from_units(1),
                Triple::ints(1, 1, 1),
            ),
        ),
    );
    let emat = Arc::new(
        Material::Lambertian(
            Lambertian::from_texture(Box::new(Texture::Image("earthmap.jpg".to_string()))),
        ),
    );
    world.push(sphere((400, 200, 400), 100, emat));
    let mirror = Arc::new(
        Material::Metal(Metal::new(Triple::units(8_000, 8_000, 8_000), Decimal::zero())),
    );
    world.push(sphere((220, 280, 300), 80, mirror));
    assert(has_showpieces(world@, boxes));
    assert(forall|k: int| 0 <= k < boxes ==> world@[k] == ground_part[k]);
    let ghost staged = world@;

    if !reduced {
        let white = matte(7_300, 7_300, 7_300);
        let ghost fixed = world@;
        let mut n: u32 = 0;
        while n < 1000
            invariant
                n <= 1000,
                is_matte(*white, 7_300, 7_300, 7_300),
                fixed.len() == boxes + 9,
                world@.len() == boxes + 9 + n,
                forall|k: int| 0 <= k < boxes + 9 ==> world@[k] == fixed[k],
                forall|k: int|
                    boxes + 9 <= k < world@.len() ==> is_cluster_sphere(#[trigger] world@[k]),
            decreases 1000 - n,
        {
            world.push(cluster_sphere(&white));
            n = n + 1;
        }
    }
    assert(forall|k: int| 0 <= k < boxes + 9 ==> world@[k] == staged[k]);
    assert(has_showpieces(world@, boxes));
    assert forall|k: int| 0 <= k < boxes implies is_ground_box(
        #[trigger] world@[k],
        k / per_side as int,
        k % per_side as int,
        side as int,
    ) by {
        assert(world@[k] == staged[k]);
        assert(staged[k] == ground_part[k]);
    }

    let camera = Camera::new(
        image_width,
        AspectRatio { width: 1, height: 1 },
        samples,
        max_depth,
        Background::Solid(Triple::ints(0, 0, 0)),
        Decimal::from_int(40),
        Triple::ints(478, 278, -600),
        Triple::ints(278, 278, 0),
        Triple::ints(0, 1, 0),
        Decimal::zero(),
        Decimal::zero(),
    );
    Scene { camera, world }
}

} // verus!
