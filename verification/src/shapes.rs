//! Surfaces: what a ray can hit, as a closed family of variants.

use crate::decimal::Decimal;
use crate::material::share;
use crate::material::solid;
use crate::material::Isotropic;
use crate::material::Material;
use crate::texture::Texture;
use crate::triple::Triple;
use std::sync::Arc;
use vstd::prelude::*;

verus! {

/// A sphere.
#[derive(Debug)]
pub struct Sphere {
    pub center: Triple,
    pub radius: Decimal,
    pub material: Arc<Material>,
}

/// A planar patch: the points `starting_corner + alpha * u + beta * v` with
/// `alpha` and `beta` between zero and one.
#[derive(Debug)]
pub struct Quad {
    pub starting_corner: Triple,
    pub u: Triple,
    pub v: Triple,
    pub material: Arc<Material>,
}

/// An axis-aligned box, as its six faces.
#[derive(Debug)]
pub struct BoxQuad {
    pub front: Quad,
    pub right: Quad,
    pub back: Quad,
    pub left: Quad,
    pub top: Quad,
    pub bottom: Quad,
}

/// A participating medium of constant density inside a boundary.
#[derive(Debug)]
pub struct ConstantMedium {
    pub boundary: Box<Hittable>,
    pub density: Decimal,
    pub material: Arc<Material>,
}

/// A surface moved by an offset.
#[derive(Debug)]
pub struct Translate {
    pub object: Arc<Hittable>,
    pub offset: Triple,
}

/// A surface turned about the Y axis by an angle in degrees.
#[derive(Debug)]
pub struct RotateY {
    pub object: Arc<Hittable>,
    pub angle: Decimal,
}

/// The family of surfaces.
#[derive(Debug)]
pub enum Hittable {
    Sphere(Sphere),
    Quad(Quad),
    BoxQuad(BoxQuad),
    ConstantMedium(ConstantMedium),
    Translate(Translate),
    RotateY(RotateY),
}

/// One of the three axes.
pub enum Axis {
    X,
    Y,
    Z,
}

/// The component of `t` along `axis`, in ten-thousandths.
pub open spec fn along(t: Triple, axis: Axis) -> int {
    match axis {
        Axis::X => t.x@,
        Axis::Y => t.y@,
        Axis::Z => t.z@,
    }
}

/// The smaller of the two corners' components along `axis`.
pub open spec fn low(a: Triple, b: Triple, axis: Axis) -> int {
    if along(a, axis) <= along(b, axis) {
        along(a, axis)
    } else {
        along(b, axis)
    }
}

/// The larger of the two corners' components along `axis`.
pub open spec fn high(a: Triple, b: Triple, axis: Axis) -> int {
    if along(a, axis) >= along(b, axis) {
        along(a, axis)
    } else {
        along(b, axis)
    }
}

/// The length of the box's edge along `axis`.
pub open spec fn extent(a: Triple, b: Triple, axis: Axis) -> int {
    high(a, b, axis) - low(a, b, axis)
}

/// Whether each edge of the box between `a` and `b` has a length that `i64` holds.
pub open spec fn box_representable(a: Triple, b: Triple) -> bool {
    &&& extent(a, b, Axis::X) <= i64::MAX
    &&& extent(a, b, Axis::Y) <= i64::MAX
    &&& extent(a, b, Axis::Z) <= i64::MAX
}

/// Whether `t` has the components `(x, y, z)`, in ten-thousandths.
pub open spec fn is_triple(t: Triple, x: int, y: int, z: int) -> bool {
    t.x@ == x && t.y@ == y && t.z@ == z
}

/// Whether `q` starts at `corner` and spans `extent_u` along `axis_u` and
/// `extent_v` along `axis_v`, each edge lying along its axis.
pub open spec fn is_face(
    q: Quad,
    corner: (int, int, int),
    axis_u: Axis,
    extent_u: int,
    axis_v: Axis,
    extent_v: int,
) -> bool {
    &&& is_triple(q.starting_corner, corner.0, corner.1, corner.2)
    &&& along(q.u, axis_u) == extent_u
    &&& along(q.v, axis_v) == extent_v
    &&& axis_aligned(q.u, axis_u)
    &&& axis_aligned(q.v, axis_v)
}

/// Whether `t` is zero off `axis`.
pub open spec fn axis_aligned(t: Triple, axis: Axis) -> bool {
    match axis {
        Axis::X => t.y@ == 0 && t.z@ == 0,
        Axis::Y => t.x@ == 0 && t.z@ == 0,
        Axis::Z => t.x@ == 0 && t.y@ == 0,
    }
}

impl Sphere {
    /// The sphere about `center`.
    pub fn new(center: Triple, radius: Decimal, material: Arc<Material>) -> (s: Sphere)
        ensures
            s.center == center,
            s.radius == radius,
            s.material == material,
    {
        Sphere { center, radius, material }
    }
}

impl Quad {
    /// The patch at `starting_corner` spanned by the edges `u` and `v`.
    pub fn new(starting_corner: Triple, u: Triple, v: Triple, material: Arc<Material>) -> (q: Quad)
        ensures
            q.starting_corner == starting_corner,
            q.u == u,
            q.v == v,
            q.material == material,
    {
        Quad { starting_corner, u, v, material }
    }
}

impl BoxQuad {
    /// Whether `self` is the box between the opposite corners `a` and `b`: each
    /// face starts at a vertex of the box and spans two of its edges, so that its
    /// normal `u x v` points out of the box.
    pub open spec fn is_box(self, a: Triple, b: Triple, material: Arc<Material>) -> bool {
        let (x0, y0, z0) = (low(a, b, Axis::X), low(a, b, Axis::Y), low(a, b, Axis::Z));
        let (x1, y1, z1) = (high(a, b, Axis::X), high(a, b, Axis::Y), high(a, b, Axis::Z));
        let (dx, dy, dz) = (x1 - x0, y1 - y0, z1 - z0);
        &&& is_face(self.front, (x0, y0, z1), Axis::X, dx, Axis::Y, dy)
        &&& is_face(self.right, (x1, y0, z1), Axis::Z, -dz, Axis::Y, dy)
        &&& is_face(self.back, (x1, y0, z0), Axis::X, -dx, Axis::Y, dy)
        &&& is_face(self.left, (x0, y0, z0), Axis::Z, dz, Axis::Y, dy)
        &&& is_face(self.top, (x0, y1, z1), Axis::X, dx, Axis::Z, -dz)
        &&& is_face(self.bottom, (x0, y0, z0), Axis::X, dx, Axis::Z, dz)
        &&& self.front.material == material
        &&& self.right.material == material
        &&& self.back.material == material
        &&& self.left.material == material
        &&& self.top.material == material
        &&& self.bottom.material == material
    }

    /// The box between the opposite corners `a` and `b`, in either order.
    pub fn new(a: Triple, b: Triple, material: Arc<Material>) -> (bx: BoxQuad)
        requires
            box_representable(a, b),
        ensures
            bx.is_box(a, b, material),
    {
        let min = Triple::new(a.x.min(b.x), a.y.min(b.y), a.z.min(b.z));
        let max = Triple::new(a.x.max(b.x), a.y.max(b.y), a.z.max(b.z));
        let zero = Decimal::zero();

        let dx = Triple::new(max.x.minus(min.x), zero, zero);
        let dy = Triple::new(zero, max.y.minus(min.y), zero);
        let dz = Triple::new(zero, zero, max.z.minus(min.z));

        let front = Quad::new(Triple::new(min.x, min.y, max.z), dx, dy, share(&material));
        let right = Quad::new(
            Triple::new(max.x, min.y, max.z),
            dz.negated(),
            dy,
            share(&material),
        );
        let back = Quad::new(
            Triple::new(max.x, min.y, min.z),
            dx.negated(),
            dy,
            share(&material),
        );
        let left = Quad::new(Triple::new(min.x, min.y, min.z), dz, dy, share(&material));
        let top = Quad::new(
            Triple::new(min.x, max.y, max.z),
            dx,
            dz.negated(),
            share(&material),
        );
        let bottom = Quad::new(Triple::new(min.x, min.y, min.z), dx, dz, material);
        BoxQuad { front, right, back, left, top, bottom }
    }
}

/// One of the four vertices of a patch, along `axis`: the starting corner, moved
/// by the edge `u` if `far_u` and by the edge `v` if `far_v`.
pub open spec fn vertex_along(q: Quad, far_u: bool, far_v: bool, axis: Axis) -> int {
    along(q.starting_corner, axis) + (if far_u {
        along(q.u, axis)
    } else {
        0
    }) + (if far_v {
        along(q.v, axis)
    } else {
        0
    })
}

/// Whether the four vertices of `q` lie in the plane `axis = level` and inside
/// the box between `a` and `b`.
pub open spec fn face_in_plane(q: Quad, a: Triple, b: Triple, axis: Axis, level: int) -> bool {
    forall|i: bool, j: bool|
        {
            &&& #[trigger] vertex_along(q, i, j, axis) == level
            &&& low(a, b, Axis::X) <= vertex_along(q, i, j, Axis::X) <= high(a, b, Axis::X)
            &&& low(a, b, Axis::Y) <= vertex_along(q, i, j, Axis::Y) <= high(a, b, Axis::Y)
            &&& low(a, b, Axis::Z) <= vertex_along(q, i, j, Axis::Z) <= high(a, b, Axis::Z)
        }
}

/// The six faces of a box lie in its six bounding planes, one in each, and none
/// reaches beyond the box.
pub proof fn lemma_box_faces_bound_box(bx: BoxQuad, a: Triple, b: Triple, material: Arc<Material>)
    requires
        bx.is_box(a, b, material),
    ensures
        face_in_plane(bx.front, a, b, Axis::Z, high(a, b, Axis::Z)),
        face_in_plane(bx.back, a, b, Axis::Z, low(a, b, Axis::Z)),
        face_in_plane(bx.right, a, b, Axis::X, high(a, b, Axis::X)),
        face_in_plane(bx.left, a, b, Axis::X, low(a, b, Axis::X)),
        face_in_plane(bx.top, a, b, Axis::Y, high(a, b, Axis::Y)),
        face_in_plane(bx.bottom, a, b, Axis::Y, low(a, b, Axis::Y)),
{
}

impl ConstantMedium {
    /// A medium of one colour inside `boundary`.
    pub fn new(boundary: Box<Hittable>, density: Decimal, color: Triple) -> (m: ConstantMedium)
        ensures
            m.boundary == boundary,
            m.density == density,
            *m.material matches Material::Isotropic(i) && *i.texture == solid(color),
    {
        ConstantMedium {
            boundary,
            density,
            material: Arc::new(Material::Isotropic(Isotropic::new(color))),
        }
    }

    /// A medium with the given texture inside `boundary`.
    pub fn from_texture(boundary: Box<Hittable>, density: Decimal, texture: Box<Texture>) -> (m:
        ConstantMedium)
        ensures
            m.boundary == boundary,
            m.density == density,
            *m.material matches Material::Isotropic(i) && i.texture == texture,
    {
        ConstantMedium {
            boundary,
            density,
            material: Arc::new(Material::Isotropic(Isotropic::from_texture(texture))),
        }
    }
}

impl Translate {
    /// `object` moved by `offset`.
    pub fn new(object: Arc<Hittable>, offset: Triple) -> (t: Translate)
        ensures
            t.object == object,
            t.offset == offset,
    {
        Translate { object, offset }
    }
}

impl RotateY {
    /// `object` turned about the Y axis by `angle` degrees.
    pub fn new(object: Arc<Hittable>, angle: Decimal) -> (r: RotateY)
        ensures
            r.object == object,
            r.angle == angle,
    {
        RotateY { object, angle }
    }
}

} // verus!
