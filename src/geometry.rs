use vstd::prelude::*;

use crate::binary32::Binary32;
use crate::material::Material;
use crate::vector::Vector3;

verus! {

/// `t` lies strictly between `lo` and `hi`.
pub open spec fn strictly_inside(t: Binary32, lo: Binary32, hi: Binary32) -> bool {
    lo.spec_lt(t) && t.spec_lt(hi)
}

/// A sphere with its center, radius and surface material.
#[derive(Clone, Copy, Debug)]
pub struct Sphere {
    pub pos: Vector3,
    pub radius: Binary32,
    pub material: Material,
}

/// The parameter at which a ray meets a sphere, from the quantities of the
/// quadratic `a t^2 + 2 b t + c = 0`: its discriminant `b^2 - a c` and its
/// two roots `near = (-b - sqrt(disc)) / a` and `far = (-b + sqrt(disc)) / a`.
pub open spec fn sphere_root(
    discriminant: Binary32,
    near: Binary32,
    far: Binary32,
    t_min: Binary32,
    t_max: Binary32,
) -> Option<Binary32> {
    if discriminant.spec_below_zero() {
        None
    } else if strictly_inside(near, t_min, t_max) {
        Some(near)
    } else if strictly_inside(far, t_min, t_max) {
        Some(far)
    } else {
        None
    }
}

impl Sphere {
    /// Decides a ray/sphere intersection: no hit when the discriminant is
    /// negative, else the first of `near`, `far` that lies strictly inside
    /// `(t_min, t_max)`.
    pub fn choose_root(
        discriminant: Binary32,
        near: Binary32,
        far: Binary32,
        t_min: Binary32,
        t_max: Binary32,
    ) -> (r: Option<Binary32>)
        ensures
            r == sphere_root(discriminant, near, far, t_min, t_max),
    {
        if discriminant.is_below_zero() {
            return None;
        }
        if t_min.lt(&near) && near.lt(&t_max) {
            return Some(near);
        }
        if t_min.lt(&far) && far.lt(&t_max) {
            return Some(far);
        }
        None
    }
}

/// An axis-aligned box given by its center and half-extents, with its
/// surface material.
#[derive(Clone, Copy, Debug)]
pub struct AABox {
    pub pos: Vector3,
    pub dims: Vector3,
    pub material: Material,
}

/// Lower end of a slab interval: the smaller of the parameters at which the
/// ray crosses the two planes of one axis.
pub open spec fn slab_low(a: Binary32, b: Binary32) -> Binary32 {
    a.spec_min(b)
}

/// Upper end of a slab interval.
pub open spec fn slab_high(a: Binary32, b: Binary32) -> Binary32 {
    a.spec_max(b)
}

/// The three slab intervals overlap pairwise: each upper end lies above the
/// lower ends of the two other axes.
pub open spec fn slabs_overlap(lo: Vector3, hi: Vector3) -> bool {
    &&& lo.y.spec_lt(hi.x)
    &&& lo.x.spec_lt(hi.y)
    &&& lo.x.spec_lt(hi.z)
    &&& lo.z.spec_lt(hi.x)
    &&& lo.z.spec_lt(hi.y)
    &&& lo.y.spec_lt(hi.z)
}

/// Componentwise lower ends of the slab intervals.
pub open spec fn slab_lows(to_min: Vector3, to_max: Vector3) -> Vector3 {
    Vector3 {
        x: slab_low(to_min.x, to_max.x),
        y: slab_low(to_min.y, to_max.y),
        z: slab_low(to_min.z, to_max.z),
    }
}

/// Componentwise upper ends of the slab intervals.
pub open spec fn slab_highs(to_min: Vector3, to_max: Vector3) -> Vector3 {
    Vector3 {
        x: slab_high(to_min.x, to_max.x),
        y: slab_high(to_min.y, to_max.y),
        z: slab_high(to_min.z, to_max.z),
    }
}

/// The parameter at which a ray enters a box, from the parameters `to_min`
/// and `to_max` at which it crosses the planes through the box's minimal and
/// maximal corners: the largest lower end of the three slab intervals, if
/// the intervals overlap and that parameter lies strictly inside
/// `(t_min, t_max)`.
pub open spec fn box_entry(to_min: Vector3, to_max: Vector3, t_min: Binary32, t_max: Binary32) -> Option<Binary32> {
    let lo = slab_lows(to_min, to_max);
    let hi = slab_highs(to_min, to_max);
    let entry = lo.x.spec_max(lo.y.spec_max(lo.z));
    if slabs_overlap(lo, hi) && strictly_inside(entry, t_min, t_max) {
        Some(entry)
    } else {
        None
    }
}

/// The three coordinate axes.
#[derive(Clone, Copy, Debug, PartialEq, Eq, Structural)]
pub enum Axis {
    X,
    Y,
    Z,
}

/// A face of an axis-aligned box: the axis of its outward normal and whether
/// the normal points along the positive direction of that axis.
#[derive(Clone, Copy, Debug, PartialEq, Eq, Structural)]
pub struct Face {
    pub axis: Axis,
    pub positive: bool,
}

/// The face through which a point leaves the box, from the point's offset
/// from the center in units of the half-extents: the axis of largest
/// magnitude, ties going to z, then to x.
pub open spec fn face_of(offset: Vector3) -> Face {
    let (mx, my, mz) = (offset.x.magnitude(), offset.y.magnitude(), offset.z.magnitude());
    if mz >= mx && mz >= my {
        Face { axis: Axis::Z, positive: offset.z.spec_positive() }
    } else if mx >= my {
        Face { axis: Axis::X, positive: offset.x.spec_positive() }
    } else {
        Face { axis: Axis::Y, positive: offset.y.spec_positive() }
    }
}

impl AABox {
    /// Slab test: decides where a ray enters the box, if it does within
    /// `(t_min, t_max)`.
    pub fn slab_entry(to_min: Vector3, to_max: Vector3, t_min: Binary32, t_max: Binary32) -> (r: Option<Binary32>)
        ensures
            r == box_entry(to_min, to_max, t_min, t_max),
    {
        let xmin = to_min.x.min(&to_max.x);
        let ymin = to_min.y.min(&to_max.y);
        let zmin = to_min.z.min(&to_max.z);
        let xmax = to_min.x.max(&to_max.x);
        let ymax = to_min.y.max(&to_max.y);
        let zmax = to_min.z.max(&to_max.z);
        if ymin.lt(&xmax) && xmin.lt(&ymax) && xmin.lt(&zmax) && zmin.lt(&xmax) && zmin.lt(&ymax)
            && ymin.lt(&zmax) {
            let entry = xmin.max(&ymin.max(&zmin));
            if t_min.lt(&entry) && entry.lt(&t_max) {
                return Some(entry);
            }
        }
        None
    }

    /// The face struck at a point, from the point's offset from the center
    /// divided componentwise by the half-extents.
    pub fn face(offset: Vector3) -> (r: Face)
        ensures
            r == face_of(offset),
    {
        let mx = offset.x.abs().bits;
        let my = offset.y.abs().bits;
        let mz = offset.z.abs().bits;
        if mz >= mx && mz >= my {
            Face { axis: Axis::Z, positive: offset.z.is_positive() }
        } else if mx >= my {
            Face { axis: Axis::X, positive: offset.x.is_positive() }
        } else {
            Face { axis: Axis::Y, positive: offset.y.is_positive() }
        }
    }
}

/// When the discriminant is not negative and both roots of a ray/sphere
/// quadratic lie strictly inside the interval, the nearer root is taken.
pub proof fn lemma_sphere_takes_nearer_root(
    discriminant: Binary32,
    near: Binary32,
    far: Binary32,
    t_min: Binary32,
    t_max: Binary32,
)
    requires
        !discriminant.spec_below_zero(),
        near.spec_le(far),
        strictly_inside(near, t_min, t_max),
        strictly_inside(far, t_min, t_max),
    ensures
        sphere_root(discriminant, near, far, t_min, t_max) == Some(near),
{
}

/// Component `i` of a vector: x, y, z for 0, 1, 2.
pub open spec fn component(v: Vector3, i: int) -> Binary32 {
    if i == 0 {
        v.x
    } else if i == 1 {
        v.y
    } else {
        v.z
    }
}

/// A ray whose parameter intervals on two axes are disjoint (the interval
/// of axis `a` ends no later than that of axis `b` begins) passes outside
/// the box and gets no hit.
pub proof fn lemma_disjoint_slabs_miss(to_min: Vector3, to_max: Vector3, t_min: Binary32, t_max: Binary32, a: int, b: int)
    requires
        0 <= a < 3,
        0 <= b < 3,
        a != b,
        component(slab_highs(to_min, to_max), a).spec_le(component(slab_lows(to_min, to_max), b)),
    ensures
        box_entry(to_min, to_max, t_min, t_max) is None,
{
}

/// A surface of the scene.
#[derive(Clone, Copy, Debug)]
pub enum Geometry {
    Sphere(Sphere),
    AABox(AABox),
}

impl Geometry {
    /// The material that this surface scatters light with.
    pub fn material(&self) -> (r: Material)
        ensures
            r == match *self {
                Geometry::Sphere(s) => s.material,
                Geometry::AABox(b) => b.material,
            },
    {
        match self {
            Geometry::Sphere(s) => s.material,
            Geometry::AABox(b) => b.material,
        }
    }
}

} // verus!
