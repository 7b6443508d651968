//! Spheres, and which of the places where a ray's line meets one is the hit.

use vstd::prelude::*;
use crate::material::Material;
use crate::point::Point;
use crate::scalar::Scalar;

verus! {

/// A sphere: centre, radius and what it is made of.
#[derive(Clone, Copy, Debug, PartialEq, Eq)]
pub struct Sphere {
    pub centre: Point,
    pub radius: Scalar,
    pub material: Material,
}

impl Sphere {
    pub fn new(centre: Point, radius: Scalar, material: Material) -> (sphere: Sphere)
        ensures
            sphere.centre == centre,
            sphere.radius == radius,
            sphere.material == material,
    {
        Sphere { centre, radius, material }
    }
}

/// What the quadratic of a ray and a sphere came to. With `oc` the ray's
/// origin seen from the centre, `a = D.D`, `half_b = oc.D` and
/// `c = oc.oc - r^2`, the discriminant is `half_b^2 - a c`, and the roots are
/// `(-half_b - sqrt(discriminant)) / a` and `(-half_b + sqrt(discriminant)) / a`:
/// the ray parameters at which the line enters and leaves the sphere.
#[derive(Clone, Copy, Debug, PartialEq, Eq, Structural)]
pub struct Roots {
    pub discriminant: Scalar,
    pub near: Scalar,
    pub far: Scalar,
}

impl Roots {
    /// The far root is not before the near one. The quadratic formula gives
    /// such roots for every ray that has a direction.
    pub open spec fn ordered(self) -> bool {
        !self.far.below(self.near)
    }

    /// The ray parameter of the hit between `t_min` and `t_max`: none where
    /// the discriminant is negative; else the near root if it lies in the
    /// range; else the far root if that one does; else none.
    pub open spec fn spec_first_within(self, t_min: Scalar, t_max: Scalar) -> Option<Scalar> {
        if self.discriminant.below(Scalar { bits: 0 }) {
            None
        } else if self.near.within(t_min, t_max) {
            Some(self.near)
        } else if self.far.within(t_min, t_max) {
            Some(self.far)
        } else {
            None
        }
    }

    pub fn new(discriminant: Scalar, near: Scalar, far: Scalar) -> (roots: Roots)
        ensures
            roots == (Roots { discriminant, near, far }),
    {
        Roots { discriminant, near, far }
    }

    /// The ray parameter of the hit between `t_min` and `t_max`, if there is
    /// one.
    pub fn first_within(&self, t_min: Scalar, t_max: Scalar) -> (t: Option<Scalar>)
        ensures
            t == self.spec_first_within(t_min, t_max),
    {
        if self.discriminant.lt(Scalar::zero()) {
            None
        } else if t_min.le(self.near) && self.near.le(t_max) {
            Some(self.near)
        } else if t_min.le(self.far) && self.far.le(t_max) {
            Some(self.far)
        } else {
            None
        }
    }
}

/// Of ordered roots the hit is the smallest root in the range: it is a root,
/// it lies in the range, and no root in the range is before it. There is none
/// exactly where the discriminant is negative or neither root is in the range.
pub proof fn first_root_is_the_nearest(roots: Roots, t_min: Scalar, t_max: Scalar)
    requires
        roots.ordered(),
    ensures
        match roots.spec_first_within(t_min, t_max) {
            Some(t) => {
                &&& !roots.discriminant.below(Scalar { bits: 0 })
                &&& t == roots.near || t == roots.far
                &&& t.within(t_min, t_max)
                &&& roots.near.within(t_min, t_max) ==> t.at_most(roots.near)
                &&& roots.far.within(t_min, t_max) ==> t.at_most(roots.far)
            },
            None => {
                ||| roots.discriminant.below(Scalar { bits: 0 })
                ||| !roots.near.within(t_min, t_max) && !roots.far.within(t_min, t_max)
            },
        },
{
}

/// Lowering the upper end of the range does not change which root is the
/// hit: it only loses a hit that lies beyond the new end.
pub proof fn narrowing_keeps_the_hit(roots: Roots, t_min: Scalar, t_max: Scalar, bound: Scalar)
    requires
        roots.ordered(),
        bound.at_most(t_max),
    ensures
        roots.spec_first_within(t_min, bound) == match roots.spec_first_within(t_min, t_max) {
            Some(t) => if t.at_most(bound) {
                Some(t)
            } else {
                None
            },
            None => None,
        },
{
}

} // verus!
