//! Hits: what is recorded of one, and which of the hits along a ray is the
//! one that counts.

use vstd::prelude::*;
use crate::material::Material;
use crate::point::Point;
use crate::scalar::{equal_values_have_equal_bits, negation_mirrors_the_value, Scalar};
use crate::sphere::{narrowing_keeps_the_hit, Roots, Sphere};
use crate::vector::Vector;

verus! {

/// Where a ray met a surface.
#[derive(Clone, Copy, Debug, PartialEq, Eq)]
pub struct HitRecord {
    /// The place.
    pub p: Point,
    /// The surface normal there, turned against the ray.
    pub normal: Vector,
    /// The ray parameter of the place.
    pub t: Scalar,
    /// The ray came from outside.
    pub front_face: bool,
    /// What the surface is made of.
    pub material: Material,
}

impl HitRecord {
    /// The record of a hit at `p` with ray parameter `t`, where `normal`
    /// points out of the surface and `facing` is its dot product with the
    /// ray's direction.
    pub open spec fn spec_new_from_ray(
        p: Point,
        normal: Vector,
        t: Scalar,
        facing: Scalar,
        material: Material,
    ) -> HitRecord {
        if facing.below(Scalar { bits: 0 }) {
            HitRecord { p, normal, t, front_face: true, material }
        } else {
            HitRecord { p, normal: normal.negated(), t, front_face: false, material }
        }
    }

    /// The record of a hit at `p` with ray parameter `t`. `normal` points
    /// out of the surface and `facing` is its dot product with the ray's
    /// direction: below zero the ray came from outside and the normal is
    /// kept, else it came from inside and the normal is turned round. Either
    /// way the recorded normal points against the ray: its dot product with
    /// the ray's direction, which is `facing` or the negative of it, is not
    /// above zero.
    pub fn new_from_ray(
        p: Point,
        normal: Vector,
        t: Scalar,
        facing: Scalar,
        material: Material,
    ) -> (rec: HitRecord)
        ensures
            rec == HitRecord::spec_new_from_ray(p, normal, t, facing, material),
            rec.p == p,
            rec.t == t,
            rec.material == material,
            rec.front_face == facing.below(Scalar { bits: 0 }),
            rec.front_face ==> rec.normal == normal,
            !rec.front_face ==> rec.normal == normal.negated(),
            !(Scalar { bits: 0 }).below(
                if rec.front_face {
                    facing
                } else {
                    facing.negated()
                },
            ),
    {
        let mut rec = HitRecord { p, normal, t, front_face: false, material };
        rec.set_face_normal(facing, normal);
        proof {
            negation_mirrors_the_value(facing);
        }
        rec
    }

    fn set_face_normal(&mut self, facing: Scalar, normal: Vector)
        ensures
            final(self).p == old(self).p,
            final(self).t == old(self).t,
            final(self).material == old(self).material,
            final(self).front_face == facing.below(Scalar { bits: 0 }),
            final(self).front_face ==> final(self).normal == normal,
            !final(self).front_face ==> final(self).normal == normal.negated(),
    {
        self.front_face = facing.lt(Scalar::zero());
        self.normal = if self.front_face {
            normal
        } else {
            normal.neg()
        };
    }
}

/// A hit from outside is at the near root and keeps the outward normal.
/// Where the quadratic has roots, the near one lies in the range, and the
/// outward normal at it has a dot product below zero with the ray's
/// direction, the hit is at the near root and its record says that the
/// surface was met from outside and holds that normal. That the product is
/// below zero for a ray that comes from outside, and that the normal has
/// length one, is the caller's arithmetic and is not stated here.
pub proof fn hit_from_outside_keeps_the_outward_normal(
    roots: Roots,
    t_min: Scalar,
    t_max: Scalar,
    p: Point,
    normal: Vector,
    facing: Scalar,
    material: Material,
)
    requires
        !roots.discriminant.below(Scalar { bits: 0 }),
        roots.near.within(t_min, t_max),
        facing.below(Scalar { bits: 0 }),
    ensures
        roots.spec_first_within(t_min, t_max) == Some(roots.near),
        HitRecord::spec_new_from_ray(p, normal, roots.near, facing, material) == (HitRecord {
            p,
            normal,
            t: roots.near,
            front_face: true,
            material,
        }),
{
}

/// The nearest hit of a scan: which member was hit, and at what ray
/// parameter.
#[derive(Clone, Copy, Debug, PartialEq, Eq, Structural)]
pub struct Nearest {
    pub index: usize,
    pub t: Scalar,
}

/// The result of asking the members one after the other, each for its hit
/// between `t_min` and the nearest hit found before it (`t_max` as long as
/// there is none): the last hit that a member reported.
pub open spec fn spec_closest(roots: Seq<Roots>, t_min: Scalar, t_max: Scalar) -> Option<Nearest>
    decreases roots.len(),
{
    if roots.len() == 0 {
        None
    } else {
        let before = spec_closest(roots.drop_last(), t_min, t_max);
        let bound = match before {
            Some(found) => found.t,
            None => t_max,
        };
        match roots.last().spec_first_within(t_min, bound) {
            Some(t) => Some(Nearest { index: (roots.len() - 1) as usize, t }),
            None => before,
        }
    }
}

/// The nearest hit among the members whose quadratics came to `roots`, in
/// the members' order.
pub fn closest_hit(roots: &Vec<Roots>, t_min: Scalar, t_max: Scalar) -> (out: Option<Nearest>)
    ensures
        out == spec_closest(roots@, t_min, t_max),
        out matches Some(found) ==> found.index < roots.len(),
{
    let mut out: Option<Nearest> = None;
    let mut closest_so_far = t_max;
    let mut i: usize = 0;
    while i < roots.len()
        invariant
            i <= roots.len(),
            out == spec_closest(roots@.take(i as int), t_min, t_max),
            closest_so_far == match out {
                Some(found) => found.t,
                None => t_max,
            },
            out matches Some(found) ==> found.index < i,
        decreases roots.len() - i,
    {
        proof {
            let upto = roots@.take(i + 1);
            assert(upto.drop_last() =~= roots@.take(i as int));
            assert(upto.last() == roots@[i as int]);
        }
        if let Some(t) = roots[i].first_within(t_min, closest_so_far) {
            closest_so_far = t;
            out = Some(Nearest { index: i, t });
        }
        i = i + 1;
    }
    assert(roots@.take(i as int) =~= roots@);
    out
}

/// A scene: its members, in the order in which they were added.
pub struct Environment {
    pub hittables: Vec<Sphere>,
}

impl Environment {
    pub fn new() -> (world: Environment)
        ensures
            world.hittables@ == Seq::<Sphere>::empty(),
    {
        Environment { hittables: Vec::new() }
    }

    /// Adds a member behind those that are there.
    pub fn add(&mut self, hittable: Sphere)
        ensures
            final(self).hittables@ == old(self).hittables@.push(hittable),
    {
        self.hittables.push(hittable);
    }
}

/// What a member answers when asked alone, for the whole range.
pub open spec fn own_hit(roots: Roots, t_min: Scalar, t_max: Scalar) -> Option<Scalar> {
    roots.spec_first_within(t_min, t_max)
}

/// The scan finds the globally nearest hit. Where every member's roots are
/// ordered, it finds nothing exactly if no member has a hit in the range;
/// and what it finds is the own hit of the member it names, lies in the
/// range, is not beyond the hit of any member, and is strictly before the
/// hit of every later member: of several members hit at the same ray
/// parameter, the last one is named.
pub proof fn closest_is_the_nearest(roots: Seq<Roots>, t_min: Scalar, t_max: Scalar)
    requires
        roots.len() <= usize::MAX,
        forall|i: int| 0 <= i < roots.len() ==> (#[trigger] roots[i]).ordered(),
    ensures
        spec_closest(roots, t_min, t_max) is None <==> forall|i: int|
            0 <= i < roots.len() ==> own_hit(#[trigger] roots[i], t_min, t_max) is None,
        spec_closest(roots, t_min, t_max) matches Some(found) ==> {
            &&& found.index < roots.len()
            &&& own_hit(roots[found.index as int], t_min, t_max) == Some(found.t)
            &&& found.t.within(t_min, t_max)
            &&& forall|i: int|
                0 <= i < roots.len() ==> (own_hit(#[trigger] roots[i], t_min, t_max) matches Some(
                    t,
                ) ==> found.t.at_most(t))
            &&& forall|i: int|
                found.index < i < roots.len() ==> (own_hit(
                    #[trigger] roots[i],
                    t_min,
                    t_max,
                ) matches Some(t) ==> found.t.below(t))
        },
    decreases roots.len(),
{
    if roots.len() > 0 {
        let n = roots.len() - 1;
        let front = roots.drop_last();
        let last = roots.last();
        assert forall|i: int| 0 <= i < n implies #[trigger] front[i] == roots[i] by {}
        closest_is_the_nearest(front, t_min, t_max);
        let before = spec_closest(front, t_min, t_max);
        let bound = match before {
            Some(found) => found.t,
            None => t_max,
        };
        let narrowed = last.spec_first_within(t_min, bound);
        let alone = own_hit(last, t_min, t_max);
        if before is Some {
            narrowing_keeps_the_hit(last, t_min, t_max, bound);
        }
        assert(spec_closest(roots, t_min, t_max) == match narrowed {
            Some(t) => Some(Nearest { index: n as usize, t }),
            None => before,
        });
        match narrowed {
            Some(t) => {
                assert(alone == Some(t));
                assert(own_hit(roots[n], t_min, t_max) == Some(t));
                assert forall|i: int| 0 <= i < roots.len() implies (own_hit(
                    #[trigger] roots[i],
                    t_min,
                    t_max,
                ) matches Some(u) ==> t.at_most(u)) by {
                    if i < n {
                        assert(roots[i] == front[i]);
                        if let Some(u) = own_hit(front[i], t_min, t_max) {
                            assert(before is Some);
                            assert(before->0.t.at_most(u));
                        }
                    }
                }
            },
            None => {
                assert forall|i: int| 0 <= i < roots.len() && before is None implies own_hit(
                    #[trigger] roots[i],
                    t_min,
                    t_max,
                ) is None by {
                    if i < n {
                        assert(roots[i] == front[i]);
                    }
                }
                if let Some(found) = before {
                    assert(roots[found.index as int] == front[found.index as int]);
                    assert forall|i: int| 0 <= i < roots.len() implies (own_hit(
                        #[trigger] roots[i],
                        t_min,
                        t_max,
                    ) matches Some(u) ==> found.t.at_most(u)) by {
                        if i < n {
                            assert(roots[i] == front[i]);
                        }
                    }
                    assert forall|i: int| found.index < i < roots.len() implies (own_hit(
                        #[trigger] roots[i],
                        t_min,
                        t_max,
                    ) matches Some(u) ==> found.t.below(u)) by {
                        if i < n {
                            assert(roots[i] == front[i]);
                        }
                    }
                }
            },
        }
    }
}

/// The nearest hit does not depend on the order of the members: two scenes
/// with the same members, in whatever order, are hit at the same ray
/// parameter or not at all. The parameter is the same number, and the same
/// bits unless it is a zero.
pub proof fn closest_is_independent_of_order(
    first: Seq<Roots>,
    second: Seq<Roots>,
    t_min: Scalar,
    t_max: Scalar,
)
    requires
        first.len() <= usize::MAX,
        first.to_multiset() == second.to_multiset(),
        forall|i: int| 0 <= i < first.len() ==> (#[trigger] first[i]).ordered(),
    ensures
        spec_closest(first, t_min, t_max) is None <==> spec_closest(second, t_min, t_max) is None,
        spec_closest(first, t_min, t_max) matches Some(a) ==> spec_closest(
            second,
            t_min,
            t_max,
        ) matches Some(b) && a.t.value() == b.t.value() && (a.t == b.t || a.t.value() == 0),
{
    first.to_multiset_ensures();
    second.to_multiset_ensures();
    assert forall|j: int| 0 <= j < second.len() implies (#[trigger] second[j]).ordered() by {
        assert(second.contains(second[j]));
        assert(second.to_multiset().count(second[j]) > 0);
        assert(first.to_multiset().count(second[j]) > 0);
        assert(first.contains(second[j]));
    }
    closest_is_the_nearest(first, t_min, t_max);
    closest_is_the_nearest(second, t_min, t_max);
    let a = spec_closest(first, t_min, t_max);
    let b = spec_closest(second, t_min, t_max);
    if let Some(fa) = a {
        let member = first[fa.index as int];
        assert(first.contains(member));
        assert(first.to_multiset().count(member) > 0);
        assert(second.to_multiset().count(member) > 0);
        assert(second.contains(member));
        let j = choose|j: int| 0 <= j < second.len() && second[j] == member;
        assert(own_hit(second[j], t_min, t_max) == Some(fa.t));
    }
    if let Some(fb) = b {
        let member = second[fb.index as int];
        assert(second.contains(member));
        assert(second.to_multiset().count(member) > 0);
        assert(first.to_multiset().count(member) > 0);
        assert(first.contains(member));
        let i = choose|i: int| 0 <= i < first.len() && first[i] == member;
        assert(own_hit(first[i], t_min, t_max) == Some(fb.t));
        equal_values_have_equal_bits(a->0.t, fb.t);
    }
}

} // verus!
