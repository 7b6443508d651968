//! What a surface does to a ray that meets it.
//!
//! A scatter is the answer `None` (the ray is absorbed) or the ray that goes
//! on from the hit with the share of each colour channel that it keeps. The
//! caller computes the candidate directions; which of them is taken, and
//! whether any is, is decided here.

use vstd::prelude::*;
use crate::colour::Colour;
use crate::hittable::HitRecord;
use crate::ray::Ray;
use crate::scalar::{Scalar, ONE_BITS};
use crate::vector::Vector;

verus! {

/// A matt surface: scatters every ray, in a random direction around the
/// normal.
#[derive(Clone, Copy, Debug, PartialEq, Eq, Structural)]
pub struct Diffuse {
    pub colour: Colour,
}

/// A mirror, more or less polished: `fuzz` is 0 for a perfect one.
#[derive(Clone, Copy, Debug, PartialEq, Eq, Structural)]
pub struct Metal {
    pub colour: Colour,
    pub fuzz: Scalar,
}

/// A clear solid that bends light.
#[derive(Clone, Copy, Debug, PartialEq, Eq, Structural)]
pub struct Glass {
    pub refractive_idx: Scalar,
}

/// The materials.
#[derive(Clone, Copy, Debug, PartialEq, Eq, Structural)]
pub enum Material {
    Diffuse(Diffuse),
    Metal(Metal),
    Glass(Glass),
}

/// What the caller worked out for a ray that meets glass.
#[derive(Clone, Copy, Debug, PartialEq, Eq)]
pub struct Refraction {
    /// The ratio of the refractive indices times the sine of the angle of
    /// incidence. Above 1 there is no refracted ray.
    pub ratio_sine: Scalar,
    /// The share of the light that the surface mirrors at this angle.
    pub reflectance: Scalar,
    /// A number drawn uniformly from `[0, 1)`.
    pub draw: Scalar,
    /// The mirrored direction.
    pub reflected: Vector,
    /// The refracted direction.
    pub refracted: Vector,
}

impl Diffuse {
    pub fn new(colour: Colour) -> (m: Material)
        ensures
            m == Material::Diffuse(Diffuse { colour }),
    {
        Material::Diffuse(Diffuse { colour })
    }

    /// The direction in which the ray goes on: `candidate`, the normal
    /// moved by a random unit vector, unless that is near zero, and then the
    /// normal itself.
    pub open spec fn direction(record: HitRecord, candidate: Vector) -> Vector {
        if candidate.spec_near_zero() {
            record.normal
        } else {
            candidate
        }
    }

    /// Scatters: from the hit, along [`Diffuse::direction`], keeping the
    /// surface's colour. The direction is near zero only if the normal is.
    pub fn scatter(&self, record: &HitRecord, candidate: Vector) -> (out: Option<(Ray, Colour)>)
        ensures
            out == Some(
                (
                    Ray { origin: record.p, direction: Diffuse::direction(*record, candidate) },
                    self.colour,
                ),
            ),
            out matches Some((ray, _)) && (!record.normal.spec_near_zero()
                ==> !ray.direction.spec_near_zero()),
    {
        let direction = if candidate.near_zero() {
            record.normal
        } else {
            candidate
        };
        Some((Ray::new(record.p, direction), self.colour))
    }
}

impl Metal {
    pub fn new(colour: Colour, fuzz: Scalar) -> (m: Material)
        ensures
            m == Material::Metal(Metal { colour, fuzz }),
    {
        Material::Metal(Metal { colour, fuzz })
    }

    /// Scatters along `fuzzed`, the mirrored direction moved by the fuzz
    /// times a random point of the unit ball, keeping the surface's colour,
    /// if `fuzzed` leaves the surface: if `fuzzed_dot_normal`, the dot
    /// product of `fuzzed` with the normal, is above zero. Else the ray is
    /// absorbed: a fuzz that turns the mirrored direction into the surface
    /// loses the ray.
    pub fn scatter(&self, record: &HitRecord, fuzzed_dot_normal: Scalar, fuzzed: Vector) -> (out:
        Option<(Ray, Colour)>)
        ensures
            out == if (Scalar { bits: 0 }).below(fuzzed_dot_normal) {
                Some((Ray { origin: record.p, direction: fuzzed }, self.colour))
            } else {
                None
            },
    {
        if fuzzed_dot_normal.gt(Scalar::zero()) {
            Some((Ray::new(record.p, fuzzed), self.colour))
        } else {
            None
        }
    }
}

impl Glass {
    pub fn new(refractive_idx: Scalar) -> (m: Material)
        ensures
            m == Material::Glass(Glass { refractive_idx }),
    {
        Material::Glass(Glass { refractive_idx })
    }

    /// The ratio of the refractive index on the side the ray comes from to
    /// the one on the side it goes to: `reciprocal`, one over the index of
    /// the glass, for a ray that enters, the index itself for one that
    /// leaves.
    pub fn ratio(&self, record: &HitRecord, reciprocal: Scalar) -> (r: Scalar)
        ensures
            r == if record.front_face {
                reciprocal
            } else {
                self.refractive_idx
            },
    {
        if record.front_face {
            reciprocal
        } else {
            self.refractive_idx
        }
    }

    /// The ray is mirrored, not bent: there is no refracted ray at this
    /// angle, or the draw fell below the reflectance.
    pub open spec fn reflects(at: Refraction) -> bool {
        (Scalar { bits: ONE_BITS }).below(at.ratio_sine) || at.draw.below(at.reflectance)
    }

    /// Scatters every ray and takes nothing from it: mirrored where
    /// [`Glass::reflects`], refracted elsewhere. Beyond the critical angle,
    /// where `ratio_sine` is above 1, the ray is mirrored whatever was drawn.
    pub fn scatter(&self, record: &HitRecord, at: &Refraction) -> (out: Option<(Ray, Colour)>)
        ensures
            out == Some(
                (
                    Ray {
                        origin: record.p,
                        direction: if Glass::reflects(*at) {
                            at.reflected
                        } else {
                            at.refracted
                        },
                    },
                    Colour::spec_white(),
                ),
            ),
            out matches Some((ray, _)) && ((Scalar { bits: ONE_BITS }).below(at.ratio_sine)
                ==> ray.direction == at.reflected),
    {
        let cannot_refract = at.ratio_sine.gt(Scalar::one());
        let will_reflect = at.reflectance.gt(at.draw);
        let direction = if cannot_refract || will_reflect {
            at.reflected
        } else {
            at.refracted
        };
        Some((Ray::new(record.p, direction), Colour::white()))
    }
}

} // verus!
