//! Directions and positions in space. The library carries them and looks at
//! their signs and sizes; it does not add or scale them.

use vstd::prelude::*;
use crate::colour::Colour;
use crate::scalar::{Scalar, ONE_BITS};

verus! {

/// Bits of `1e-8`, below which a component counts as zero.
pub const NEAR_ZERO_BITS: u64 = 0x3E45_798E_E230_8C3A;

/// A displacement or direction: three components.
#[derive(Clone, Copy, Debug, PartialEq, Eq)]
pub struct Vector {
    pub xyz: [Scalar; 3],
}

impl Vector {
    pub open spec fn spec_x(self) -> Scalar {
        self.xyz[0]
    }

    pub open spec fn spec_y(self) -> Scalar {
        self.xyz[1]
    }

    pub open spec fn spec_z(self) -> Scalar {
        self.xyz[2]
    }

    /// Every component is smaller than `1e-8` in absolute value. A NaN
    /// component is not.
    pub open spec fn spec_near_zero(self) -> bool {
        &&& self.xyz[0].absolute().below(Scalar { bits: NEAR_ZERO_BITS })
        &&& self.xyz[1].absolute().below(Scalar { bits: NEAR_ZERO_BITS })
        &&& self.xyz[2].absolute().below(Scalar { bits: NEAR_ZERO_BITS })
    }

    /// Each component with the other sign.
    pub open spec fn negated(self) -> Vector {
        Vector { xyz: [self.xyz[0].negated(), self.xyz[1].negated(), self.xyz[2].negated()] }
    }

    pub fn new(x: Scalar, y: Scalar, z: Scalar) -> (v: Vector)
        ensures
            v == (Vector { xyz: [x, y, z] }),
            v.spec_x() == x,
            v.spec_y() == y,
            v.spec_z() == z,
    {
        let v = Vector { xyz: [x, y, z] };
        assert(v.xyz =~= [x, y, z]);
        v
    }

    pub fn to_colour(self) -> (c: Colour)
        ensures
            c == (Colour { r: self.spec_x(), g: self.spec_y(), b: self.spec_z() }),
    {
        Colour { r: self.x(), g: self.y(), b: self.z() }
    }

    #[verifier::when_used_as_spec(spec_x)]
    pub fn x(self) -> (s: Scalar)
        ensures
            s == self.spec_x(),
    {
        self.xyz[0]
    }

    #[verifier::when_used_as_spec(spec_y)]
    pub fn y(self) -> (s: Scalar)
        ensures
            s == self.spec_y(),
    {
        self.xyz[1]
    }

    #[verifier::when_used_as_spec(spec_z)]
    pub fn z(self) -> (s: Scalar)
        ensures
            s == self.spec_z(),
    {
        self.xyz[2]
    }

    #[verifier::when_used_as_spec(spec_near_zero)]
    pub fn near_zero(self) -> (r: bool)
        ensures
            r == self.spec_near_zero(),
    {
        let limit = Scalar::from_bits(NEAR_ZERO_BITS);
        self.xyz[0].abs().lt(limit) && self.xyz[1].abs().lt(limit) && self.xyz[2].abs().lt(limit)
    }

    /// `-self`.
    pub fn neg(self) -> (v: Vector)
        ensures
            v == self.negated(),
            v.spec_near_zero() == self.spec_near_zero(),
    {
        let v = Vector { xyz: [self.xyz[0].neg(), self.xyz[1].neg(), self.xyz[2].neg()] };
        assert(v.xyz =~= self.negated().xyz);
        v
    }
}

/// A point drawn at random is taken if it lies inside the unit ball, or the
/// unit disk: if its length, or the square of its length, is below 1. A
/// length that is NaN is not.
pub fn inside_unit(length: Scalar) -> (r: bool)
    ensures
        r == length.below(Scalar { bits: ONE_BITS }),
{
    length.lt(Scalar::one())
}

} // verus!
