//! Positions in space.

use vstd::prelude::*;
use crate::scalar::Scalar;
use crate::vector::Vector;

verus! {

/// A position: the displacement from the origin that leads to it.
#[derive(Clone, Copy, Debug, PartialEq, Eq)]
pub struct Point {
    pub v: Vector,
}

impl Point {
    pub open spec fn spec_x(&self) -> Scalar {
        self.v.xyz[0]
    }

    pub open spec fn spec_y(&self) -> Scalar {
        self.v.xyz[1]
    }

    pub open spec fn spec_z(&self) -> Scalar {
        self.v.xyz[2]
    }

    pub fn new(x: Scalar, y: Scalar, z: Scalar) -> (p: Point)
        ensures
            p == (Point { v: Vector { xyz: [x, y, z] } }),
            p.spec_x() == x,
            p.spec_y() == y,
            p.spec_z() == z,
    {
        Point { v: Vector::new(x, y, z) }
    }

    #[verifier::when_used_as_spec(spec_x)]
    pub fn x(&self) -> (s: Scalar)
        ensures
            s == self.spec_x(),
    {
        self.v.xyz[0]
    }

    #[verifier::when_used_as_spec(spec_y)]
    pub fn y(&self) -> (s: Scalar)
        ensures
            s == self.spec_y(),
    {
        self.v.xyz[1]
    }

    #[verifier::when_used_as_spec(spec_z)]
    pub fn z(&self) -> (s: Scalar)
        ensures
            s == self.spec_z(),
    {
        self.v.xyz[2]
    }
}

} // verus!
