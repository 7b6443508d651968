//! Rays.

use vstd::prelude::*;
use crate::point::Point;
use crate::vector::Vector;

verus! {

/// A half-line: where it starts and which way it goes. The direction need
/// not have length one.
#[derive(Clone, Copy, Debug, PartialEq, Eq)]
pub struct Ray {
    pub origin: Point,
    pub direction: Vector,
}

impl Ray {
    pub fn new(origin: Point, direction: Vector) -> (ray: Ray)
        ensures
            ray.origin == origin,
            ray.direction == direction,
    {
        Ray { origin, direction }
    }
}

} // verus!
