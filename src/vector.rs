use vstd::prelude::*;

use crate::binary32::{Binary32, ONE_BITS};

verus! {

/// A triple of binary32 values: a point, a direction or an RGB color.
#[derive(Clone, Copy, Debug)]
pub struct Vector3 {
    pub x: Binary32,
    pub y: Binary32,
    pub z: Binary32,
}

/// A candidate point of a rejection sampler is kept unless its squared
/// length exceeds one.
pub open spec fn kept_sample(length_sq: Binary32) -> bool {
    !Binary32 { bits: ONE_BITS }.spec_lt(length_sq)
}

impl Vector3 {
    pub fn new(x: Binary32, y: Binary32, z: Binary32) -> (r: Vector3)
        ensures
            r == (Vector3 { x, y, z }),
    {
        Vector3 { x, y, z }
    }

    /// Rejection rule of the unit-ball and unit-disk samplers.
    pub fn within_unit(length_sq: Binary32) -> (r: bool)
        ensures
            r == kept_sample(length_sq),
    {
        !Binary32::one().lt(&length_sq)
    }

    /// The vector with all three components equal to `c`.
    pub fn splat(c: Binary32) -> (r: Vector3)
        ensures
            r == (Vector3 { x: c, y: c, z: c }),
    {
        Vector3 { x: c, y: c, z: c }
    }
}

} // verus!
