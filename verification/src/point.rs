//! The records a point is stored in.

use vstd::prelude::*;
use crate::bits::{guard, guarded, is_finite, ZERO};

verus! {

/// A point as the scalar and the device backend store it: three coordinates,
/// each a single-precision bit pattern.
#[derive(Clone, Copy, Debug, PartialEq, Eq, Structural)]
pub struct Point {
    pub x: u32,
    pub y: u32,
    pub z: u32,
}

/// A point as the vector backend stores it: three coordinates and a fourth
/// lane that is always positive zero, which keeps records aligned.
#[derive(Clone, Copy, Debug, PartialEq, Eq, Structural)]
pub struct PaddedPoint {
    pub x: u32,
    pub y: u32,
    pub z: u32,
    pub pad: u32,
}

impl Point {
    /// Every coordinate is a finite number.
    pub open spec fn clean(self) -> bool {
        is_finite(self.x) && is_finite(self.y) && is_finite(self.z)
    }

    /// The record that stores the three coordinates: each one guarded.
    pub open spec fn stored(x: u32, y: u32, z: u32) -> Point {
        Point { x: guarded(x), y: guarded(y), z: guarded(z) }
    }

    /// Stores three coordinates, replacing what is not finite by zero.
    pub fn store(x: u32, y: u32, z: u32) -> (p: Point)
        ensures
            p == Point::stored(x, y, z),
            p.clean(),
    {
        Point { x: guard(x), y: guard(y), z: guard(z) }
    }
}

impl PaddedPoint {
    /// Every coordinate is a finite number and the padding lane is zero.
    pub open spec fn clean(self) -> bool {
        is_finite(self.x) && is_finite(self.y) && is_finite(self.z) && self.pad == ZERO
    }

    /// The record that packs the three coordinates: each one guarded, and
    /// zero in the padding lane.
    pub open spec fn packed(x: u32, y: u32, z: u32) -> PaddedPoint {
        PaddedPoint { x: guarded(x), y: guarded(y), z: guarded(z), pad: ZERO }
    }

    /// Packs three coordinates, replacing what is not finite by zero.
    pub fn pack(x: u32, y: u32, z: u32) -> (p: PaddedPoint)
        ensures
            p == PaddedPoint::packed(x, y, z),
            p.clean(),
    {
        PaddedPoint { x: guard(x), y: guard(y), z: guard(z), pad: ZERO }
    }
}

/// A record of finite coordinates is stored as it is, and storing what was
/// stored changes nothing.
pub proof fn lemma_store_keeps_clean(x: u32, y: u32, z: u32)
    ensures
        is_finite(x) && is_finite(y) && is_finite(z) ==> Point::stored(x, y, z) == (Point {
            x,
            y,
            z,
        }),
        Point::stored(guarded(x), guarded(y), guarded(z)) == Point::stored(x, y, z),
        PaddedPoint::packed(guarded(x), guarded(y), guarded(z)) == PaddedPoint::packed(x, y, z),
{
}

} // verus!
