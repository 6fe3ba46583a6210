//! The scalar backend: one point at a time.
//!
//! The caller draws the radial sample, the magnitude of the height and the
//! depth of every point; the sign of the height is drawn here, one fair bit
//! for every point.

use vstd::prelude::*;
use rand::rngs::StdRng;
use crate::bits::{negate, negated};
use crate::config::Config;
use crate::point::Point;
use crate::source::next_sign;

verus! {

/// The height with its sign: the magnitude itself where the bit is set, its
/// negation where it is not.
pub open spec fn signed(magnitude: u32, keep: bool) -> u32 {
    if keep {
        magnitude
    } else {
        negated(magnitude)
    }
}

/// The point is what was drawn for it, guarded, with the height under one of
/// the two signs.
pub open spec fn sampled(
    point: Point,
    radial: u32,
    magnitude: u32,
    depth: u32,
) -> bool {
    ||| point == Point::stored(radial, magnitude, depth)
    ||| point == Point::stored(radial, negated(magnitude), depth)
}

/// Gives a height its sign.
pub fn sign_height(magnitude: u32, keep: bool) -> (height: u32)
    ensures
        height == signed(magnitude, keep),
{
    if keep {
        magnitude
    } else {
        negate(magnitude)
    }
}

/// The height of one point: the magnitude under a sign drawn from `rng`.
pub fn get_point_height(magnitude: u32, rng: &mut StdRng) -> (height: u32)
    ensures
        height == magnitude || height == negated(magnitude),
{
    let keep: bool = next_sign(rng);
    sign_height(magnitude, keep)
}

/// Produces a batch point by point from what was drawn for each: the radial
/// sample, the height under a freshly drawn sign, and the depth, each
/// guarded before it is stored.
pub fn run(
    config: &Config,
    radials: &Vec<u32>,
    magnitudes: &Vec<u32>,
    depths: &Vec<u32>,
    rng: &mut StdRng,
) -> (batch: Vec<Point>)
    requires
        radials.len() == config.point_count(),
        magnitudes.len() == config.point_count(),
        depths.len() == config.point_count(),
    ensures
        batch.len() == config.point_count(),
        forall|i: int|
            0 <= i < batch.len() ==> sampled(
                #[trigger] batch[i],
                radials[i],
                magnitudes[i],
                depths[i],
            ),
        forall|i: int| 0 <= i < batch.len() ==> (#[trigger] batch[i]).clean(),
{
    let count: usize = config.point_count();
    let mut batch: Vec<Point> = Vec::with_capacity(count);
    let mut n: usize = 0;
    while n < count
        invariant
            n <= count,
            count == radials.len(),
            count == magnitudes.len(),
            count == depths.len(),
            batch.len() == n,
            forall|i: int|
                0 <= i < n ==> sampled(#[trigger] batch[i], radials[i], magnitudes[i], depths[i]),
            forall|i: int| 0 <= i < n ==> (#[trigger] batch[i]).clean(),
        decreases count - n,
    {
        let height: u32 = get_point_height(magnitudes[n], rng);
        batch.push(Point::store(radials[n], height, depths[n]));
        n = n + 1;
    }
    batch
}

} // verus!
