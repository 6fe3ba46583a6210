//! The vector backend: points are produced in lanes of a fixed width.
//!
//! The caller draws the uniform variates of a lane and applies the
//! transcendental transforms to them; what is decided here is which sign the
//! argument of the height transform gets, what may be stored, and where in
//! the batch each point of each lane comes to lie.

use vstd::prelude::*;
use vstd::arithmetic::div_mod::{
    lemma_fundamental_div_mod,
    lemma_fundamental_div_mod_converse_div,
    lemma_fundamental_div_mod_converse_mod,
};
use rand::rngs::StdRng;
use crate::bits::{negate, negated};
use crate::config::Config;
use crate::point::PaddedPoint;
use crate::source::refill;

verus! {

/// The argument the height transform takes the sine of: the quotient of the
/// logarithm and the vertical rate, negated where the sign bit is set.
pub open spec fn selected(quotient: u32, sign: bool) -> u32 {
    if sign {
        negated(quotient)
    } else {
        quotient
    }
}

/// The lanes a batch is made of: as many as the lane width goes into the
/// point count.
pub open spec fn lanes_of(config: Config) -> int {
    config.point_count() as int / config.lane_width() as int
}

/// A coordinate stream has one lane of the configured width for every lane
/// of the batch.
pub open spec fn fits(config: Config, stream: Seq<Vec<u32>>) -> bool {
    &&& stream.len() == lanes_of(config)
    &&& forall|lane: int| 0 <= lane < stream.len() ==> (#[trigger] stream[lane]).len()
        == config.lane_width()
}

/// The record at place `index` of the batch packed from three coordinate
/// streams: lane `index / width`, position `index % width`.
pub open spec fn batch_point(
    xs: Seq<Vec<u32>>,
    ys: Seq<Vec<u32>>,
    zs: Seq<Vec<u32>>,
    width: int,
    index: int,
) -> PaddedPoint {
    let lane = index / width;
    let at = index % width;
    PaddedPoint::packed(xs[lane]@[at], ys[lane]@[at], zs[lane]@[at])
}

/// Flipping the sign bit negates the argument of the sine, whatever the
/// argument is, and flipping it back restores it.
pub proof fn lemma_sign_negates_argument(quotient: u32)
    ensures
        selected(quotient, true) == negated(selected(quotient, false)),
        selected(quotient, false) == negated(selected(quotient, true)),
{
}

/// The number of lanes in a batch.
pub fn lane_count(config: &Config) -> (n: usize)
    ensures
        n == lanes_of(*config),
        n * config.lane_width() == config.point_count(),
{
    proof {
        use_type_invariant(config);
        config.lemma_sound();
        lemma_fundamental_div_mod(config.point_count() as int, config.lane_width() as int);
    }
    config.point_count() / config.lane_width()
}

/// Gives the argument of the height transform its sign.
pub fn select(quotient: u32, sign: bool) -> (r: u32)
    ensures
        r == selected(quotient, sign),
{
    if sign {
        negate(quotient)
    } else {
        quotient
    }
}

/// Gives a lane of arguments their signs, each from the sign bit at its
/// position.
pub fn select_lane(quotients: &Vec<u32>, signs: &Vec<bool>) -> (r: Vec<u32>)
    requires
        quotients.len() == signs.len(),
    ensures
        r.len() == quotients.len(),
        forall|i: int| 0 <= i < r.len() ==> r[i] == selected(quotients[i], signs[i]),
{
    let mut r: Vec<u32> = Vec::with_capacity(quotients.len());
    let mut i: usize = 0;
    while i < quotients.len()
        invariant
            i <= quotients.len(),
            quotients.len() == signs.len(),
            r.len() == i,
            forall|k: int| 0 <= k < i ==> r[k] == selected(quotients[k], signs[k]),
        decreases quotients.len() - i,
    {
        r.push(select(quotients[i], signs[i]));
        i = i + 1;
    }
    r
}

/// Draws a fresh lane of sign bits into `signs`, overwriting what it held,
/// and gives the lane of arguments their signs from it.
pub fn sign_lane(quotients: &Vec<u32>, signs: &mut Vec<bool>, rng: &mut StdRng) -> (r: Vec<u32>)
    requires
        quotients.len() == old(signs).len(),
    ensures
        final(signs).len() == old(signs).len(),
        r.len() == quotients.len(),
        forall|i: int| 0 <= i < r.len() ==> r[i] == selected(quotients[i], final(signs)[i]),
{
    refill(signs, rng);
    select_lane(quotients, signs)
}

/// The depth coordinate is the uniform variate itself.
pub fn depth_transform(u: u32) -> (r: u32)
    ensures
        r == u,
{
    u
}

/// Packs one lane: appends to `batch` one record for every position of the
/// lane, in order, each coordinate guarded and the padding lane zero.
pub fn pack_lane(x: &Vec<u32>, y: &Vec<u32>, z: &Vec<u32>, batch: &mut Vec<PaddedPoint>)
    requires
        x.len() == y.len(),
        x.len() == z.len(),
    ensures
        final(batch).len() == old(batch).len() + x.len(),
        forall|j: int| 0 <= j < old(batch).len() ==> final(batch)[j] == old(batch)[j],
        forall|i: int|
            0 <= i < x.len() ==> #[trigger] final(batch)[old(batch).len() + i]
                == PaddedPoint::packed(x[i], y[i], z[i]),
{
    let ghost before = batch@;
    let mut i: usize = 0;
    while i < x.len()
        invariant
            i <= x.len(),
            x.len() == y.len(),
            x.len() == z.len(),
            batch.len() == before.len() + i,
            forall|j: int| 0 <= j < before.len() ==> batch[j] == before[j],
            forall|k: int|
                0 <= k < i ==> #[trigger] batch[before.len() + k] == PaddedPoint::packed(
                    x[k],
                    y[k],
                    z[k],
                ),
        decreases x.len() - i,
    {
        batch.push(PaddedPoint::pack(x[i], y[i], z[i]));
        i = i + 1;
    }
}

/// Packs a whole batch from its three coordinate streams. Point `index` of
/// the batch comes from position `index % width` of lane `index / width`;
/// every stored coordinate is finite.
pub fn run(config: &Config, xs: &Vec<Vec<u32>>, ys: &Vec<Vec<u32>>, zs: &Vec<Vec<u32>>) -> (batch:
    Vec<PaddedPoint>)
    requires
        fits(*config, xs@),
        fits(*config, ys@),
        fits(*config, zs@),
    ensures
        batch.len() == config.point_count(),
        forall|j: int|
            0 <= j < batch.len() ==> batch[j] == batch_point(
                xs@,
                ys@,
                zs@,
                config.lane_width() as int,
                j,
            ),
        forall|j: int| 0 <= j < batch.len() ==> (#[trigger] batch[j]).clean(),
{
    let lanes: usize = lane_count(config);
    let ghost width = config.lane_width() as int;
    proof {
        use_type_invariant(config);
        config.lemma_sound();
    }
    let mut batch: Vec<PaddedPoint> = Vec::new();
    let mut lane: usize = 0;
    while lane < lanes
        invariant
            lane <= lanes,
            lanes == lanes_of(*config),
            width == config.lane_width(),
            width > 0,
            lanes * width == config.point_count(),
            fits(*config, xs@),
            fits(*config, ys@),
            fits(*config, zs@),
            batch.len() == lane * width,
            forall|j: int|
                0 <= j < batch.len() ==> batch[j] == batch_point(xs@, ys@, zs@, width, j),
        decreases lanes - lane,
    {
        let ghost before = batch@;
        pack_lane(&xs[lane], &ys[lane], &zs[lane], &mut batch);
        proof {
            assert((lane + 1) * width == lane * width + width) by (nonlinear_arith);
            assert forall|j: int| 0 <= j < batch.len() implies batch[j] == batch_point(
                xs@,
                ys@,
                zs@,
                width,
                j,
            ) by {
                if j >= before.len() {
                    let at = j - before.len();
                    lemma_fundamental_div_mod_converse_div(j, width, lane as int, at);
                    lemma_fundamental_div_mod_converse_mod(j, width, lane as int, at);
                    assert(batch[before.len() + at] == PaddedPoint::packed(
                        xs[lane as int]@[at],
                        ys[lane as int]@[at],
                        zs[lane as int]@[at],
                    ));
                }
            }
        }
        lane = lane + 1;
    }
    batch
}

} // verus!
