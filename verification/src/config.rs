//! The settings every backend is started with, and the check that rejects a
//! bad set before any point is sampled.

use vstd::prelude::*;
use crate::bits::{is_positive, positive};

verus! {

/// Coordinates per point.
pub const COORDINATES: usize = 3;

/// Bytes per stored coordinate.
pub const COORDINATE_BYTES: usize = 4;

/// Bytes per stored point.
pub const POINT_BYTES: usize = 12;

/// Why a set of settings was turned down.
#[derive(Clone, Copy, Debug, PartialEq, Eq, Structural)]
pub enum ConfigError {
    /// The radial rate is zero, negative or a NaN.
    RadialRateNotPositive,
    /// The vertical rate is zero, negative or a NaN.
    VerticalRateNotPositive,
    /// No point was asked for.
    NoPoints,
    /// The lane width is zero.
    NoLanes,
    /// The lane width does not divide the point count.
    UnevenLanes,
    /// The seed group size is zero.
    NoGroups,
    /// One batch of this many points cannot be addressed in memory.
    TooManyPoints,
}

/// The first fault of a set of settings, in the order in which they are
/// looked at, or `None` when the set is sound.
pub open spec fn first_fault(
    radial_rate: u32,
    vertical_rate: u32,
    point_count: usize,
    lane_width: usize,
    group_size: usize,
) -> Option<ConfigError> {
    if !is_positive(radial_rate) {
        Some(ConfigError::RadialRateNotPositive)
    } else if !is_positive(vertical_rate) {
        Some(ConfigError::VerticalRateNotPositive)
    } else if point_count == 0 {
        Some(ConfigError::NoPoints)
    } else if lane_width == 0 {
        Some(ConfigError::NoLanes)
    } else if point_count % lane_width != 0 {
        Some(ConfigError::UnevenLanes)
    } else if group_size == 0 {
        Some(ConfigError::NoGroups)
    } else if point_count * POINT_BYTES > usize::MAX {
        Some(ConfigError::TooManyPoints)
    } else {
        None
    }
}

/// What makes a set of settings sound.
pub open spec fn sound(
    radial_rate: u32,
    vertical_rate: u32,
    point_count: usize,
    lane_width: usize,
    group_size: usize,
) -> bool {
    &&& is_positive(radial_rate)
    &&& is_positive(vertical_rate)
    &&& point_count > 0
    &&& lane_width > 0
    &&& point_count % lane_width == 0
    &&& group_size > 0
    &&& point_count * POINT_BYTES <= usize::MAX
}

/// A sound set of settings. The two rates are single-precision bit patterns.
#[derive(Clone, Copy, Debug)]
pub struct Config {
    radial_rate: u32,
    vertical_rate: u32,
    point_count: usize,
    lane_width: usize,
    group_size: usize,
    iterations: usize,
}

impl Config {
    /// The settings are sound. Every `Config` that exists at run time is.
    #[verifier::type_invariant]
    pub closed spec fn wf(&self) -> bool {
        sound(
            self.radial_rate,
            self.vertical_rate,
            self.point_count,
            self.lane_width,
            self.group_size,
        )
    }

    /// What soundness says of the settings.
    pub proof fn lemma_sound(&self)
        requires
            self.wf(),
        ensures
            sound(
                self.radial_rate(),
                self.vertical_rate(),
                self.point_count(),
                self.lane_width(),
                self.group_size(),
            ),
    {
    }

    pub closed spec fn spec_radial_rate(&self) -> u32 {
        self.radial_rate
    }

    pub closed spec fn spec_vertical_rate(&self) -> u32 {
        self.vertical_rate
    }

    pub closed spec fn spec_point_count(&self) -> usize {
        self.point_count
    }

    pub closed spec fn spec_lane_width(&self) -> usize {
        self.lane_width
    }

    pub closed spec fn spec_group_size(&self) -> usize {
        self.group_size
    }

    pub closed spec fn spec_iterations(&self) -> usize {
        self.iterations
    }

    /// Checks a set of settings and keeps it if it is sound. Otherwise the
    /// first fault found is returned, rates before counts.
    pub fn new(
        radial_rate: u32,
        vertical_rate: u32,
        point_count: usize,
        lane_width: usize,
        group_size: usize,
        iterations: usize,
    ) -> (r: Result<Config, ConfigError>)
        ensures
            r is Ok <==> sound(radial_rate, vertical_rate, point_count, lane_width, group_size),
            r matches Ok(c) ==> {
                &&& c.wf()
                &&& c.radial_rate() == radial_rate
                &&& c.vertical_rate() == vertical_rate
                &&& c.point_count() == point_count
                &&& c.lane_width() == lane_width
                &&& c.group_size() == group_size
                &&& c.iterations() == iterations
            },
            r matches Err(e) ==> first_fault(
                radial_rate,
                vertical_rate,
                point_count,
                lane_width,
                group_size,
            ) == Some(e),
    {
        if !positive(radial_rate) {
            return Err(ConfigError::RadialRateNotPositive);
        }
        if !positive(vertical_rate) {
            return Err(ConfigError::VerticalRateNotPositive);
        }
        if point_count == 0 {
            return Err(ConfigError::NoPoints);
        }
        if lane_width == 0 {
            return Err(ConfigError::NoLanes);
        }
        if point_count % lane_width != 0 {
            return Err(ConfigError::UnevenLanes);
        }
        if group_size == 0 {
            return Err(ConfigError::NoGroups);
        }
        if point_count > usize::MAX / POINT_BYTES {
            return Err(ConfigError::TooManyPoints);
        }
        Ok(Config { radial_rate, vertical_rate, point_count, lane_width, group_size, iterations })
    }

    /// The radial rate, as a bit pattern.
    #[verifier::when_used_as_spec(spec_radial_rate)]
    pub fn radial_rate(&self) -> (r: u32)
        ensures
            r == self.radial_rate(),
    {
        self.radial_rate
    }

    /// The vertical rate, as a bit pattern.
    #[verifier::when_used_as_spec(spec_vertical_rate)]
    pub fn vertical_rate(&self) -> (r: u32)
        ensures
            r == self.vertical_rate(),
    {
        self.vertical_rate
    }

    /// The number of points in one batch.
    #[verifier::when_used_as_spec(spec_point_count)]
    pub fn point_count(&self) -> (r: usize)
        ensures
            r == self.point_count(),
    {
        self.point_count
    }

    /// The number of points the vector backend handles in one step.
    #[verifier::when_used_as_spec(spec_lane_width)]
    pub fn lane_width(&self) -> (r: usize)
        ensures
            r == self.lane_width(),
    {
        self.lane_width
    }

    /// The number of points that share one device seed.
    #[verifier::when_used_as_spec(spec_group_size)]
    pub fn group_size(&self) -> (r: usize)
        ensures
            r == self.group_size(),
    {
        self.group_size
    }

    /// The number of batches the device pipeline writes.
    #[verifier::when_used_as_spec(spec_iterations)]
    pub fn iterations(&self) -> (r: usize)
        ensures
            r == self.iterations(),
    {
        self.iterations
    }
}

/// A set of settings has a fault exactly when it is not sound.
pub proof fn lemma_fault_iff_unsound(
    radial_rate: u32,
    vertical_rate: u32,
    point_count: usize,
    lane_width: usize,
    group_size: usize,
)
    ensures
        first_fault(radial_rate, vertical_rate, point_count, lane_width, group_size) is None
            <==> sound(radial_rate, vertical_rate, point_count, lane_width, group_size),
{
}

} // verus!
