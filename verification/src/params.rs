//! The configuration of the rate controller and the market record.

use vstd::prelude::*;
use crate::error::RateError;
use crate::fixed_point::{scale, Fixed};

verus! {

/// The control parameters of one calculation, all per second.
#[derive(Debug, Clone, Copy, PartialEq, Eq, Structural)]
pub struct ParameterSet {
    /// How sharply the applied rate leaves the rate at target; dimensionless.
    pub curve_steepness: Fixed,
    /// How fast the rate at target adapts, per second.
    pub adjustment_speed: Fixed,
    /// The utilization the controller steers toward, as a ratio.
    pub target_utilization: Fixed,
    /// Lower bound of the rate at target, per second.
    pub min_rate: Fixed,
    /// Upper bound of the rate at target, per second.
    pub max_rate: Fixed,
}

/// Whether a steepness and a target can be used as divisors: the target is
/// neither zero nor one and the steepness is not zero.
pub open spec fn usable(curve_steepness: int, target_utilization: int) -> bool {
    &&& target_utilization != 0
    &&& target_utilization != scale()
    &&& curve_steepness != 0
}

impl ParameterSet {
    /// Whether this set passes validation.
    pub open spec fn valid(&self) -> bool {
        usable(self.curve_steepness@, self.target_utilization@)
    }

    /// Whether this set lies in the intended domain: it is valid, the target
    /// lies strictly between zero and one, the adjustment speed is positive
    /// and the bounds satisfy `0 <= min_rate <= max_rate`.
    pub open spec fn well_formed(&self) -> bool {
        &&& self.valid()
        &&& 0 < self.target_utilization@ < scale()
        &&& self.adjustment_speed@ > 0
        &&& 0 <= self.min_rate@ <= self.max_rate@
    }

    /// Bundles the five parameters, or reports `InvalidConfiguration` when
    /// the target utilization is zero or one or the steepness is zero.
    pub fn new(
        curve_steepness: Fixed,
        adjustment_speed: Fixed,
        target_utilization: Fixed,
        min_rate: Fixed,
        max_rate: Fixed,
    ) -> (r: Result<ParameterSet, RateError>)
        ensures
            usable(curve_steepness@, target_utilization@) ==> r == Ok::<ParameterSet, RateError>(
                (ParameterSet {
                    curve_steepness,
                    adjustment_speed,
                    target_utilization,
                    min_rate,
                    max_rate,
                }),
            ),
            !usable(curve_steepness@, target_utilization@) ==> r == Err::<ParameterSet, RateError>(
                RateError::InvalidConfiguration,
            ),
    {
        let p = ParameterSet {
            curve_steepness,
            adjustment_speed,
            target_utilization,
            min_rate,
            max_rate,
        };
        if p.is_valid() {
            Ok(p)
        } else {
            Err(RateError::InvalidConfiguration)
        }
    }

    /// Tests [`ParameterSet::valid`].
    pub fn is_valid(&self) -> (r: bool)
        ensures
            r == self.valid(),
    {
        self.target_utilization.bits != 0 && self.target_utilization.bits != 0x1_0000_0000_0000
            && self.curve_steepness.bits != 0
    }
}

/// The stored state of one market. No calculation reads it: each call is
/// given its utilization and starting rate directly.
#[derive(Debug, Clone, Copy, PartialEq, Eq, Structural)]
pub struct Market {
    /// Total assets supplied.
    pub total_supply_assets: Fixed,
    /// Total assets borrowed.
    pub total_borrow_assets: Fixed,
    /// Time of the last update, in seconds.
    pub last_update: u64,
}

} // verus!
