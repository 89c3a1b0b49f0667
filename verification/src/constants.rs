//! The default configuration, in per-second fixed point.

use vstd::prelude::*;
use crate::fixed_point::{scale, trunc_div, Fixed};

verus! {

/// Seconds in a year of 365.25 days.
pub const SECONDS_PER_YEAR: i64 = 31_557_600;

/// Default curve steepness.
pub const CURVE_STEEPNESS: i64 = 4;

/// The number of seconds in a year.
pub open spec fn seconds_per_year() -> int {
    SECONDS_PER_YEAR as int
}

/// An annual quantity brought to one second: `x / 31_557_600`, rounded
/// toward zero.
pub open spec fn per_second_raw(x: int) -> int {
    trunc_div(x, seconds_per_year())
}

/// An annual quantity brought to one second.
pub fn annual_to_per_second(annual: Fixed) -> (r: Fixed)
    ensures
        r@ == per_second_raw(annual@),
{
    annual.div_whole(SECONDS_PER_YEAR)
}

/// Default initial rate at target: 4 % per year, the nearest fixed-point
/// number to 0.04 brought to one second.
pub fn initial_rate_at_target() -> (r: Fixed)
    ensures
        r@ == per_second_raw(11_258_999_068_426),
        r@ == 356_776,
{
    annual_to_per_second(Fixed { bits: 11_258_999_068_426 })
}

/// Default adjustment speed: 50 % per year, brought to one second.
pub fn adjustment_speed() -> (r: Fixed)
    ensures
        r@ == per_second_raw(scale() / 2),
        r@ == 4_459_701,
{
    annual_to_per_second(Fixed { bits: 140_737_488_355_328 })
}

/// Default target utilization: the nearest fixed-point number to 0.9.
pub fn target_utilization() -> (r: Fixed)
    ensures
        r@ == 253_327_479_039_590,
{
    Fixed { bits: 253_327_479_039_590 }
}

/// Default lower bound of the rate at target: 0.1 % per year, the nearest
/// fixed-point number to 0.001 brought to one second.
pub fn min_rate_at_target() -> (r: Fixed)
    ensures
        r@ == per_second_raw(281_474_976_711),
        r@ == 8_919,
{
    annual_to_per_second(Fixed { bits: 281_474_976_711 })
}

/// Default upper bound of the rate at target: 200 % per year, brought to
/// one second.
pub fn max_rate_at_target() -> (r: Fixed)
    ensures
        r@ == per_second_raw(2 * scale()),
        r@ == 17_838_807,
{
    annual_to_per_second(Fixed::from_int(2))
}

} // verus!
