//! The failures a rate calculation can report.

use vstd::prelude::*;

verus! {

/// Why a calculation did not produce a rate.
#[derive(Debug, Clone, Copy, PartialEq, Eq, Structural)]
pub enum RateError {
    /// The configuration cannot be used: the target utilization is zero or
    /// one, the curve steepness is zero, or the elapsed time is negative.
    InvalidConfiguration,
    /// A fixed-point result lies outside the representable range.
    Overflow,
    /// A fixed-point division had a zero divisor.
    DivisionByZero,
}

} // verus!
