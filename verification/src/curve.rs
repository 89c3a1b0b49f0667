//! Projection of a rate at target onto the rate that is applied.
//!
//! The applied rate follows a line through the rate at target whose slope is
//! steeper above the target utilization than below it. The result is not
//! held to the bounds of the rate at target.

use vstd::prelude::*;
use crate::arith::{lemma_mul_raw_zero, lemma_mul_whole};
use crate::error::RateError;
use crate::evolution::raw;
use crate::fixed_point::{div_raw, mul_raw, representable, scale, Fixed};

verus! {

/// The slope of the curve: `1 - 1/steepness` below target, `steepness - 1`
/// at or above it.
pub open spec fn curve_coefficient_raw(err: int, curve_steepness: int) -> int {
    if err < 0 {
        scale() - div_raw(scale(), curve_steepness)
    } else {
        curve_steepness - scale()
    }
}

/// The applied rate: `(coefficient * err + 1) * rate_at_target`.
pub open spec fn curve_raw(rate_at_target: int, err: int, curve_steepness: int) -> int {
    mul_raw(mul_raw(curve_coefficient_raw(err, curve_steepness), err) + scale(), rate_at_target)
}

/// Whether every step of the projection is representable.
pub open spec fn curve_fits(rate_at_target: int, err: int, curve_steepness: int) -> bool {
    let coefficient = curve_coefficient_raw(err, curve_steepness);
    &&& err < 0 ==> representable(div_raw(scale(), curve_steepness))
    &&& representable(coefficient)
    &&& representable(mul_raw(coefficient, err))
    &&& representable(mul_raw(coefficient, err) + scale())
    &&& representable(curve_raw(rate_at_target, err, curve_steepness))
}

/// The rate applied at utilization error `err`, given the rate at target.
///
/// Fails with `DivisionByZero` exactly when the error is negative and the
/// steepness zero, and with `Overflow` exactly when that is not so and some
/// step is unrepresentable. At zero error the rate is returned unchanged.
pub fn curve(rate_at_target: Fixed, err: Fixed, curve_steepness: Fixed) -> (r: Result<
    Fixed,
    RateError,
>)
    ensures
        err@ < 0 && curve_steepness@ == 0 ==> r == Err::<Fixed, RateError>(
            RateError::DivisionByZero,
        ),
        !(err@ < 0 && curve_steepness@ == 0) && !curve_fits(
            rate_at_target@,
            err@,
            curve_steepness@,
        ) ==> r == Err::<Fixed, RateError>(RateError::Overflow),
        !(err@ < 0 && curve_steepness@ == 0) && curve_fits(
            rate_at_target@,
            err@,
            curve_steepness@,
        ) ==> r == Ok::<Fixed, RateError>(raw(curve_raw(rate_at_target@, err@, curve_steepness@))),
        err@ == 0 && representable(curve_steepness@ - scale()) ==> r == Ok::<Fixed, RateError>(
            rate_at_target,
        ),
{
    let coefficient = if err.bits < 0 {
        let reciprocal = Fixed::one().checked_div(curve_steepness)?;
        Fixed::one().checked_sub(reciprocal)?
    } else {
        curve_steepness.checked_sub(Fixed::one())?
    };
    proof {
        if err@ == 0 {
            lemma_mul_raw_zero(coefficient@);
            lemma_mul_whole(rate_at_target@, 1);
        }
    }
    let slope = coefficient.checked_mul(err)?;
    let factor = slope.checked_add(Fixed::one())?;
    factor.checked_mul(rate_at_target)
}

} // verus!
