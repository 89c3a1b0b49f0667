//! Evolution of the rate at target utilization over an interval.
//!
//! The rate at target grows by the factor `e^x`, where the exponent `x` is
//! the adjustment speed times the utilization error times the elapsed time.
//! Exponentials are not computed here: [`growth_exponents`] says at which two
//! exponents they are needed, and [`target_rate_evolution`] takes the two
//! factors and does the rest.

use vstd::prelude::*;
use crate::arith::{lemma_mul_whole, lemma_trunc_div_between};
use crate::error::RateError;
use crate::fixed_point::{clamp_raw, div_raw, mul_raw, representable, scale, trunc_div, Fixed};
use crate::params::ParameterSet;

verus! {

/// The fixed-point number with raw integer `x`.
pub open spec fn raw(x: int) -> Fixed {
    Fixed { bits: x as i128 }
}

/// What the deviation from target is measured against: the room above the
/// target when utilization exceeds it, the target itself otherwise.
pub open spec fn norm_factor(utilization: int, target: int) -> int {
    if utilization > target {
        scale() - target
    } else {
        target
    }
}

/// The utilization error: the deviation from target over its norm factor.
pub open spec fn error_term(utilization: int, target: int) -> int {
    div_raw(utilization - target, norm_factor(utilization, target))
}

/// Whether every step toward the utilization error is representable.
pub open spec fn error_fits(utilization: int, target: int) -> bool {
    &&& representable(norm_factor(utilization, target))
    &&& representable(utilization - target)
    &&& representable(error_term(utilization, target))
}

/// The linear adaptation: speed times error, times the elapsed seconds.
pub open spec fn linear_adaptation_raw(adjustment_speed: int, err: int, elapsed: int) -> int {
    mul_raw(adjustment_speed, err) * elapsed
}

/// Whether every step toward the linear adaptation is representable.
pub open spec fn adaptation_fits(adjustment_speed: int, err: int, elapsed: int) -> bool {
    &&& representable(mul_raw(adjustment_speed, err))
    &&& representable(linear_adaptation_raw(adjustment_speed, err, elapsed))
}

/// The largest exponent handed out: fifty.
pub open spec fn exponent_limit() -> int {
    50 * scale()
}

/// An exponent held to `[-50, 50]`.
pub open spec fn clamp_exponent_raw(x: int) -> int {
    clamp_raw(x, -exponent_limit(), exponent_limit())
}

/// The least whole number above `e^50`: no exponential of an exponent held
/// to `[-50, 50]` exceeds it.
pub open spec fn growth_limit() -> int {
    5_184_705_528_587_072_464_088 * scale()
}

/// A grown rate: the start rate times the growth factor, held to the bounds.
pub open spec fn new_rate_raw(start: int, growth: int, min_rate: int, max_rate: int) -> int {
    clamp_raw(mul_raw(start, growth), min_rate, max_rate)
}

/// The average of the start, end and midpoint rates with weights 1, 1, 2.
pub open spec fn average_raw(start: int, end: int, mid: int) -> int {
    trunc_div(start + end + 2 * mid, 4)
}

/// Whether an evolution can be attempted: the parameters are valid and the
/// elapsed time is not negative.
pub open spec fn attemptable(elapsed: int, params: ParameterSet) -> bool {
    params.valid() && elapsed >= 0
}

/// Whether every step toward the two exponents is representable.
pub open spec fn exponents_fit(start: int, elapsed: int, utilization: int, params: ParameterSet) -> bool {
    let err = error_term(utilization, params.target_utilization@);
    &&& error_fits(utilization, params.target_utilization@)
    &&& start != 0 ==> adaptation_fits(params.adjustment_speed@, err, elapsed)
}

/// The exponent of the growth over the whole interval.
pub open spec fn end_exponent_raw(start: int, elapsed: int, utilization: int, params: ParameterSet) -> int {
    let err = error_term(utilization, params.target_utilization@);
    if start == 0 {
        0
    } else {
        clamp_exponent_raw(linear_adaptation_raw(params.adjustment_speed@, err, elapsed))
    }
}

/// The exponent of the growth over half the interval.
pub open spec fn mid_exponent_raw(start: int, elapsed: int, utilization: int, params: ParameterSet) -> int {
    let err = error_term(utilization, params.target_utilization@);
    if start == 0 {
        0
    } else {
        clamp_exponent_raw(trunc_div(linear_adaptation_raw(params.adjustment_speed@, err, elapsed), 2))
    }
}

/// The rate at target at the end of the interval.
pub open spec fn end_rate_raw(start: int, end_growth: int, params: ParameterSet) -> int {
    if start == 0 {
        0
    } else {
        new_rate_raw(start, end_growth, params.min_rate@, params.max_rate@)
    }
}

/// The rate at target halfway through the interval.
pub open spec fn mid_rate_raw(start: int, mid_growth: int, params: ParameterSet) -> int {
    new_rate_raw(start, mid_growth, params.min_rate@, params.max_rate@)
}

/// The average rate at target over the interval.
pub open spec fn avg_rate_raw(start: int, end_growth: int, mid_growth: int, params: ParameterSet) -> int {
    if start == 0 {
        0
    } else {
        average_raw(start, end_rate_raw(start, end_growth, params), mid_rate_raw(start, mid_growth, params))
    }
}

/// Whether every step from the growth factors to the average is
/// representable.
pub open spec fn rates_fit(start: int, end_growth: int, mid_growth: int, params: ParameterSet) -> bool {
    let end = end_rate_raw(start, end_growth, params);
    let mid = mid_rate_raw(start, mid_growth, params);
    &&& representable(mul_raw(start, end_growth))
    &&& representable(mul_raw(start, mid_growth))
    &&& representable(start + end)
    &&& representable(2 * mid)
    &&& representable(start + end + 2 * mid)
}

/// Whether every step of an evolution is representable.
pub open spec fn evolution_fits(
    start: int,
    elapsed: int,
    utilization: int,
    params: ParameterSet,
    end_growth: int,
    mid_growth: int,
) -> bool {
    &&& exponents_fit(start, elapsed, utilization, params)
    &&& start != 0 ==> rates_fit(start, end_growth, mid_growth, params)
}

/// The normalized deviation of utilization from its target.
///
/// Fails with `DivisionByZero` exactly when the norm factor is zero, and
/// with `Overflow` exactly when it is not and some step is unrepresentable.
pub fn utilization_error(utilization: Fixed, target_utilization: Fixed) -> (r: Result<
    Fixed,
    RateError,
>)
    ensures
        norm_factor(utilization@, target_utilization@) == 0 ==> r == Err::<Fixed, RateError>(
            RateError::DivisionByZero,
        ),
        norm_factor(utilization@, target_utilization@) != 0 && error_fits(
            utilization@,
            target_utilization@,
        ) ==> r == Ok::<Fixed, RateError>(raw(error_term(utilization@, target_utilization@))),
        norm_factor(utilization@, target_utilization@) != 0 && !error_fits(
            utilization@,
            target_utilization@,
        ) ==> r == Err::<Fixed, RateError>(RateError::Overflow),
{
    let norm = if utilization.bits > target_utilization.bits {
        Fixed::one().checked_sub(target_utilization)?
    } else {
        target_utilization
    };
    let deviation = utilization.checked_sub(target_utilization)?;
    deviation.checked_div(norm)
}

/// The exponent of the growth over `elapsed` seconds at the given error.
///
/// Fails with `Overflow` exactly when a step is unrepresentable.
pub fn linear_adaptation(adjustment_speed: Fixed, err: Fixed, elapsed: i64) -> (r: Result<
    Fixed,
    RateError,
>)
    ensures
        adaptation_fits(adjustment_speed@, err@, elapsed as int) ==> r == Ok::<Fixed, RateError>(
            raw(linear_adaptation_raw(adjustment_speed@, err@, elapsed as int)),
        ),
        !adaptation_fits(adjustment_speed@, err@, elapsed as int) ==> r == Err::<
            Fixed,
            RateError,
        >(RateError::Overflow),
{
    let speed = adjustment_speed.checked_mul(err)?;
    proof {
        lemma_mul_whole(speed@, elapsed as int);
    }
    speed.checked_mul(Fixed::from_int(elapsed))
}

/// Holds an exponent to `[-50, 50]`, the range in which its exponential is
/// representable.
pub fn clamp_exponent(x: Fixed) -> (r: Fixed)
    ensures
        r@ == clamp_exponent_raw(x@),
        -exponent_limit() <= r@ <= exponent_limit(),
{
    x.clamp(Fixed::from_int(-50), Fixed::from_int(50))
}

/// The two exponents at which the exponential is needed: that of the whole
/// interval and that of its first half, each held to `[-50, 50]`. Both are
/// zero when the start rate is zero.
///
/// Fails with `InvalidConfiguration` exactly when the parameters are invalid
/// or the elapsed time is negative, and with `Overflow` exactly when they
/// are not and some step is unrepresentable.
pub fn growth_exponents(
    start_rate_at_target: Fixed,
    elapsed_time_seconds: i64,
    utilization: Fixed,
    params: &ParameterSet,
) -> (r: Result<(Fixed, Fixed), RateError>)
    ensures
        !attemptable(elapsed_time_seconds as int, *params) ==> r == Err::<
            (Fixed, Fixed),
            RateError,
        >(RateError::InvalidConfiguration),
        attemptable(elapsed_time_seconds as int, *params) && !exponents_fit(
            start_rate_at_target@,
            elapsed_time_seconds as int,
            utilization@,
            *params,
        ) ==> r == Err::<(Fixed, Fixed), RateError>(RateError::Overflow),
        attemptable(elapsed_time_seconds as int, *params) && exponents_fit(
            start_rate_at_target@,
            elapsed_time_seconds as int,
            utilization@,
            *params,
        ) ==> r == Ok::<(Fixed, Fixed), RateError>(
            (
                raw(
                    end_exponent_raw(
                        start_rate_at_target@,
                        elapsed_time_seconds as int,
                        utilization@,
                        *params,
                    ),
                ),
                raw(
                    mid_exponent_raw(
                        start_rate_at_target@,
                        elapsed_time_seconds as int,
                        utilization@,
                        *params,
                    ),
                ),
            ),
        ),
{
    if !params.is_valid() || elapsed_time_seconds < 0 {
        return Err(RateError::InvalidConfiguration);
    }
    let err = utilization_error(utilization, params.target_utilization)?;
    if start_rate_at_target.bits == 0 {
        return Ok((Fixed::zero(), Fixed::zero()));
    }
    let whole = linear_adaptation(params.adjustment_speed, err, elapsed_time_seconds)?;
    let half = whole.div_whole(2);
    Ok((clamp_exponent(whole), clamp_exponent(half)))
}

/// The start rate grown by `growth` and held to `[min_rate, max_rate]`.
///
/// Fails with `Overflow` exactly when the product is unrepresentable. With
/// bounds in order every rate returned lies within them.
pub fn new_rate_at_target(
    start_rate_at_target: Fixed,
    growth: Fixed,
    min_rate: Fixed,
    max_rate: Fixed,
) -> (r: Result<Fixed, RateError>)
    ensures
        representable(mul_raw(start_rate_at_target@, growth@)) ==> r == Ok::<Fixed, RateError>(
            raw(new_rate_raw(start_rate_at_target@, growth@, min_rate@, max_rate@)),
        ),
        !representable(mul_raw(start_rate_at_target@, growth@)) ==> r == Err::<Fixed, RateError>(
            RateError::Overflow,
        ),
        min_rate@ <= max_rate@ ==> (r matches Ok(rate) ==> min_rate@ <= rate@ <= max_rate@),
{
    let grown = start_rate_at_target.checked_mul(growth)?;
    Ok(grown.clamp(min_rate, max_rate))
}

/// The average and the end of the rate at target over an interval, given
/// the growth factors `e^x` at the two exponents of [`growth_exponents`].
///
/// A zero start rate stays zero. Otherwise the end rate is the start rate
/// times `end_growth`, the midpoint rate the start rate times `mid_growth`,
/// both held to the bounds, and the average weighs start, midpoint and end
/// as 1 : 2 : 1.
///
/// Fails with `InvalidConfiguration` exactly when the parameters are invalid
/// or the elapsed time is negative, and with `Overflow` exactly when they
/// are not and some step is unrepresentable.
pub fn target_rate_evolution(
    start_rate_at_target: Fixed,
    elapsed_time_seconds: i64,
    utilization: Fixed,
    params: &ParameterSet,
    end_growth: Fixed,
    mid_growth: Fixed,
) -> (r: Result<(Fixed, Fixed), RateError>)
    ensures
        !attemptable(elapsed_time_seconds as int, *params) ==> r == Err::<
            (Fixed, Fixed),
            RateError,
        >(RateError::InvalidConfiguration),
        attemptable(elapsed_time_seconds as int, *params) && !evolution_fits(
            start_rate_at_target@,
            elapsed_time_seconds as int,
            utilization@,
            *params,
            end_growth@,
            mid_growth@,
        ) ==> r == Err::<(Fixed, Fixed), RateError>(RateError::Overflow),
        attemptable(elapsed_time_seconds as int, *params) && evolution_fits(
            start_rate_at_target@,
            elapsed_time_seconds as int,
            utilization@,
            *params,
            end_growth@,
            mid_growth@,
        ) ==> r == Ok::<(Fixed, Fixed), RateError>(
            (
                raw(avg_rate_raw(start_rate_at_target@, end_growth@, mid_growth@, *params)),
                raw(end_rate_raw(start_rate_at_target@, end_growth@, *params)),
            ),
        ),
        start_rate_at_target@ == 0 && r is Ok ==> r == Ok::<(Fixed, Fixed), RateError>(
            (raw(0), raw(0)),
        ),
        start_rate_at_target@ != 0 && params.min_rate@ <= params.max_rate@ ==> (r matches Ok(
            (avg, end),
        ) ==> params.min_rate@ <= end@ <= params.max_rate@),
        start_rate_at_target@ != 0 && params.min_rate@ <= start_rate_at_target@
            <= params.max_rate@ ==> (r matches Ok((avg, end)) ==> params.min_rate@ <= avg@
            <= params.max_rate@),
{
    // The growth factors stand for the exponentials of these two exponents,
    // so every step toward them has to succeed.
    growth_exponents(start_rate_at_target, elapsed_time_seconds, utilization, params)?;
    if start_rate_at_target.bits == 0 {
        return Ok((start_rate_at_target, start_rate_at_target));
    }
    let end = new_rate_at_target(start_rate_at_target, end_growth, params.min_rate, params.max_rate)?;
    let mid = new_rate_at_target(start_rate_at_target, mid_growth, params.min_rate, params.max_rate)?;
    let ends = start_rate_at_target.checked_add(end)?;
    proof {
        lemma_mul_whole(mid@, 2);
    }
    let middle = Fixed::from_int(2).checked_mul(mid)?;
    let total = ends.checked_add(middle)?;
    let avg = total.div_whole(4);
    proof {
        if params.min_rate@ <= start_rate_at_target@ <= params.max_rate@ {
            lemma_trunc_div_between(total@, 4, params.min_rate@, params.max_rate@);
        }
    }
    Ok((avg, end))
}

} // verus!
