//! The whole calculation: from a request in percent and per year to the
//! average rate before and after the curve, in percent per year.

use vstd::prelude::*;
use crate::arith::lemma_mul_whole;
use crate::constants::{annual_to_per_second, per_second_raw, seconds_per_year, SECONDS_PER_YEAR};
use crate::curve::{curve, curve_fits, curve_raw};
use crate::error::RateError;
use crate::evolution::{
    avg_rate_raw, end_exponent_raw, error_term, evolution_fits, exponents_fit, growth_exponents,
    mid_exponent_raw, raw, target_rate_evolution, utilization_error,
};
use crate::fixed_point::{representable, trunc_div, Fixed};
use crate::params::{usable, ParameterSet};

verus! {

/// A per-second rate as a rate per year: the rate times the seconds of a
/// year, which is exact.
///
/// Fails with `Overflow` exactly when the product is unrepresentable.
pub fn rate_per_second_to_rate_per_year(rate_per_second: Fixed) -> (r: Result<Fixed, RateError>)
    ensures
        representable(rate_per_second@ * seconds_per_year()) ==> r == Ok::<Fixed, RateError>(
            raw(rate_per_second@ * seconds_per_year()),
        ),
        !representable(rate_per_second@ * seconds_per_year()) ==> r == Err::<Fixed, RateError>(
            RateError::Overflow,
        ),
{
    proof {
        lemma_mul_whole(rate_per_second@, seconds_per_year());
    }
    rate_per_second.checked_mul(Fixed::from_int(SECONDS_PER_YEAR))
}

/// Whether every step of a calculation is representable: those of the
/// evolution and those of the curve at the average rate.
pub open spec fn calculation_fits(
    start: int,
    elapsed: int,
    utilization: int,
    params: ParameterSet,
    end_growth: int,
    mid_growth: int,
) -> bool {
    &&& evolution_fits(start, elapsed, utilization, params, end_growth, mid_growth)
    &&& curve_fits(
        avg_rate_raw(start, end_growth, mid_growth, params),
        error_term(utilization, params.target_utilization@),
        params.curve_steepness@,
    )
}

/// The average rate after the curve.
pub open spec fn applied_rate_raw(
    start: int,
    utilization: int,
    params: ParameterSet,
    end_growth: int,
    mid_growth: int,
) -> int {
    curve_raw(
        avg_rate_raw(start, end_growth, mid_growth, params),
        error_term(utilization, params.target_utilization@),
        params.curve_steepness@,
    )
}

/// The average rate at target over the interval and the rate the curve makes
/// of it, both per second, given the growth factors `e^x` at the two
/// exponents of [`growth_exponents`].
///
/// Fails with `InvalidConfiguration` exactly when the target utilization is
/// zero or one, the steepness is zero or the elapsed time is negative, and
/// with `Overflow` exactly when none of these holds and some step is
/// unrepresentable. It never fails with `DivisionByZero`.
pub fn calc_avg_and_end_rate(
    start_rate_at_target: Fixed,
    elapsed_time_seconds: i64,
    utilization: Fixed,
    curve_steepness: Fixed,
    adjustment_speed: Fixed,
    target_utilization: Fixed,
    min_rate: Fixed,
    max_rate: Fixed,
    end_growth: Fixed,
    mid_growth: Fixed,
) -> (r: Result<(Fixed, Fixed), RateError>)
    ensures
        ({
            let params = ParameterSet {
                curve_steepness,
                adjustment_speed,
                target_utilization,
                min_rate,
                max_rate,
            };
            let attempted = usable(curve_steepness@, target_utilization@) && elapsed_time_seconds
                >= 0;
            let fits = calculation_fits(
                start_rate_at_target@,
                elapsed_time_seconds as int,
                utilization@,
                params,
                end_growth@,
                mid_growth@,
            );
            &&& !attempted ==> r == Err::<(Fixed, Fixed), RateError>(
                RateError::InvalidConfiguration,
            )
            &&& attempted && !fits ==> r == Err::<(Fixed, Fixed), RateError>(RateError::Overflow)
            &&& attempted && fits ==> r == Ok::<(Fixed, Fixed), RateError>(
                (
                    raw(avg_rate_raw(start_rate_at_target@, end_growth@, mid_growth@, params)),
                    raw(
                        applied_rate_raw(
                            start_rate_at_target@,
                            utilization@,
                            params,
                            end_growth@,
                            mid_growth@,
                        ),
                    ),
                ),
            )
        }),
{
    let params = ParameterSet::new(
        curve_steepness,
        adjustment_speed,
        target_utilization,
        min_rate,
        max_rate,
    )?;
    let (avg_rate_at_target, _) = target_rate_evolution(
        start_rate_at_target,
        elapsed_time_seconds,
        utilization,
        &params,
        end_growth,
        mid_growth,
    )?;
    let err = utilization_error(utilization, target_utilization)?;
    let avg_rate_after_curve = curve(avg_rate_at_target, err, curve_steepness)?;
    Ok((avg_rate_at_target, avg_rate_after_curve))
}

/// A request: what a user enters, percentages in percent and rates per year.
#[derive(Debug, Clone, Copy, PartialEq, Eq, Structural)]
pub struct InputData {
    /// Current utilization, in percent.
    pub current_utilization: Fixed,
    /// Length of the interval, in seconds.
    pub elapsed_time_seconds: i64,
    /// Curve steepness, dimensionless.
    pub curve_steepness: Fixed,
    /// Rate at target at the start of the interval, in percent per year.
    pub initial_rate: Fixed,
    /// Adjustment speed, in percent per year.
    pub adjustment_speed: Fixed,
    /// Target utilization, in percent.
    pub target_utilization: Fixed,
    /// Lower bound of the rate at target, in percent per year.
    pub min_rate: Fixed,
    /// Upper bound of the rate at target, in percent per year.
    pub max_rate: Fixed,
}

/// A percentage as a ratio: `x / 100`, rounded toward zero.
pub open spec fn ratio_raw(x: int) -> int {
    trunc_div(x, 100)
}

/// A percentage per year as a ratio per second.
pub open spec fn annual_percent_raw(x: int) -> int {
    per_second_raw(ratio_raw(x))
}

/// A ratio per second as a percentage per year: the rate times the seconds
/// of a year, times one hundred.
pub open spec fn percent_per_year_raw(rate: int) -> int {
    rate * seconds_per_year() * 100
}

/// Whether a per-second rate can be reported as a percentage per year.
pub open spec fn reportable(rate: int) -> bool {
    representable(rate * seconds_per_year()) && representable(percent_per_year_raw(rate))
}

/// A percentage as a ratio.
pub fn percent_to_ratio(percent: Fixed) -> (r: Fixed)
    ensures
        r@ == ratio_raw(percent@),
{
    percent.div_whole(100)
}

/// A percentage per year as a ratio per second.
pub fn annual_percent_to_per_second(percent_per_year: Fixed) -> (r: Fixed)
    ensures
        r@ == annual_percent_raw(percent_per_year@),
{
    annual_to_per_second(percent_to_ratio(percent_per_year))
}

/// A ratio per second as a percentage per year.
///
/// Fails with `Overflow` exactly when a step is unrepresentable.
pub fn per_second_to_annual_percent(rate_per_second: Fixed) -> (r: Result<Fixed, RateError>)
    ensures
        reportable(rate_per_second@) ==> r == Ok::<Fixed, RateError>(
            raw(percent_per_year_raw(rate_per_second@)),
        ),
        !reportable(rate_per_second@) ==> r == Err::<Fixed, RateError>(RateError::Overflow),
{
    let per_year = rate_per_second_to_rate_per_year(rate_per_second)?;
    proof {
        lemma_mul_whole(per_year@, 100);
    }
    per_year.checked_mul(Fixed::from_int(100))
}

impl InputData {
    /// The parameter set of this request, per second.
    pub open spec fn params(&self) -> ParameterSet {
        ParameterSet {
            curve_steepness: self.curve_steepness,
            adjustment_speed: raw(annual_percent_raw(self.adjustment_speed@)),
            target_utilization: raw(ratio_raw(self.target_utilization@)),
            min_rate: raw(annual_percent_raw(self.min_rate@)),
            max_rate: raw(annual_percent_raw(self.max_rate@)),
        }
    }

    /// The starting rate at target of this request, per second.
    pub open spec fn start_rate(&self) -> int {
        annual_percent_raw(self.initial_rate@)
    }

    /// The current utilization of this request, as a ratio.
    pub open spec fn utilization(&self) -> int {
        ratio_raw(self.current_utilization@)
    }

    /// Whether this request can be attempted: after conversion the target
    /// utilization is neither zero nor one, the steepness is not zero, and
    /// the elapsed time is not negative.
    pub open spec fn attemptable(&self) -> bool {
        self.params().valid() && self.elapsed_time_seconds >= 0
    }

    /// The parameter set, the starting rate at target and the utilization
    /// of this request: percentages divided by one hundred, annual rates by
    /// the seconds of a year.
    ///
    /// Fails with `InvalidConfiguration` exactly when the request cannot be
    /// attempted.
    pub fn prepare(&self) -> (r: Result<(ParameterSet, Fixed, Fixed), RateError>)
        ensures
            self.attemptable() ==> r == Ok::<(ParameterSet, Fixed, Fixed), RateError>(
                (self.params(), raw(self.start_rate()), raw(self.utilization())),
            ),
            !self.attemptable() ==> r == Err::<(ParameterSet, Fixed, Fixed), RateError>(
                RateError::InvalidConfiguration,
            ),
    {
        if self.elapsed_time_seconds < 0 {
            return Err(RateError::InvalidConfiguration);
        }
        let params = ParameterSet::new(
            self.curve_steepness,
            annual_percent_to_per_second(self.adjustment_speed),
            percent_to_ratio(self.target_utilization),
            annual_percent_to_per_second(self.min_rate),
            annual_percent_to_per_second(self.max_rate),
        )?;
        Ok(
            (
                params,
                annual_percent_to_per_second(self.initial_rate),
                percent_to_ratio(self.current_utilization),
            ),
        )
    }
}

/// The two exponents at which the exponential is needed for a request: see
/// [`growth_exponents`].
///
/// Fails with `InvalidConfiguration` exactly when the request cannot be
/// attempted, and with `Overflow` exactly when it can and some step is
/// unrepresentable.
pub fn calculation_exponents(input: &InputData) -> (r: Result<(Fixed, Fixed), RateError>)
    ensures
        ({
            let fits = exponents_fit(
                input.start_rate(),
                input.elapsed_time_seconds as int,
                input.utilization(),
                input.params(),
            );
            &&& !input.attemptable() ==> r == Err::<(Fixed, Fixed), RateError>(
                RateError::InvalidConfiguration,
            )
            &&& input.attemptable() && !fits ==> r == Err::<(Fixed, Fixed), RateError>(
                RateError::Overflow,
            )
            &&& input.attemptable() && fits ==> r == Ok::<(Fixed, Fixed), RateError>(
                (
                    raw(
                        end_exponent_raw(
                            input.start_rate(),
                            input.elapsed_time_seconds as int,
                            input.utilization(),
                            input.params(),
                        ),
                    ),
                    raw(
                        mid_exponent_raw(
                            input.start_rate(),
                            input.elapsed_time_seconds as int,
                            input.utilization(),
                            input.params(),
                        ),
                    ),
                ),
            )
        }),
{
    let (params, start, utilization) = input.prepare()?;
    growth_exponents(start, input.elapsed_time_seconds, utilization, &params)
}

/// Whether every step of the calculation for a request is representable,
/// the two final conversions to percent per year included.
pub open spec fn report_fits(input: InputData, end_growth: int, mid_growth: int) -> bool {
    &&& calculation_fits(
        input.start_rate(),
        input.elapsed_time_seconds as int,
        input.utilization(),
        input.params(),
        end_growth,
        mid_growth,
    )
    &&& reportable(avg_rate_raw(input.start_rate(), end_growth, mid_growth, input.params()))
    &&& reportable(
        applied_rate_raw(
            input.start_rate(),
            input.utilization(),
            input.params(),
            end_growth,
            mid_growth,
        ),
    )
}

/// The average rate before and after the curve for a request, both in
/// percent per year, given the growth factors `e^x` at the two exponents of
/// [`calculation_exponents`].
///
/// Fails with `InvalidConfiguration` exactly when the request cannot be
/// attempted, and with `Overflow` exactly when it can and some step is
/// unrepresentable.
pub fn calculate(input: &InputData, end_growth: Fixed, mid_growth: Fixed) -> (r: Result<
    (Fixed, Fixed),
    RateError,
>)
    ensures
        !input.attemptable() ==> r == Err::<(Fixed, Fixed), RateError>(
            RateError::InvalidConfiguration,
        ),
        input.attemptable() && !report_fits(*input, end_growth@, mid_growth@) ==> r == Err::<
            (Fixed, Fixed),
            RateError,
        >(RateError::Overflow),
        input.attemptable() && report_fits(*input, end_growth@, mid_growth@) ==> r == Ok::<
            (Fixed, Fixed),
            RateError,
        >(
            (
                raw(
                    percent_per_year_raw(
                        avg_rate_raw(input.start_rate(), end_growth@, mid_growth@, input.params()),
                    ),
                ),
                raw(
                    percent_per_year_raw(
                        applied_rate_raw(
                            input.start_rate(),
                            input.utilization(),
                            input.params(),
                            end_growth@,
                            mid_growth@,
                        ),
                    ),
                ),
            ),
        ),
{
    let (params, start, utilization) = input.prepare()?;
    let (avg_rate_at_target, avg_rate_after_curve) = calc_avg_and_end_rate(
        start,
        input.elapsed_time_seconds,
        utilization,
        params.curve_steepness,
        params.adjustment_speed,
        params.target_utilization,
        params.min_rate,
        params.max_rate,
        end_growth,
        mid_growth,
    )?;
    let before = per_second_to_annual_percent(avg_rate_at_target)?;
    let after = per_second_to_annual_percent(avg_rate_after_curve)?;
    Ok((before, after))
}

} // verus!
