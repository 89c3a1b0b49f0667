//! Laws of the rate calculation, stated over its model.

use vstd::prelude::*;
use crate::arith::{
    lemma_mul_raw_monotone, lemma_mul_raw_zero, lemma_mul_whole, lemma_trunc_div_between,
    lemma_trunc_div_monotone, lemma_trunc_div_multiple, lemma_trunc_div_remainder,
};
use crate::calculator::applied_rate_raw;
use crate::curve::{curve_coefficient_raw, curve_raw};
use crate::evolution::{
    avg_rate_raw, end_exponent_raw, end_rate_raw, error_fits, error_term, growth_limit,
    linear_adaptation_raw, mid_exponent_raw, mid_rate_raw, new_rate_raw, norm_factor,
};
use crate::fixed_point::{clamp_raw, div_raw, mul_raw, representable, scale, trunc_div};
use crate::params::ParameterSet;

verus! {

/// A zero start rate stays zero: whatever the elapsed time, the utilization
/// and the growth factors, the end rate and the average rate are zero, and
/// so are both exponents.
pub proof fn law_zero_start(
    elapsed: int,
    utilization: int,
    params: ParameterSet,
    end_growth: int,
    mid_growth: int,
)
    ensures
        end_rate_raw(0, end_growth, params) == 0,
        avg_rate_raw(0, end_growth, mid_growth, params) == 0,
        end_exponent_raw(0, elapsed, utilization, params) == 0,
        mid_exponent_raw(0, elapsed, utilization, params) == 0,
{
}

/// Over an interval of no length nothing adapts: both exponents are zero,
/// and with the growth factor one that belongs to them the end rate is the
/// start rate held to the bounds. A start rate within the bounds is also
/// the average.
pub proof fn law_zero_elapsed(start: int, utilization: int, params: ParameterSet)
    ensures
        end_exponent_raw(start, 0, utilization, params) == 0,
        mid_exponent_raw(start, 0, utilization, params) == 0,
        start != 0 ==> end_rate_raw(start, scale(), params) == clamp_raw(
            start,
            params.min_rate@,
            params.max_rate@,
        ),
        params.min_rate@ <= start <= params.max_rate@ ==> {
            &&& end_rate_raw(start, scale(), params) == start
            &&& avg_rate_raw(start, scale(), scale(), params) == start
        },
{
    let err = error_term(utilization, params.target_utilization@);
    assert(linear_adaptation_raw(params.adjustment_speed@, err, 0) == 0) by (nonlinear_arith)
        requires
            linear_adaptation_raw(params.adjustment_speed@, err, 0) == mul_raw(
                params.adjustment_speed@,
                err,
            ) * 0,
    ;
    lemma_mul_whole(start, 1);
    if params.min_rate@ <= start <= params.max_rate@ {
        lemma_trunc_div_multiple(start, 4);
    }
}

/// At the target the error is zero and the curve leaves the average rate
/// unchanged.
pub proof fn law_at_target(start: int, params: ParameterSet, end_growth: int, mid_growth: int)
    requires
        params.valid(),
    ensures
        error_term(params.target_utilization@, params.target_utilization@) == 0,
        applied_rate_raw(start, params.target_utilization@, params, end_growth, mid_growth)
            == avg_rate_raw(start, end_growth, mid_growth, params),
{
    let target = params.target_utilization@;
    assert(0 * scale() == 0);
    lemma_trunc_div_multiple(0, if target > 0 { target } else { -target });
    assert(error_term(target, target) == 0);
    lemma_mul_raw_zero(curve_coefficient_raw(0, params.curve_steepness@));
    lemma_mul_whole(avg_rate_raw(start, end_growth, mid_growth, params), 1);
}

/// A curve at zero error returns its input.
pub proof fn law_curve_at_zero_error(rate_at_target: int, curve_steepness: int)
    ensures
        curve_raw(rate_at_target, 0, curve_steepness) == rate_at_target,
{
    lemma_mul_raw_zero(curve_coefficient_raw(0, curve_steepness));
    lemma_mul_whole(rate_at_target, 1);
}

/// With bounds in order, a start rate other than zero ends within them, and
/// so does the midpoint rate. If the start rate lies within them too, so
/// does the average.
pub proof fn law_rate_bounds(start: int, params: ParameterSet, end_growth: int, mid_growth: int)
    requires
        start != 0,
        params.min_rate@ <= params.max_rate@,
    ensures
        params.min_rate@ <= end_rate_raw(start, end_growth, params) <= params.max_rate@,
        params.min_rate@ <= mid_rate_raw(start, mid_growth, params) <= params.max_rate@,
        params.min_rate@ <= start <= params.max_rate@ ==> params.min_rate@ <= avg_rate_raw(
            start,
            end_growth,
            mid_growth,
            params,
        ) <= params.max_rate@,
{
    if params.min_rate@ <= start <= params.max_rate@ {
        let end = end_rate_raw(start, end_growth, params);
        let mid = mid_rate_raw(start, mid_growth, params);
        lemma_trunc_div_between(start + end + 2 * mid, 4, params.min_rate@, params.max_rate@);
    }
}

/// With bounds in order a grown rate lies within them, whatever the start
/// rate and the growth factor.
pub proof fn law_new_rate_bounds(start: int, growth: int, min_rate: int, max_rate: int)
    requires
        min_rate <= max_rate,
    ensures
        min_rate <= new_rate_raw(start, growth, min_rate, max_rate) <= max_rate,
{
}

/// A start rate of at most one hundred in size, grown by a factor that is
/// not negative and no larger than `e^50`, is representable before it is
/// held to the bounds: such a rate is always returned.
pub proof fn law_new_rate_is_returned(start: int, growth: int)
    requires
        -100 * scale() <= start <= 100 * scale(),
        0 <= growth <= growth_limit(),
    ensures
        representable(mul_raw(start, growth)),
        -100 * growth <= mul_raw(start, growth) <= 100 * growth,
{
    lemma_mul_raw_monotone(growth, -100 * scale(), start);
    lemma_mul_raw_monotone(growth, start, 100 * scale());
    lemma_mul_whole(growth, 100);
    lemma_mul_whole(growth, -100);
    assert(mul_raw(start, growth) == mul_raw(growth, start)) by (nonlinear_arith)
        requires
            mul_raw(start, growth) == (start * growth) / scale(),
            mul_raw(growth, start) == (growth * start) / scale(),
    ;
}

/// For a start rate that is not negative, a larger growth factor never
/// gives a smaller rate: the rate never falls as the exponent rises, as
/// long as the exponential does not.
pub proof fn law_new_rate_monotone(
    start: int,
    growth_1: int,
    growth_2: int,
    min_rate: int,
    max_rate: int,
)
    requires
        start >= 0,
        growth_1 <= growth_2,
    ensures
        new_rate_raw(start, growth_1, min_rate, max_rate) <= new_rate_raw(
            start,
            growth_2,
            min_rate,
            max_rate,
        ),
{
    lemma_mul_raw_monotone(start, growth_1, growth_2);
}

/// The curve does not keep a rate within bounds: at full error it
/// multiplies the rate by the steepness.
pub proof fn law_curve_at_full_error(rate_at_target: int, steepness: int)
    ensures
        curve_raw(rate_at_target, scale(), steepness * scale()) == steepness * rate_at_target,
{
    let coefficient = curve_coefficient_raw(scale(), steepness * scale());
    assert(coefficient == (steepness - 1) * scale()) by (nonlinear_arith)
        requires
            coefficient == steepness * scale() - scale(),
    ;
    lemma_mul_whole(scale(), steepness - 1);
    assert(mul_raw(coefficient, scale()) + scale() == steepness * scale()) by (nonlinear_arith)
        requires
            mul_raw(coefficient, scale()) == scale() * (steepness - 1),
    ;
    lemma_mul_whole(rate_at_target, steepness);
    assert(rate_at_target * steepness == steepness * rate_at_target) by (nonlinear_arith);
}

/// For a utilization between zero and one and a target strictly between
/// them, the error is computed without overflow and lies between minus one
/// and one.
pub proof fn law_error_range(utilization: int, target: int)
    requires
        0 <= utilization <= scale(),
        0 < target < scale(),
    ensures
        error_fits(utilization, target),
        -scale() <= error_term(utilization, target) <= scale(),
        utilization > target ==> error_term(utilization, target) > 0,
        utilization <= target ==> error_term(utilization, target) <= 0,
{
    let norm = norm_factor(utilization, target);
    let deviation = utilization - target;
    assert((-scale()) * norm <= deviation * scale() <= scale() * norm) by (nonlinear_arith)
        requires
            -norm <= deviation <= norm,
            norm > 0,
    ;
    lemma_trunc_div_between(deviation * scale(), norm, -scale(), scale());
    if utilization > target {
        assert(1 * norm <= deviation * scale()) by (nonlinear_arith)
            requires
                deviation >= 1,
                0 < norm < scale(),
        ;
        lemma_trunc_div_between(deviation * scale(), norm, 1, scale());
    } else {
        assert(deviation * scale() <= 0 * norm) by (nonlinear_arith)
            requires
                deviation <= 0,
        ;
        lemma_trunc_div_between(deviation * scale(), norm, -scale(), 0);
    }
}

/// A quotient by a divisor of at most one grows by at least one unit when the
/// dividend grows by one unit.
proof fn lemma_div_raw_strict(d1: int, d2: int, norm: int)
    requires
        0 < norm <= scale(),
        d1 < d2,
    ensures
        div_raw(d1, norm) < div_raw(d2, norm),
{
    let x1 = d1 * scale();
    let x2 = d2 * scale();
    let q1 = trunc_div(x1, norm);
    let q2 = trunc_div(x2, norm);
    assert(x2 - x1 >= scale()) by (nonlinear_arith)
        requires
            d1 < d2,
            x1 == d1 * scale(),
            x2 == d2 * scale(),
    ;
    assert((d1 >= 0 ==> x1 >= 0) && (d1 < 0 ==> x1 <= -scale())) by (nonlinear_arith)
        requires
            x1 == d1 * scale(),
    ;
    assert((d2 >= 0 ==> x2 >= 0) && (d2 < 0 ==> x2 <= -scale())) by (nonlinear_arith)
        requires
            x2 == d2 * scale(),
    ;
    lemma_trunc_div_remainder(x1, norm);
    lemma_trunc_div_remainder(x2, norm);
    lemma_trunc_div_monotone(x1, x2, norm);
    if q1 == q2 {
        // Equal quotients leave remainders of one sign less than `norm` apart.
        assert(x2 - x1 == (x2 - q2 * norm) - (x1 - q1 * norm));
        if x1 < 0 && x2 >= 0 {
            assert(x1 * norm <= x1 <= (-1) * norm) by (nonlinear_arith)
                requires
                    x1 <= -scale(),
                    0 < norm <= scale(),
            ;
            lemma_trunc_div_between(x1, norm, x1, -1);
        }
    }
}

/// The error grows strictly with the utilization: a higher utilization has
/// a strictly higher error, for every target strictly between zero and one.
pub proof fn law_error_strictly_monotone(utilization_1: int, utilization_2: int, target: int)
    requires
        0 < target < scale(),
        utilization_1 < utilization_2,
    ensures
        error_term(utilization_1, target) < error_term(utilization_2, target),
{
    if utilization_1 > target {
        lemma_div_raw_strict(utilization_1 - target, utilization_2 - target, scale() - target);
    } else if utilization_2 <= target {
        lemma_div_raw_strict(utilization_1 - target, utilization_2 - target, target);
    } else {
        // At or below the target the error is not positive, above it is positive.
        assert(0 * scale() == 0);
        lemma_trunc_div_multiple(0, target);
        lemma_trunc_div_multiple(0, scale() - target);
        lemma_div_raw_strict(0, utilization_2 - target, scale() - target);
        if utilization_1 < target {
            lemma_div_raw_strict(utilization_1 - target, 0, target);
        }
    }
}

/// With a speed that is not negative over a time that is not negative, a
/// higher error never has a lower exponent, over the whole interval or over
/// its first half.
pub proof fn law_exponent_monotone(
    start: int,
    elapsed: int,
    utilization_1: int,
    utilization_2: int,
    params: ParameterSet,
)
    requires
        0 < params.target_utilization@ < scale(),
        params.adjustment_speed@ >= 0,
        elapsed >= 0,
        utilization_1 <= utilization_2,
    ensures
        end_exponent_raw(start, elapsed, utilization_1, params) <= end_exponent_raw(
            start,
            elapsed,
            utilization_2,
            params,
        ),
        mid_exponent_raw(start, elapsed, utilization_1, params) <= mid_exponent_raw(
            start,
            elapsed,
            utilization_2,
            params,
        ),
{
    let target = params.target_utilization@;
    let speed = params.adjustment_speed@;
    let err_1 = error_term(utilization_1, target);
    let err_2 = error_term(utilization_2, target);
    if utilization_1 < utilization_2 {
        law_error_strictly_monotone(utilization_1, utilization_2, target);
    }
    lemma_mul_raw_monotone(speed, err_1, err_2);
    let whole_1 = linear_adaptation_raw(speed, err_1, elapsed);
    let whole_2 = linear_adaptation_raw(speed, err_2, elapsed);
    assert(whole_1 <= whole_2) by (nonlinear_arith)
        requires
            mul_raw(speed, err_1) <= mul_raw(speed, err_2),
            elapsed >= 0,
            whole_1 == mul_raw(speed, err_1) * elapsed,
            whole_2 == mul_raw(speed, err_2) * elapsed,
    ;
    lemma_trunc_div_monotone(whole_1, whole_2, 2);
}

/// With a positive adjustment speed, a start rate and bounds that are not
/// negative, and an exponential that never decreases, a higher utilization
/// never ends at a lower rate at target: above the target the rate rises
/// with the utilization until the upper bound holds it, below the target it
/// falls with it until the lower bound does.
pub proof fn law_end_rate_monotone(
    start: int,
    elapsed: int,
    utilization_1: int,
    utilization_2: int,
    params: ParameterSet,
    exponential: spec_fn(int) -> int,
)
    requires
        params.well_formed(),
        elapsed >= 0,
        start >= 0,
        utilization_1 <= utilization_2,
        forall|x: int, y: int| x <= y ==> #[trigger] exponential(x) <= #[trigger] exponential(y),
    ensures
        end_rate_raw(
            start,
            exponential(end_exponent_raw(start, elapsed, utilization_1, params)),
            params,
        ) <= end_rate_raw(
            start,
            exponential(end_exponent_raw(start, elapsed, utilization_2, params)),
            params,
        ),
        mid_rate_raw(
            start,
            exponential(mid_exponent_raw(start, elapsed, utilization_1, params)),
            params,
        ) <= mid_rate_raw(
            start,
            exponential(mid_exponent_raw(start, elapsed, utilization_2, params)),
            params,
        ),
{
    law_exponent_monotone(start, elapsed, utilization_1, utilization_2, params);
    lemma_mul_raw_monotone(
        start,
        exponential(end_exponent_raw(start, elapsed, utilization_1, params)),
        exponential(end_exponent_raw(start, elapsed, utilization_2, params)),
    );
    lemma_mul_raw_monotone(
        start,
        exponential(mid_exponent_raw(start, elapsed, utilization_1, params)),
        exponential(mid_exponent_raw(start, elapsed, utilization_2, params)),
    );
}

} // verus!
