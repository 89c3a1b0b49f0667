use adaptive_rate::calculator::{
    annual_percent_to_per_second, calc_avg_and_end_rate, calculate, calculation_exponents,
    per_second_to_annual_percent, percent_to_ratio, rate_per_second_to_rate_per_year, InputData,
};
use adaptive_rate::constants::{
    adjustment_speed, initial_rate_at_target, max_rate_at_target, min_rate_at_target,
    target_utilization,
};
use adaptive_rate::error::RateError;
use adaptive_rate::evolution::growth_exponents;
use adaptive_rate::fixed_point::Fixed;
use adaptive_rate::params::ParameterSet;
use fixed::types::I80F48;

fn fx(v: f64) -> Fixed {
    Fixed::from_bits(I80F48::from_num(v).to_bits())
}

fn number(x: Fixed) -> f64 {
    I80F48::from_bits(x.bits).to_num::<f64>()
}

fn exp(x: Fixed) -> Fixed {
    Fixed::from_bits(I80F48::from_num(number(x).exp()).to_bits())
}

fn default_input(current_utilization: f64, elapsed_time_seconds: i64) -> InputData {
    InputData {
        current_utilization: fx(current_utilization),
        elapsed_time_seconds,
        curve_steepness: fx(4.0),
        initial_rate: fx(4.0),
        adjustment_speed: fx(50.0),
        target_utilization: fx(90.0),
        min_rate: fx(0.1),
        max_rate: fx(200.0),
    }
}

fn run(input: &InputData) -> Result<(Fixed, Fixed), RateError> {
    let (whole, half) = calculation_exponents(input)?;
    calculate(input, exp(whole), exp(half))
}

fn run_defaults(utilization: Fixed, elapsed: i64) -> (Fixed, Fixed) {
    let params = ParameterSet::new(
        Fixed::from_int(4),
        adjustment_speed(),
        target_utilization(),
        min_rate_at_target(),
        max_rate_at_target(),
    )
    .unwrap();
    let start = initial_rate_at_target();
    let (whole, half) = growth_exponents(start, elapsed, utilization, &params).unwrap();
    calc_avg_and_end_rate(
        start,
        elapsed,
        utilization,
        params.curve_steepness,
        params.adjustment_speed,
        params.target_utilization,
        params.min_rate,
        params.max_rate,
        exp(whole),
        exp(half),
    )
    .unwrap()
}

#[test]
fn rate_per_year_is_the_rate_times_the_seconds_of_a_year() {
    assert_eq!(rate_per_second_to_rate_per_year(Fixed::one()), Ok(Fixed::from_int(31_557_600)));
    assert_eq!(
        rate_per_second_to_rate_per_year(Fixed::from_bits(356_776)),
        Ok(Fixed::from_bits(356_776 * 31_557_600))
    );
    assert_eq!(
        rate_per_second_to_rate_per_year(Fixed::from_bits(-3)),
        Ok(Fixed::from_bits(-3 * 31_557_600))
    );
    assert_eq!(rate_per_second_to_rate_per_year(Fixed::zero()), Ok(Fixed::zero()));
}

#[test]
fn rate_per_year_reports_overflow() {
    assert_eq!(
        rate_per_second_to_rate_per_year(Fixed::from_bits(i128::MAX)),
        Err(RateError::Overflow)
    );
    assert_eq!(
        rate_per_second_to_rate_per_year(Fixed::from_bits(i128::MAX / 31_557_600 + 1)),
        Err(RateError::Overflow)
    );
    assert_eq!(
        rate_per_second_to_rate_per_year(Fixed::from_bits(i128::MAX / 31_557_600)),
        Ok(Fixed::from_bits(i128::MAX / 31_557_600 * 31_557_600))
    );
}

#[test]
fn percent_becomes_a_ratio() {
    assert_eq!(percent_to_ratio(Fixed::from_int(100)), Fixed::one());
    assert_eq!(percent_to_ratio(Fixed::from_int(50)), fx(0.5));
    assert_eq!(percent_to_ratio(Fixed::from_int(-25)), fx(-0.25));
    assert_eq!(percent_to_ratio(Fixed::from_int(90)).bits, 253_327_479_039_590);
    assert_eq!(percent_to_ratio(Fixed::from_bits(199)), Fixed::from_bits(1));
    assert_eq!(percent_to_ratio(Fixed::from_bits(-199)), Fixed::from_bits(-1));
}

#[test]
fn annual_percent_becomes_a_rate_per_second() {
    assert_eq!(annual_percent_to_per_second(Fixed::from_int(4)).bits, 356_776);
    assert_eq!(annual_percent_to_per_second(Fixed::from_int(200)).bits, 17_838_807);
    assert_eq!(annual_percent_to_per_second(Fixed::from_int(50)).bits, 4_459_701);
    assert_eq!(annual_percent_to_per_second(fx(0.1)).bits, 8_919);
    assert_eq!(annual_percent_to_per_second(Fixed::from_int(-4)).bits, -356_776);
    assert_eq!(annual_percent_to_per_second(Fixed::from_int(3_155_760_000)), Fixed::one());
}

#[test]
fn rate_per_second_becomes_an_annual_percent() {
    assert_eq!(
        per_second_to_annual_percent(Fixed::from_bits(356_776)),
        Ok(Fixed::from_bits(356_776 * 3_155_760_000))
    );
    assert_eq!(
        per_second_to_annual_percent(Fixed::one()),
        Ok(Fixed::from_int(3_155_760_000))
    );
    assert_eq!(
        per_second_to_annual_percent(Fixed::from_bits(i128::MAX / 31_557_600)),
        Err(RateError::Overflow)
    );
    assert_eq!(
        per_second_to_annual_percent(Fixed::from_bits(i128::MIN)),
        Err(RateError::Overflow)
    );
}

#[test]
fn prepare_converts_each_input() {
    let input = default_input(100.0, 3600);
    let (params, start, utilization) = input.prepare().unwrap();
    assert_eq!(params.curve_steepness, Fixed::from_int(4));
    assert_eq!(params.adjustment_speed.bits, 4_459_701);
    assert_eq!(params.target_utilization.bits, 253_327_479_039_590);
    assert_eq!(params.min_rate.bits, 8_919);
    assert_eq!(params.max_rate.bits, 17_838_807);
    assert_eq!(start.bits, 356_776);
    assert_eq!(utilization, Fixed::one());
}

#[test]
fn prepare_rejects_an_invalid_configuration() {
    let mut input = default_input(50.0, 3600);
    input.target_utilization = fx(0.0);
    assert_eq!(input.prepare(), Err(RateError::InvalidConfiguration));
    input.target_utilization = fx(100.0);
    assert_eq!(input.prepare(), Err(RateError::InvalidConfiguration));
    input.target_utilization = fx(90.0);
    input.curve_steepness = fx(0.0);
    assert_eq!(input.prepare(), Err(RateError::InvalidConfiguration));
    input.curve_steepness = fx(4.0);
    input.elapsed_time_seconds = -1;
    assert_eq!(input.prepare(), Err(RateError::InvalidConfiguration));
    input.elapsed_time_seconds = 0;
    assert!(input.prepare().is_ok());
}

#[test]
fn default_configuration_at_full_utilization() {
    let input = default_input(100.0, 3600);
    let (whole, half) = calculation_exponents(&input).unwrap();
    // Error one: the exponent is the speed per second times the seconds.
    assert_eq!(whole.bits, 4_459_701 * 3600);
    assert_eq!(half.bits, 4_459_701 * 1800);
    let (before, after) = calculate(&input, exp(whole), exp(half)).unwrap();
    assert!((number(before) - 4.00).abs() < 0.005);
    assert!((number(after) - 16.00).abs() < 0.005);
    // The curve multiplies by four at full error.
    assert_eq!(format!("{:.2}", I80F48::from_bits(before.bits)), "4.00");
    assert_eq!(format!("{:.2}", I80F48::from_bits(after.bits)), "16.00");
    assert!(before.bits > fx(4.0).bits - (1 << 40));
}

#[test]
fn default_configuration_at_full_utilization_in_exact_terms() {
    // With growth factors of one and a half and one and a quarter:
    // end = 1.5 * start, mid = 1.25 * start, average = 5.25 / 4 * start.
    let input = default_input(100.0, 3600);
    let (before, after) = calculate(&input, fx(1.5), fx(1.25)).unwrap();
    let start: i128 = 356_776;
    let end = start * 3 / 2;
    let mid = start * 5 / 4;
    let avg = (start + end + 2 * mid) / 4;
    assert_eq!(before.bits, avg * 3_155_760_000);
    assert_eq!(after.bits, 4 * avg * 3_155_760_000);
}

#[test]
fn default_configuration_at_target() {
    let input = default_input(90.0, 3600);
    assert_eq!(calculation_exponents(&input), Ok((Fixed::zero(), Fixed::zero())));
    let (before, after) = run(&input).unwrap();
    assert_eq!(before, after);
    assert!((number(before) - 4.00).abs() < 0.005);
    assert_eq!(before.bits, 356_776 * 3_155_760_000);
    assert_eq!(format!("{:.2}", I80F48::from_bits(before.bits)), "4.00");
}

#[test]
fn default_constants_over_an_hour_at_full_utilization() {
    let (avg, applied) = run_defaults(Fixed::one(), 3600);
    assert_eq!(applied.bits, 4 * avg.bits);
    let before = number(per_second_to_annual_percent(avg).unwrap());
    let after = number(per_second_to_annual_percent(applied).unwrap());
    assert!((before - 4.00).abs() < 0.005);
    assert!((after - 16.00).abs() < 0.005);
    // The same request in percent and per year gives the same rates.
    assert_eq!(
        run(&default_input(100.0, 3600)),
        Ok((
            per_second_to_annual_percent(avg).unwrap(),
            per_second_to_annual_percent(applied).unwrap()
        ))
    );
}

#[test]
fn default_request_prepares_the_default_constants() {
    let (params, start, _) = default_input(100.0, 3600).prepare().unwrap();
    assert_eq!(params.curve_steepness, Fixed::from_int(4));
    assert_eq!(params.adjustment_speed, adjustment_speed());
    assert_eq!(params.target_utilization, target_utilization());
    assert_eq!(params.min_rate, min_rate_at_target());
    assert_eq!(params.max_rate, max_rate_at_target());
    assert_eq!(start, initial_rate_at_target());
}

#[test]
fn at_target_the_curve_changes_nothing() {
    for elapsed in [0i64, 1, 3600, 31_557_600] {
        let (avg, applied) = run_defaults(target_utilization(), elapsed);
        assert_eq!(avg, applied);
        assert_eq!(avg, initial_rate_at_target());
    }
}

#[test]
fn applied_rate_may_leave_the_bounds() {
    let (avg, applied) = run_defaults(Fixed::one(), 10 * 31_557_600);
    assert!(avg.bits <= max_rate_at_target().bits);
    assert!(applied.bits > max_rate_at_target().bits);
    // Below target the curve damps: a rate held at the lower bound leaves it.
    let min = min_rate_at_target();
    let r = calc_avg_and_end_rate(
        min,
        3600,
        Fixed::zero(),
        Fixed::from_int(4),
        adjustment_speed(),
        target_utilization(),
        min,
        max_rate_at_target(),
        fx(0.5),
        fx(0.75),
    );
    assert_eq!(r, Ok((min, Fixed::from_bits(min.bits / 4))));
}

#[test]
fn zero_start_gives_zero_before_and_after_the_curve() {
    let mut input = default_input(100.0, 3600);
    input.initial_rate = fx(0.0);
    assert_eq!(calculation_exponents(&input), Ok((Fixed::zero(), Fixed::zero())));
    assert_eq!(run(&input), Ok((Fixed::zero(), Fixed::zero())));
    assert_eq!(calculate(&input, fx(9.0), fx(3.0)), Ok((Fixed::zero(), Fixed::zero())));
}

#[test]
fn calc_returns_the_average_and_the_applied_rate() {
    // start 8, growth 3 and 2: average 16; error one half, steepness 4:
    // (3 * 0.5 + 1) * 16 = 40.
    let r = calc_avg_and_end_rate(
        fx(8.0),
        1,
        fx(0.75),
        fx(4.0),
        fx(0.5),
        fx(0.5),
        fx(0.0),
        fx(100.0),
        fx(3.0),
        fx(2.0),
    );
    assert_eq!(r, Ok((fx(16.0), fx(40.0))));
    // Below target: error minus one half, (0.75 * -0.5 + 1) * 16 = 10.
    let r = calc_avg_and_end_rate(
        fx(8.0),
        1,
        fx(0.25),
        fx(4.0),
        fx(0.5),
        fx(0.5),
        fx(0.0),
        fx(100.0),
        fx(3.0),
        fx(2.0),
    );
    assert_eq!(r, Ok((fx(16.0), fx(10.0))));
}

#[test]
fn calc_rejects_an_invalid_configuration() {
    let one = Fixed::one();
    let call = |elapsed: i64, steepness: Fixed, target: Fixed| {
        calc_avg_and_end_rate(
            fx(8.0),
            elapsed,
            fx(0.75),
            steepness,
            fx(0.5),
            target,
            fx(0.0),
            fx(100.0),
            one,
            one,
        )
    };
    assert_eq!(call(1, fx(4.0), Fixed::zero()), Err(RateError::InvalidConfiguration));
    assert_eq!(call(1, fx(4.0), Fixed::one()), Err(RateError::InvalidConfiguration));
    assert_eq!(call(1, Fixed::zero(), fx(0.5)), Err(RateError::InvalidConfiguration));
    assert_eq!(call(-1, fx(4.0), fx(0.5)), Err(RateError::InvalidConfiguration));
    assert_eq!(call(0, fx(4.0), fx(0.5)), Ok((fx(8.0), fx(20.0))));
}

#[test]
fn calc_reports_overflow() {
    let one = Fixed::one();
    let big = Fixed::from_bits(1 << 100);
    let r = calc_avg_and_end_rate(
        fx(8.0),
        1,
        fx(0.75),
        fx(4.0),
        fx(0.5),
        fx(0.5),
        fx(0.0),
        Fixed::from_bits(i128::MAX),
        big,
        one,
    );
    // 8 * 2^52 plus the rest fits the average; the curve's product does too.
    assert!(r.is_ok());
    let r = calc_avg_and_end_rate(
        fx(8.0),
        1,
        fx(0.75),
        Fixed::from_bits(i128::MAX),
        fx(0.5),
        fx(0.5),
        fx(0.0),
        fx(100.0),
        one,
        one,
    );
    assert_eq!(r, Err(RateError::Overflow));
    let r = calc_avg_and_end_rate(
        big,
        1,
        fx(0.75),
        fx(4.0),
        fx(0.5),
        fx(0.5),
        fx(0.0),
        fx(100.0),
        big,
        one,
    );
    assert_eq!(r, Err(RateError::Overflow));
}

#[test]
fn calculate_rejects_an_invalid_configuration() {
    let one = Fixed::one();
    let mut input = default_input(50.0, 3600);
    input.target_utilization = fx(100.0);
    assert_eq!(calculate(&input, one, one), Err(RateError::InvalidConfiguration));
    assert_eq!(calculation_exponents(&input), Err(RateError::InvalidConfiguration));
    input.target_utilization = fx(0.0);
    assert_eq!(calculate(&input, one, one), Err(RateError::InvalidConfiguration));
    input.target_utilization = fx(90.0);
    input.curve_steepness = fx(0.0);
    assert_eq!(calculate(&input, one, one), Err(RateError::InvalidConfiguration));
    input.curve_steepness = fx(4.0);
    input.elapsed_time_seconds = -5;
    assert_eq!(calculate(&input, one, one), Err(RateError::InvalidConfiguration));
    assert_eq!(calculation_exponents(&input), Err(RateError::InvalidConfiguration));
}

#[test]
fn calculate_reports_overflow() {
    let mut input = default_input(100.0, 3600);
    input.initial_rate = Fixed::from_bits(i128::MAX);
    input.max_rate = Fixed::from_bits(i128::MAX);
    // The rate per second fits, its annual percentage times four does not.
    assert_eq!(calculate(&input, Fixed::one(), Fixed::one()), Err(RateError::Overflow));
    let mut input = default_input(100.0, i64::MAX);
    input.adjustment_speed = Fixed::from_bits(i128::MAX);
    assert_eq!(calculation_exponents(&input), Err(RateError::Overflow));
    assert_eq!(calculate(&input, Fixed::one(), Fixed::one()), Err(RateError::Overflow));
}
