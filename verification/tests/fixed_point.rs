use adaptive_rate::error::RateError;
use adaptive_rate::fixed_point::Fixed;
use fixed::types::I80F48;

const ONE: i128 = 1 << 48;

fn fx(v: f64) -> Fixed {
    Fixed::from_bits(I80F48::from_num(v).to_bits())
}

#[test]
fn from_int_matches_the_fixed_crate() {
    for n in [0i64, 1, -1, 2, 4, 100, 3600, 31_557_600, i64::MAX, i64::MIN] {
        assert_eq!(Fixed::from_int(n).to_bits(), I80F48::from_num(n).to_bits());
    }
    assert_eq!(Fixed::one().to_bits(), I80F48::ONE.to_bits());
    assert_eq!(Fixed::zero().to_bits(), I80F48::ZERO.to_bits());
}

#[test]
fn bits_round_trip() {
    assert_eq!(Fixed::from_bits(12345).to_bits(), 12345);
    assert_eq!(Fixed::from_bits(-7).bits, -7);
}

#[test]
fn add_and_sub_are_exact() {
    assert_eq!(fx(1.5).checked_add(fx(2.25)), Ok(fx(3.75)));
    assert_eq!(fx(1.5).checked_sub(fx(2.25)), Ok(fx(-0.75)));
}

#[test]
fn add_and_sub_report_overflow() {
    let max = Fixed::from_bits(i128::MAX);
    let min = Fixed::from_bits(i128::MIN);
    assert_eq!(max.checked_add(Fixed::from_bits(1)), Err(RateError::Overflow));
    assert_eq!(min.checked_sub(Fixed::from_bits(1)), Err(RateError::Overflow));
    assert_eq!(max.checked_add(Fixed::zero()), Ok(max));
    assert_eq!(min.checked_sub(Fixed::zero()), Ok(min));
}

#[test]
fn mul_gives_the_product() {
    assert_eq!(fx(1.5).checked_mul(fx(2.5)), Ok(fx(3.75)));
    assert_eq!(fx(-1.5).checked_mul(fx(2.5)), Ok(fx(-3.75)));
    assert_eq!(Fixed::from_int(3).checked_mul(Fixed::from_int(5)), Ok(Fixed::from_int(15)));
    assert_eq!(fx(7.0).checked_mul(Fixed::one()), Ok(fx(7.0)));
}

#[test]
fn mul_rounds_down() {
    // One unit times one half is half a unit: down to zero, or to minus one unit.
    assert_eq!(Fixed::from_bits(1).checked_mul(fx(0.5)), Ok(Fixed::from_bits(0)));
    assert_eq!(Fixed::from_bits(-1).checked_mul(fx(0.5)), Ok(Fixed::from_bits(-1)));
    assert_eq!(Fixed::from_bits(3).checked_mul(fx(0.5)), Ok(Fixed::from_bits(1)));
    assert_eq!(Fixed::from_bits(-3).checked_mul(fx(0.5)), Ok(Fixed::from_bits(-2)));
}

#[test]
fn mul_reports_overflow() {
    let max = Fixed::from_bits(i128::MAX);
    assert_eq!(max.checked_mul(Fixed::from_int(2)), Err(RateError::Overflow));
    assert_eq!(max.checked_mul(Fixed::one()), Ok(max));
    let big = Fixed::from_bits(1 << 100);
    assert_eq!(big.checked_mul(big), Err(RateError::Overflow));
    // 2^39 * 2^39 = 2^78 still has a place among 80 integer bits.
    let wide = Fixed::from_bits(1 << 87);
    assert_eq!(wide.checked_mul(wide), Ok(Fixed::from_bits(1 << 126)));
}

#[test]
fn div_gives_the_quotient() {
    assert_eq!(fx(3.75).checked_div(fx(2.5)), Ok(fx(1.5)));
    assert_eq!(fx(-3.75).checked_div(fx(2.5)), Ok(fx(-1.5)));
    assert_eq!(fx(3.75).checked_div(fx(-2.5)), Ok(fx(-1.5)));
    assert_eq!(fx(-3.75).checked_div(fx(-2.5)), Ok(fx(1.5)));
    assert_eq!(Fixed::one().checked_div(Fixed::from_int(4)), Ok(fx(0.25)));
}

#[test]
fn div_rounds_toward_zero() {
    assert_eq!(Fixed::from_bits(1).checked_div(Fixed::from_int(2)), Ok(Fixed::from_bits(0)));
    assert_eq!(Fixed::from_bits(-1).checked_div(Fixed::from_int(2)), Ok(Fixed::from_bits(0)));
    assert_eq!(Fixed::from_bits(-3).checked_div(Fixed::from_int(2)), Ok(Fixed::from_bits(-1)));
    assert_eq!(Fixed::from_bits(3).checked_div(Fixed::from_int(-2)), Ok(Fixed::from_bits(-1)));
    // One third has no exact form.
    assert_eq!(
        Fixed::one().checked_div(Fixed::from_int(3)),
        Ok(Fixed::from_bits(93_824_992_236_885))
    );
}

#[test]
fn div_reports_zero_divisor_and_overflow() {
    assert_eq!(fx(1.0).checked_div(Fixed::zero()), Err(RateError::DivisionByZero));
    assert_eq!(Fixed::zero().checked_div(Fixed::zero()), Err(RateError::DivisionByZero));
    let max = Fixed::from_bits(i128::MAX);
    assert_eq!(max.checked_div(fx(0.5)), Err(RateError::Overflow));
    assert_eq!(max.checked_div(Fixed::one()), Ok(max));
    assert_eq!(Fixed::from_bits(i128::MIN).checked_div(Fixed::from_int(-1)), Err(RateError::Overflow));
}

#[test]
fn mul_and_div_match_the_fixed_crate() {
    let samples: [i128; 9] = [
        0,
        1,
        -1,
        ONE,
        -ONE,
        356_776,
        253_327_479_039_590,
        -14_073_748_835_532_800,
        (1 << 100) + 12345,
    ];
    for a in samples {
        for b in samples {
            let fa = I80F48::from_bits(a);
            let fb = I80F48::from_bits(b);
            let product = Fixed::from_bits(a).checked_mul(Fixed::from_bits(b));
            assert_eq!(product.ok().map(|p| p.bits), fa.checked_mul(fb).map(|p| p.to_bits()));
            let quotient = Fixed::from_bits(a).checked_div(Fixed::from_bits(b));
            assert_eq!(quotient.ok().map(|q| q.bits), fa.checked_div(fb).map(|q| q.to_bits()));
        }
    }
}

#[test]
fn clamp_raises_then_lowers() {
    let lo = fx(1.0);
    let hi = fx(2.0);
    assert_eq!(fx(0.5).clamp(lo, hi), lo);
    assert_eq!(fx(1.5).clamp(lo, hi), fx(1.5));
    assert_eq!(fx(2.5).clamp(lo, hi), hi);
    assert_eq!(lo.clamp(lo, hi), lo);
    assert_eq!(hi.clamp(lo, hi), hi);
}

#[test]
fn clamp_with_bounds_out_of_order_gives_the_upper() {
    // The raise comes first, the lowering last.
    assert_eq!(fx(0.5).clamp(fx(2.0), fx(1.0)), fx(1.0));
    assert_eq!(fx(1.5).clamp(fx(2.0), fx(1.0)), fx(1.0));
    assert_eq!(fx(2.5).clamp(fx(2.0), fx(1.0)), fx(1.0));
}
