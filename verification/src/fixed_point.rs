//! Signed fixed-point numbers with 80 integer bits and 48 fractional bits.
//!
//! A value is modelled by its raw integer: the number it stands for is
//! `raw / 2^48`. Every contract in this crate is stated over raw integers.

use vstd::prelude::*;
use vstd::pervasive::unreached;
use crate::arith::{lemma_div_whole, lemma_trunc_div_shrinks};
use crate::error::RateError;

verus! {

/// The raw integer that stands for the number one: `2^48`.
pub open spec fn scale() -> int {
    0x1_0000_0000_0000
}

/// Whether a raw integer fits in the 128 bits of a [`Fixed`].
pub open spec fn representable(x: int) -> bool {
    i128::MIN <= x <= i128::MAX
}

/// Integer division that rounds toward zero.
pub open spec fn trunc_div(n: int, d: int) -> int {
    if n >= 0 && d > 0 {
        n / d
    } else if n >= 0 {
        -(n / (-d))
    } else if d > 0 {
        -((-n) / d)
    } else {
        (-n) / (-d)
    }
}

/// Raw product of two fixed-point numbers: the exact product, rounded down
/// to a multiple of `2^-48`.
pub open spec fn mul_raw(a: int, b: int) -> int {
    (a * b) / scale()
}

/// Raw quotient of two fixed-point numbers: the exact quotient, rounded
/// toward zero to a multiple of `2^-48`.
pub open spec fn div_raw(a: int, b: int) -> int {
    trunc_div(a * scale(), b)
}

/// The larger of `x` and `lo`, then the smaller of that and `hi`.
///
/// When `lo <= hi` this is the point of `[lo, hi]` nearest to `x`; when
/// `lo > hi` it is `hi`.
pub open spec fn clamp_raw(x: int, lo: int, hi: int) -> int {
    let raised = if x < lo { lo } else { x };
    if raised > hi { hi } else { raised }
}

/// A signed fixed-point number with 48 fractional bits.
#[derive(Debug, Clone, Copy, PartialEq, Eq, Structural)]
pub struct Fixed {
    /// The raw integer: the number times `2^48`.
    pub bits: i128,
}

impl View for Fixed {
    type V = int;

    open spec fn view(&self) -> int {
        self.bits as int
    }
}

/// Product of two raw values, computed by `fixed::types::I80F48::checked_mul`.
///
/// That method forms the exact 256-bit product of the two raw integers,
/// shifts it right arithmetically by 48 bits, and returns `None` exactly
/// when the shifted value does not fit in 128 bits.
#[verifier::external_body]
fn mul_bits(a: i128, b: i128) -> (r: Option<i128>)
    ensures
        representable(mul_raw(a as int, b as int)) ==> r == Some(mul_raw(a as int, b as int) as i128),
        !representable(mul_raw(a as int, b as int)) ==> r == None::<i128>,
{
    fixed::types::I80F48::from_bits(a).checked_mul(fixed::types::I80F48::from_bits(b)).map(
        |p| p.to_bits(),
    )
}

/// Quotient of two raw values, computed by `fixed::types::I80F48::checked_div`.
///
/// That method returns `None` for a zero divisor. Otherwise it divides the
/// dividend's raw integer times `2^48`, held exactly in 256 bits, by the
/// divisor's raw integer, rounding toward zero, and returns `None` exactly
/// when the quotient does not fit in 128 bits.
#[verifier::external_body]
fn div_bits(a: i128, b: i128) -> (r: Option<i128>)
    ensures
        b != 0 && representable(div_raw(a as int, b as int)) ==> r == Some(
            div_raw(a as int, b as int) as i128,
        ),
        b == 0 || !representable(div_raw(a as int, b as int)) ==> r == None::<i128>,
{
    fixed::types::I80F48::from_bits(a).checked_div(fixed::types::I80F48::from_bits(b)).map(
        |q| q.to_bits(),
    )
}

impl Fixed {
    /// The number whose raw integer is `bits`.
    pub fn from_bits(bits: i128) -> (r: Fixed)
        ensures
            r@ == bits,
    {
        Fixed { bits }
    }

    /// The raw integer of `self`.
    pub fn to_bits(self) -> (r: i128)
        ensures
            r == self@,
    {
        self.bits
    }

    /// Zero.
    pub fn zero() -> (r: Fixed)
        ensures
            r@ == 0,
    {
        Fixed { bits: 0 }
    }

    /// One.
    pub fn one() -> (r: Fixed)
        ensures
            r@ == scale(),
    {
        Fixed { bits: 0x1_0000_0000_0000 }
    }

    /// The whole number `n`, which every `i64` is small enough for.
    pub fn from_int(n: i64) -> (r: Fixed)
        ensures
            r@ == n * scale(),
    {
        Fixed { bits: (n as i128) * 0x1_0000_0000_0000 }
    }

    /// The sum, or `Overflow` when it is not representable.
    pub fn checked_add(self, rhs: Fixed) -> (r: Result<Fixed, RateError>)
        ensures
            representable(self@ + rhs@) ==> r == Ok::<Fixed, RateError>(
                Fixed { bits: (self@ + rhs@) as i128 },
            ),
            !representable(self@ + rhs@) ==> r == Err::<Fixed, RateError>(RateError::Overflow),
    {
        match self.bits.checked_add(rhs.bits) {
            Some(bits) => Ok(Fixed { bits }),
            None => Err(RateError::Overflow),
        }
    }

    /// The difference, or `Overflow` when it is not representable.
    pub fn checked_sub(self, rhs: Fixed) -> (r: Result<Fixed, RateError>)
        ensures
            representable(self@ - rhs@) ==> r == Ok::<Fixed, RateError>(
                Fixed { bits: (self@ - rhs@) as i128 },
            ),
            !representable(self@ - rhs@) ==> r == Err::<Fixed, RateError>(RateError::Overflow),
    {
        match self.bits.checked_sub(rhs.bits) {
            Some(bits) => Ok(Fixed { bits }),
            None => Err(RateError::Overflow),
        }
    }

    /// The product rounded down, or `Overflow` when it is not representable.
    pub fn checked_mul(self, rhs: Fixed) -> (r: Result<Fixed, RateError>)
        ensures
            representable(mul_raw(self@, rhs@)) ==> r == Ok::<Fixed, RateError>(
                Fixed { bits: mul_raw(self@, rhs@) as i128 },
            ),
            !representable(mul_raw(self@, rhs@)) ==> r == Err::<Fixed, RateError>(
                RateError::Overflow,
            ),
    {
        match mul_bits(self.bits, rhs.bits) {
            Some(bits) => Ok(Fixed { bits }),
            None => Err(RateError::Overflow),
        }
    }

    /// The quotient rounded toward zero; `DivisionByZero` for a zero
    /// divisor, `Overflow` when the quotient is not representable.
    pub fn checked_div(self, rhs: Fixed) -> (r: Result<Fixed, RateError>)
        ensures
            rhs@ == 0 ==> r == Err::<Fixed, RateError>(RateError::DivisionByZero),
            rhs@ != 0 && representable(div_raw(self@, rhs@)) ==> r == Ok::<Fixed, RateError>(
                Fixed { bits: div_raw(self@, rhs@) as i128 },
            ),
            rhs@ != 0 && !representable(div_raw(self@, rhs@)) ==> r == Err::<Fixed, RateError>(
                RateError::Overflow,
            ),
    {
        if rhs.bits == 0 {
            return Err(RateError::DivisionByZero);
        }
        match div_bits(self.bits, rhs.bits) {
            Some(bits) => Ok(Fixed { bits }),
            None => Err(RateError::Overflow),
        }
    }

    /// The quotient by the whole number `n`, rounded toward zero. Unlike
    /// [`Fixed::checked_div`] this cannot fail: the divisor is not zero and
    /// the quotient is no further from zero than `self`.
    pub(crate) fn div_whole(self, n: i64) -> (r: Fixed)
        requires
            n > 0,
        ensures
            r@ == trunc_div(self@, n as int),
    {
        proof {
            lemma_div_whole(self@, n as int);
            lemma_trunc_div_shrinks(self@, n as int);
        }
        match self.checked_div(Fixed::from_int(n)) {
            Ok(q) => q,
            Err(_) => unreached(),
        }
    }

    /// `self` raised to at least `lo`, then lowered to at most `hi`.
    pub fn clamp(self, lo: Fixed, hi: Fixed) -> (r: Fixed)
        ensures
            r@ == clamp_raw(self@, lo@, hi@),
    {
        let raised = if self.bits < lo.bits { lo } else { self };
        if raised.bits > hi.bits { hi } else { raised }
    }
}

} // verus!
