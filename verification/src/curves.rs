//! Curve models: the integral of a price curve at an issuance point.

use vstd::prelude::*;
use vstd::arithmetic::power::*;
use vstd::arithmetic::mul::*;
use vstd::arithmetic::div_mod::*;
use crate::checked::{checked_pow, lemma_pow_base_monotonic};
use crate::errors::ArithmeticError;

verus! {

/// The integral of the curve `slope * x^exponent` from zero to `x`, rounded
/// down: `x^(exponent + 1) * slope / (exponent + 1)`.
pub open spec fn power_integral(exponent: nat, slope: nat, x: nat) -> nat {
    ((pow(x as int, exponent + 1) * slope) / (exponent + 1) as int) as nat
}

/// Whether the integral at `x` can be computed in 128 bits: the product
/// `x^(exponent + 1) * slope` has to fit.
pub open spec fn power_integral_fits(exponent: nat, slope: nat, x: nat) -> bool {
    pow(x as int, exponent + 1) * slope <= u128::MAX
}

/// The integral of a power curve never decreases as the issuance grows.
pub proof fn lemma_power_integral_monotonic(exponent: nat, slope: nat, a: nat, b: nat)
    requires
        a <= b,
    ensures
        power_integral(exponent, slope, a) <= power_integral(exponent, slope, b),
        power_integral_fits(exponent, slope, b) ==> power_integral_fits(exponent, slope, a),
        power_integral_fits(exponent, slope, b) ==> power_integral(exponent, slope, b) <= u128::MAX,
{
    lemma_pow_base_monotonic(a, b, exponent + 1);
    let pa = pow(a as int, exponent + 1);
    let pb = pow(b as int, exponent + 1);
    lemma_mul_inequality(pa, pb, slope as int);
    lemma_mul_nonnegative(pa, slope as int);
    lemma_mul_nonnegative(pb, slope as int);
    lemma_div_is_ordered(pa * slope, pb * slope, (exponent + 1) as int);
    lemma_div_pos_is_pos(pa * slope, (exponent + 1) as int);
    lemma_div_pos_is_pos(pb * slope, (exponent + 1) as int);
    lemma_div_nonincreasing(pb * slope, (exponent + 1) as int);
}

/// The integral at `x` in 128-bit arithmetic.
fn checked_power_integral(exponent: u32, slope: u128, x: u128) -> (r: Result<u128, ArithmeticError>)
    ensures
        r == (if power_integral_fits(exponent as nat, slope as nat, x as nat) {
            Ok(power_integral(exponent as nat, slope as nat, x as nat) as u128)
        } else {
            Err(ArithmeticError::Overflow)
        }),
        r is Ok ==> r->Ok_0 == power_integral(exponent as nat, slope as nat, x as nat),
{
    let nexp: u128 = exponent as u128 + 1;
    proof {
        lemma_power_integral_monotonic(exponent as nat, slope as nat, x as nat, x as nat);
    }
    match checked_pow(x, nexp) {
        Some(power) => match power.checked_mul(slope) {
            Some(product) => Ok(product / nexp),
            None => Err(ArithmeticError::Overflow),
        },
        None => {
            proof {
                if slope == 0 {
                    lemma_mul_basics(pow(x as int, nexp as nat));
                } else {
                    lemma_mul_increases(slope as int, pow(x as int, nexp as nat));
                    lemma_mul_is_commutative(slope as int, pow(x as int, nexp as nat));
                }
            }
            if slope == 0 {
                Ok(0)
            } else {
                Err(ArithmeticError::Overflow)
            }
        },
    }
}


/// A curve model: what the engine asks of a curve when it prices a trade.
///
/// Both methods evaluate the same integral. They differ in the issuance that
/// the caller hands them: the one before the trade, and the one after it.
pub trait CurveConfig {
    /// The integral of the curve from zero to `issuance`.
    spec fn integral_at(&self, issuance: nat) -> nat;

    /// Whether the integral at `issuance` can be computed in 128 bits.
    spec fn computable_at(&self, issuance: nat) -> bool;

    /// The integral at the issuance before a trade.
    fn integral_before(&self, issuance: u128) -> (r: Result<u128, ArithmeticError>)
        ensures
            r is Ok <==> self.computable_at(issuance as nat),
            r is Ok ==> r->Ok_0 == self.integral_at(issuance as nat),
            r is Err ==> r->Err_0 == ArithmeticError::Overflow,
    ;

    /// The integral at the issuance after a trade.
    fn integral_after(&self, issuance: u128) -> (r: Result<u128, ArithmeticError>)
        ensures
            r is Ok <==> self.computable_at(issuance as nat),
            r is Ok ==> r->Ok_0 == self.integral_at(issuance as nat),
            r is Err ==> r->Err_0 == ArithmeticError::Overflow,
    ;
}

/// The family that a curve belongs to.
#[derive(Clone, Copy, Debug, PartialEq, Eq, Structural)]
pub enum CurveType {
    Linear,
    Exponential,
    Flat,
    Logarithmic,
}

impl CurveType {
    /// The nominal reserve ratio of the family, as numerator and denominator.
    pub open spec fn reserve_ratio(self) -> (u128, u128) {
        match self {
            CurveType::Exponential => (10, 100),
            CurveType::Flat => (100, 100),
            CurveType::Linear => (50, 100),
            CurveType::Logarithmic => (90, 100),
        }
    }

    /// The nominal reserve ratio of the family, as numerator and denominator.
    pub fn get_reserve_ratio(&self) -> (r: (u128, u128))
        ensures
            r == self.reserve_ratio(),
    {
        match self {
            CurveType::Exponential => (10, 100),
            CurveType::Flat => (100, 100),
            CurveType::Linear => (50, 100),
            CurveType::Logarithmic => (90, 100),
        }
    }
}

/// The curve `slope * x^exponent`, whose price grows with the issuance.
#[derive(Clone, Copy, Debug, PartialEq, Eq, Structural)]
pub struct Linear {
    exponent: u32,
    slope: u128,
}

impl Linear {
    /// The exponent of the curve.
    pub closed spec fn exponent(self) -> nat {
        self.exponent as nat
    }

    /// The slope of the curve.
    pub closed spec fn slope(self) -> nat {
        self.slope as nat
    }

    /// The integral of the curve from zero to `x`.
    pub open spec fn integral_value(self, x: nat) -> nat {
        power_integral(self.exponent(), self.slope(), x)
    }

    /// Whether the integral at `x` can be computed in 128 bits.
    pub open spec fn integral_fits(self, x: nat) -> bool {
        power_integral_fits(self.exponent(), self.slope(), x)
    }

    pub fn new(exponent: u32, slope: u128) -> (r: Self)
        ensures
            r.exponent() == exponent,
            r.slope() == slope,
    {
        Self { exponent, slope }
    }

    /// Integral when the curve is at point `x`, or an overflow error where
    /// `x^(exponent + 1) * slope` exceeds 128 bits.
    pub fn integral(&self, x: u128) -> (r: Result<u128, ArithmeticError>)
        ensures
            r is Ok <==> self.integral_fits(x as nat),
            r is Ok ==> r->Ok_0 == self.integral_value(x as nat),
            r is Err ==> r->Err_0 == ArithmeticError::Overflow,
    {
        checked_power_integral(self.exponent, self.slope, x)
    }

    /// The integral never decreases as the issuance grows, and where it can be
    /// computed at an issuance it can be computed at every smaller one.
    pub proof fn lemma_integral_monotonic(self, a: nat, b: nat)
        requires
            a <= b,
        ensures
            self.integral_value(a) <= self.integral_value(b),
            self.integral_fits(b) ==> self.integral_fits(a),
    {
        lemma_power_integral_monotonic(self.exponent(), self.slope(), a, b);
    }
}

impl Default for Linear {
    /// The curve with exponent 1 and slope 1, whose integral is `x^2 / 2`.
    fn default() -> (r: Self)
        ensures
            r.exponent() == 1,
            r.slope() == 1,
    {
        Self { exponent: 1, slope: 1 }
    }
}

impl CurveConfig for Linear {
    open spec fn integral_at(&self, issuance: nat) -> nat {
        self.integral_value(issuance)
    }

    open spec fn computable_at(&self, issuance: nat) -> bool {
        self.integral_fits(issuance)
    }

    fn integral_before(&self, issuance: u128) -> (r: Result<u128, ArithmeticError>) {
        self.integral(issuance)
    }

    fn integral_after(&self, issuance: u128) -> (r: Result<u128, ArithmeticError>) {
        self.integral(issuance)
    }
}

/// The curve `slope * x^exponent` under its second name.
#[derive(Clone, Copy, Debug, PartialEq, Eq, Structural)]
pub struct Constant {
    exponent: u32,
    slope: u128,
}

impl Constant {
    /// The exponent of the curve.
    pub closed spec fn exponent(self) -> nat {
        self.exponent as nat
    }

    /// The slope of the curve.
    pub closed spec fn slope(self) -> nat {
        self.slope as nat
    }

    /// The integral of the curve from zero to `x`.
    pub open spec fn integral_value(self, x: nat) -> nat {
        power_integral(self.exponent(), self.slope(), x)
    }

    /// Whether the integral at `x` can be computed in 128 bits.
    pub open spec fn integral_fits(self, x: nat) -> bool {
        power_integral_fits(self.exponent(), self.slope(), x)
    }

    pub fn new(exponent: u32, slope: u128) -> (r: Self)
        ensures
            r.exponent() == exponent,
            r.slope() == slope,
    {
        Self { exponent, slope }
    }

    /// Integral when the curve is at point `x`, or an overflow error where
    /// `x^(exponent + 1) * slope` exceeds 128 bits.
    pub fn integral(&self, x: u128) -> (r: Result<u128, ArithmeticError>)
        ensures
            r is Ok <==> self.integral_fits(x as nat),
            r is Ok ==> r->Ok_0 == self.integral_value(x as nat),
            r is Err ==> r->Err_0 == ArithmeticError::Overflow,
    {
        checked_power_integral(self.exponent, self.slope, x)
    }

    /// The integral never decreases as the issuance grows, and where it can be
    /// computed at an issuance it can be computed at every smaller one.
    pub proof fn lemma_integral_monotonic(self, a: nat, b: nat)
        requires
            a <= b,
        ensures
            self.integral_value(a) <= self.integral_value(b),
            self.integral_fits(b) ==> self.integral_fits(a),
    {
        lemma_power_integral_monotonic(self.exponent(), self.slope(), a, b);
    }
}

impl Default for Constant {
    /// The curve with exponent 1 and slope 1.
    fn default() -> (r: Self)
        ensures
            r.exponent() == 1,
            r.slope() == 1,
    {
        Self { exponent: 1, slope: 1 }
    }
}

impl CurveConfig for Constant {
    open spec fn integral_at(&self, issuance: nat) -> nat {
        self.integral_value(issuance)
    }

    open spec fn computable_at(&self, issuance: nat) -> bool {
        self.integral_fits(issuance)
    }

    fn integral_before(&self, issuance: u128) -> (r: Result<u128, ArithmeticError>) {
        self.integral(issuance)
    }

    fn integral_after(&self, issuance: u128) -> (r: Result<u128, ArithmeticError>) {
        self.integral(issuance)
    }
}

} // verus!
