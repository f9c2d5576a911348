//! The power-curve model: token returns from a fixed-point power of a ratio.
//!
//! The model is an approximation. The ratio and the exponent are integer
//! quotients, so small ratios collapse to zero or one.

use vstd::prelude::*;
use vstd::arithmetic::power::pow;
use crate::checked::checked_pow;
use crate::errors::ArithmeticError;

verus! {

/// The largest reserve ratio, in parts per million.
pub const MAX_RESERVE_RATIO: u128 = 1000000;

/// The number of bits of fixed-point scaling.
pub const PRECISION: u128 = 10;

/// The factor that `PRECISION` bits of scaling stand for.
pub const SCALE: u128 = 1024;

/// A ratio of two bases and a ratio of two exponents.
#[allow(non_snake_case)]
#[derive(Clone, Copy, Debug, PartialEq, Eq, Structural)]
pub struct Power {
    pub base_N: u128,
    pub base_D: u128,
    pub exp_N: u128,
    pub exp_D: u128,
}

/// `((base / divisor)^(exp_n / exp_d) * 2)^precision`, with integer quotients.
///
/// The error is a division by zero where a divisor is zero, and an overflow
/// where the doubled power or the result exceeds 128 bits.
pub open spec fn scaled_power(base: u128, divisor: u128, exp_n: u128, exp_d: u128, precision: u128) -> Result<
    u128,
    ArithmeticError,
> {
    if divisor == 0 || exp_d == 0 {
        Err(ArithmeticError::DivisionByZero)
    } else {
        let doubled = pow((base / divisor) as int, (exp_n / exp_d) as nat) * 2;
        if doubled > u128::MAX || pow(doubled, precision as nat) > u128::MAX {
            Err(ArithmeticError::Overflow)
        } else {
            Ok(pow(doubled, precision as nat) as u128)
        }
    }
}

/// The tokens returned for a deposit into the reserve.
///
/// With `value` the scaled power of `(deposit_amount + reserve_balance) /
/// base_D`, the new supply is `supply * value / SCALE`, and the return is what
/// the new supply adds to `supply`.
pub open spec fn purchase_return_value(power: Power, supply: u128, reserve_balance: u128, deposit_amount: u128) -> Result<
    u128,
    ArithmeticError,
> {
    if deposit_amount == 0 {
        Ok(0)
    } else if deposit_amount + reserve_balance > u128::MAX {
        Err(ArithmeticError::Overflow)
    } else {
        match scaled_power(
            (deposit_amount + reserve_balance) as u128,
            power.base_D,
            power.exp_N,
            power.exp_D,
            PRECISION,
        ) {
            Err(e) => Err(e),
            Ok(value) => {
                if supply * value > u128::MAX {
                    Err(ArithmeticError::Overflow)
                } else if (supply * value) / (SCALE as int) < supply {
                    Err(ArithmeticError::Underflow)
                } else {
                    Ok(((supply * value) / (SCALE as int) - supply) as u128)
                }
            },
        }
    }
}

/// The reserve returned for selling tokens out of a supply that is not zero.
///
/// With `value` the scaled power of `base_N / (supply - sell_amount)`, the old
/// balance is `reserve_balance * value`, the new one `reserve_balance * SCALE`,
/// and the return is their difference divided by `reserve_balance *
/// sell_amount / supply`.
pub open spec fn sale_return_value(power: Power, supply: u128, reserve_balance: u128, sell_amount: u128) -> Result<
    u128,
    ArithmeticError,
> {
    if sell_amount == 0 {
        Ok(0)
    } else if reserve_balance * sell_amount > u128::MAX {
        Err(ArithmeticError::Overflow)
    } else if sell_amount > supply {
        Err(ArithmeticError::Underflow)
    } else {
        match scaled_power(power.base_N, (supply - sell_amount) as u128, power.exp_N, power.exp_D, PRECISION) {
            Err(e) => Err(e),
            Ok(value) => {
                let divisor = (reserve_balance * sell_amount) / (supply as int);
                if reserve_balance * value > u128::MAX || reserve_balance * SCALE > u128::MAX {
                    Err(ArithmeticError::Overflow)
                } else if reserve_balance * value < reserve_balance * SCALE {
                    Err(ArithmeticError::Underflow)
                } else if divisor == 0 {
                    Err(ArithmeticError::DivisionByZero)
                } else {
                    Ok(((reserve_balance * value - reserve_balance * SCALE) / divisor) as u128)
                }
            },
        }
    }
}

/// The inputs of a power-curve computation.
#[derive(Clone, Copy, Debug, PartialEq, Eq, Structural)]
pub struct CalculatePurchaseAndSellReturn {
    pub supply: u128,
    pub reserve_balance: u128,
    pub reserve_ratio: u128,
    pub deposit_amount: u128,
    pub power: Power,
}

fn checked_scaled_power(base: u128, divisor: u128, exp_n: u128, exp_d: u128, precision: u128) -> (r: Result<
    u128,
    ArithmeticError,
>)
    ensures
        r == scaled_power(base, divisor, exp_n, exp_d, precision),
{
    if divisor == 0 || exp_d == 0 {
        return Err(ArithmeticError::DivisionByZero);
    }
    let ratio: u128 = base / divisor;
    let exponent: u128 = exp_n / exp_d;
    let ghost inner = pow(ratio as int, exponent as nat);
    assert(inner == pow((base / divisor) as int, (exp_n / exp_d) as nat));
    let doubled: u128 = match checked_pow(ratio, exponent) {
        Some(power) => match power.checked_mul(2) {
            Some(doubled) => doubled,
            None => {
                return Err(ArithmeticError::Overflow);
            },
        },
        None => {
            return Err(ArithmeticError::Overflow);
        },
    };
    match checked_pow(doubled, precision) {
        Some(scaled) => Ok(scaled),
        None => Err(ArithmeticError::Overflow),
    }
}

impl CalculatePurchaseAndSellReturn {
    /// Whether the inputs of a return computation are in their domain.
    pub open spec fn valid_inputs(supply: u128, reserve_balance: u128, reserve_ratio: u128) -> bool {
        supply > 0 && reserve_balance > 0 && 0 < reserve_ratio <= MAX_RESERVE_RATIO
    }

    /// The scaled power of `base_N / base_D` for a purchase.
    #[allow(non_snake_case)]
    pub fn integral_purchase(&self, precision: u128, base_N: u128) -> (r: Result<u128, ArithmeticError>)
        ensures
            r == scaled_power(base_N, self.power.base_D, self.power.exp_N, self.power.exp_D, precision),
    {
        checked_scaled_power(base_N, self.power.base_D, self.power.exp_N, self.power.exp_D, precision)
    }

    /// The tokens returned for depositing `deposit_amount` into the reserve.
    /// A zero deposit returns zero.
    pub fn purchase_return(
        self,
        supply: u128,
        reserve_balance: u128,
        reserve_ratio: u128,
        deposit_amount: u128,
    ) -> (r: Result<u128, ArithmeticError>)
        requires
            Self::valid_inputs(supply, reserve_balance, reserve_ratio),
        ensures
            r == purchase_return_value(self.power, supply, reserve_balance, deposit_amount),
    {
        if deposit_amount == 0 {
            return Ok(0);
        }
        let base: u128 = match deposit_amount.checked_add(reserve_balance) {
            Some(base) => base,
            None => {
                return Err(ArithmeticError::Overflow);
            },
        };
        let value: u128 = match self.integral_purchase(PRECISION, base) {
            Ok(value) => value,
            Err(e) => {
                return Err(e);
            },
        };
        let product: u128 = match supply.checked_mul(value) {
            Some(product) => product,
            None => {
                return Err(ArithmeticError::Overflow);
            },
        };
        let new_token_supply: u128 = product >> PRECISION;
        assert(product >> 10u128 == product / 1024u128) by (bit_vector);
        match new_token_supply.checked_sub(supply) {
            Some(minted) => Ok(minted),
            None => Err(ArithmeticError::Underflow),
        }
    }

    /// The scaled power of `base_N / base_D` for a sale.
    #[allow(non_snake_case)]
    pub fn integral_sell(&self, precision: u128, base_D: u128) -> (r: Result<u128, ArithmeticError>)
        ensures
            r == scaled_power(self.power.base_N, base_D, self.power.exp_N, self.power.exp_D, precision),
    {
        checked_scaled_power(self.power.base_N, base_D, self.power.exp_N, self.power.exp_D, precision)
    }

    /// The reserve returned for selling `sell_amount` tokens. A zero sale
    /// returns zero.
    pub fn calculate_sale_return(
        self,
        supply: u128,
        reserve_balance: u128,
        reserve_ratio: u128,
        sell_amount: u128,
    ) -> (r: Result<u128, ArithmeticError>)
        requires
            Self::valid_inputs(supply, reserve_balance, reserve_ratio),
        ensures
            r == sale_return_value(self.power, supply, reserve_balance, sell_amount),
    {
        if sell_amount == 0 {
            return Ok(0);
        }
        let divisor: u128 = match reserve_balance.checked_mul(sell_amount) {
            Some(product) => product / supply,
            None => {
                return Err(ArithmeticError::Overflow);
            },
        };
        let remaining: u128 = match supply.checked_sub(sell_amount) {
            Some(remaining) => remaining,
            None => {
                return Err(ArithmeticError::Underflow);
            },
        };
        let value: u128 = match self.integral_sell(PRECISION, remaining) {
            Ok(value) => value,
            Err(e) => {
                return Err(e);
            },
        };
        let old_balance: u128 = match reserve_balance.checked_mul(value) {
            Some(old_balance) => old_balance,
            None => {
                return Err(ArithmeticError::Overflow);
            },
        };
        if reserve_balance > (u128::MAX >> PRECISION) {
            assert(reserve_balance > (u128::MAX >> 10u128) ==> reserve_balance * 1024 > u128::MAX) by (bit_vector);
            return Err(ArithmeticError::Overflow);
        }
        let new_balance: u128 = reserve_balance << PRECISION;
        assert(reserve_balance <= (u128::MAX >> 10u128) ==> (reserve_balance << 10u128) == reserve_balance
            * 1024) by (bit_vector);
        let difference: u128 = match old_balance.checked_sub(new_balance) {
            Some(difference) => difference,
            None => {
                return Err(ArithmeticError::Underflow);
            },
        };
        if divisor == 0 {
            return Err(ArithmeticError::DivisionByZero);
        }
        Ok(difference / divisor)
    }
}

} // verus!
