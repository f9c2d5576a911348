//! Checked arithmetic on 128-bit amounts.

use vstd::prelude::*;
use vstd::arithmetic::power::*;
use vstd::arithmetic::mul::*;
use sp_runtime::traits::CheckedAdd;

verus! {

/// `CheckedAdd::checked_add` of `sp_runtime::traits`, at `u128`: the sum of the
/// two numbers where it fits in 128 bits, and `None` where it does not.
pub assume_specification[ <u128 as CheckedAdd>::checked_add ](a: &u128, b: &u128) -> (r: Option<u128>)
    ensures
        r == (if *a + *b > u128::MAX { None } else { Some((*a + *b) as u128) }),
;

/// A base raised to a power grows with the base.
pub proof fn lemma_pow_base_monotonic(a: nat, b: nat, e: nat)
    requires
        a <= b,
    ensures
        0 <= pow(a as int, e) <= pow(b as int, e),
    decreases e,
{
    reveal(pow);
    if e > 0 {
        lemma_pow_base_monotonic(a, b, (e - 1) as nat);
        lemma_mul_upper_bound(a as int, b as int, pow(a as int, (e - 1) as nat), pow(b as int, (e - 1) as nat));
        lemma_mul_nonnegative(a as int, pow(a as int, (e - 1) as nat));
    }
}

/// `base` to the power `exp`, or `None` where that exceeds 128 bits.
pub fn checked_pow(base: u128, exp: u128) -> (r: Option<u128>)
    ensures
        0 <= pow(base as int, exp as nat),
        r == (if pow(base as int, exp as nat) > u128::MAX {
            None
        } else {
            Some(pow(base as int, exp as nat) as u128)
        }),
{
    proof {
        lemma_pow_base_monotonic(0, base as nat, exp as nat);
    }
    if exp == 0 {
        proof {
            lemma_pow0(base as int);
        }
        return Some(1);
    }
    if base <= 1 {
        proof {
            if base == 0 {
                lemma0_pow(exp as nat);
            } else {
                lemma1_pow(exp as nat);
            }
        }
        return Some(base);
    }
    let mut acc: u128 = 1;
    let mut i: u128 = 0;
    proof {
        lemma_pow0(base as int);
    }
    while i < exp
        invariant
            i <= exp,
            base >= 2,
            acc == pow(base as int, i as nat),
        decreases exp - i,
    {
        proof {
            reveal(pow);
            assert(pow(base as int, (i + 1) as nat) == base * pow(base as int, i as nat));
            lemma_mul_is_commutative(base as int, acc as int);
        }
        match acc.checked_mul(base) {
            Some(next) => {
                acc = next;
                i = i + 1;
            },
            None => {
                proof {
                    lemma_pow_increases(base as nat, (i + 1) as nat, exp as nat);
                }
                return None;
            },
        }
    }
    Some(acc)
}

} // verus!
