//! The plain value types that the engine works on.

use vstd::prelude::*;

verus! {

/// Identity of an account on the ledger.
pub type AccountId = u64;

/// Key of a currency: the reserve currency or a bonding-curve asset.
pub type CurrencyId = u128;

/// An amount of any currency.
pub type Balance = u128;

} // verus!
