//! The record of a bonding-curve asset, and what it decides about a mint or a
//! trade.

use vstd::prelude::*;
use sp_runtime::traits::CheckedAdd;
use crate::curves::{lemma_power_integral_monotonic, power_integral, power_integral_fits, CurveConfig, CurveType, Linear};
use crate::errors::{ArithmeticError, DispatchError, Error};
use crate::types::{AccountId, Balance, CurrencyId};

verus! {

/// The mint bookkeeping of an asset.
#[derive(Clone, Copy, Debug, PartialEq, Eq, Structural)]
pub struct MintingData {
    /// The account that may mint.
    pub minter: AccountId,
    /// The ceiling on the amount that the minter may mint.
    pub minting_cap: Option<Balance>,
    /// The running total of what the minter has minted; `None` until the
    /// first mint.
    pub current_mint_amount: Option<Balance>,
}

/// The record of one bonding-curve asset.
#[derive(Debug, PartialEq, Eq)]
pub struct BondingToken {
    /// The creator of the bonding curve.
    pub creator: AccountId,
    /// The asset id of the bonding-curve token.
    pub asset_id: CurrencyId,
    /// The curve that prices the token.
    pub curve: CurveType,
    /// The maximum supply that can be minted from the curve.
    pub max_supply: Balance,
    /// The token name.
    pub token_name: Vec<u8>,
    /// The token symbol.
    pub token_symbol: Vec<u8>,
    /// The token decimals.
    pub token_decimals: u8,
    /// The sequential index of the bonding curve.
    pub curve_id: u64,
    /// The mint bookkeeping.
    pub mint_data: MintingData,
}

/// A bonding-curve record as a plain value.
pub struct BondingTokenView {
    pub creator: AccountId,
    pub asset_id: CurrencyId,
    pub curve: CurveType,
    pub max_supply: Balance,
    pub token_name: Seq<u8>,
    pub token_symbol: Seq<u8>,
    pub token_decimals: u8,
    pub curve_id: u64,
    pub mint_data: MintingData,
}

/// The exponent and the slope of the curve model of a family, for the
/// families that have one: the linear family has the default linear curve.
pub open spec fn curve_model(curve: CurveType) -> Option<(nat, nat)> {
    match curve {
        CurveType::Linear => Some((1, 1)),
        _ => None,
    }
}

/// The difference of the integral of a power curve between two issuance
/// points, or an overflow error where the integral at the upper point cannot
/// be computed.
pub open spec fn integral_difference(exponent: nat, slope: nat, lower: nat, upper: nat) -> Result<
    Balance,
    DispatchError,
> {
    if !power_integral_fits(exponent, slope, upper) {
        Err(DispatchError::Arithmetic(ArithmeticError::Overflow))
    } else {
        Ok((power_integral(exponent, slope, upper) - power_integral(exponent, slope, lower)) as Balance)
    }
}

impl BondingTokenView {
    /// The ceiling on the minted total: the minting cap, or the maximum
    /// supply where no cap is set.
    pub open spec fn cap(self) -> Balance {
        match self.mint_data.minting_cap {
            Some(cap) => cap,
            None => self.max_supply,
        }
    }

    /// The invariant of a record: the minting cap does not exceed the maximum
    /// supply, and the minted total does not exceed the cap.
    pub open spec fn wf(self) -> bool {
        &&& self.cap() <= self.max_supply
        &&& match self.mint_data.current_mint_amount {
            Some(minted) => minted <= self.cap(),
            None => true,
        }
    }

    /// The record with its mint bookkeeping replaced.
    pub open spec fn with_mint_data(self, mint_data: MintingData) -> BondingTokenView {
        BondingTokenView { mint_data, ..self }
    }

    /// The mint bookkeeping after `who` minted `amount`, or why the mint is
    /// refused.
    pub open spec fn mint_result(self, who: AccountId, amount: Balance) -> Result<MintingData, Error> {
        let minted: Balance = match self.mint_data.current_mint_amount {
            Some(minted) => minted,
            None => 0,
        };
        if who != self.mint_data.minter {
            Err(Error::InvalidMinter)
        } else if minted + amount > u128::MAX {
            Err(Error::MintAmountOverflow)
        } else if minted + amount > self.cap() {
            Err(Error::MintAmountGreaterThanMaxSupply)
        } else {
            Ok(MintingData { current_mint_amount: Some((minted + amount) as Balance), ..self.mint_data })
        }
    }

    /// The cost of buying `amount` at the issuance `issuance_before`, or why
    /// the purchase is refused.
    pub open spec fn buy_cost(self, issuance_before: Balance, amount: Balance) -> Result<Balance, DispatchError> {
        match self.mint_data.current_mint_amount {
            None => Err(DispatchError::Module(Error::MintUninitiated)),
            Some(minted) => {
                if amount >= minted || issuance_before + amount > self.cap() {
                    Err(DispatchError::Module(Error::MintAmountGreaterThanMaxSupply))
                } else {
                    match curve_model(self.curve) {
                        None => Err(DispatchError::Module(Error::CurveTypeNotDefined)),
                        Some((exponent, slope)) => integral_difference(
                            exponent,
                            slope,
                            issuance_before as nat,
                            (issuance_before + amount) as nat,
                        ),
                    }
                }
            },
        }
    }

    /// The cost of buying `amount` for a buyer who holds `buyer_free` of the
    /// reserve currency: the purchase is refused where the buyer cannot afford
    /// the cost.
    pub open spec fn buy_quote(self, issuance_before: Balance, amount: Balance, buyer_free: Balance) -> Result<
        Balance,
        DispatchError,
    > {
        match self.buy_cost(issuance_before, amount) {
            Err(e) => Err(e),
            Ok(cost) => if buyer_free < cost {
                Err(DispatchError::Module(Error::InsufficientBalanceForPurchase))
            } else {
                Ok(cost)
            },
        }
    }

    /// The refund for selling `amount` at the issuance `issuance_before`, or
    /// why the sale is refused.
    pub open spec fn sell_return(self, issuance_before: Balance, amount: Balance) -> Result<Balance, DispatchError> {
        if amount > issuance_before {
            Err(DispatchError::Arithmetic(ArithmeticError::Underflow))
        } else {
            match curve_model(self.curve) {
                None => Err(DispatchError::Module(Error::CurveTypeNotDefined)),
                Some((exponent, slope)) => integral_difference(
                    exponent,
                    slope,
                    (issuance_before - amount) as nat,
                    issuance_before as nat,
                ),
            }
        }
    }

    /// The spot price at the issuance `issuance`: the integral of the curve
    /// there.
    pub open spec fn spot_price(self, issuance: Balance) -> Result<Balance, DispatchError> {
        match curve_model(self.curve) {
            None => Err(DispatchError::Module(Error::CurveTypeNotDefined)),
            Some((exponent, slope)) => if power_integral_fits(exponent, slope, issuance as nat) {
                Ok(power_integral(exponent, slope, issuance as nat) as Balance)
            } else {
                Err(DispatchError::Arithmetic(ArithmeticError::Overflow))
            },
        }
    }

    /// A purchase stays within the supply: where `amount` can be bought at the
    /// issuance `issuance`, it is less than the minted total, and the issuance
    /// after the purchase does not exceed the cap.
    pub proof fn lemma_buy_within_cap(self, issuance: Balance, amount: Balance)
        requires
            self.buy_cost(issuance, amount) is Ok,
        ensures
            self.mint_data.current_mint_amount is Some,
            amount < self.mint_data.current_mint_amount->Some_0,
            issuance + amount <= self.cap(),
    {
    }

    /// Buying and selling back is exact: where `amount` can be bought at the
    /// issuance `issuance`, selling it at the issuance after the purchase
    /// refunds the cost.
    pub proof fn lemma_round_trip(self, issuance: Balance, amount: Balance)
        requires
            self.buy_cost(issuance, amount) is Ok,
        ensures
            issuance + amount <= u128::MAX,
            self.sell_return((issuance + amount) as Balance, amount) == self.buy_cost(issuance, amount),
    {
    }

    /// The cost of a purchase grows with the amount bought: buying never
    /// lowers the price.
    pub proof fn lemma_buy_cost_monotonic(self, issuance: Balance, smaller: Balance, larger: Balance)
        requires
            smaller <= larger,
            self.buy_cost(issuance, smaller) is Ok,
            self.buy_cost(issuance, larger) is Ok,
        ensures
            self.buy_cost(issuance, smaller)->Ok_0 <= self.buy_cost(issuance, larger)->Ok_0,
    {
        let (exponent, slope) = curve_model(self.curve)->Some_0;
        lemma_power_integral_monotonic(exponent, slope, issuance as nat, (issuance + smaller) as nat);
        lemma_power_integral_monotonic(exponent, slope, issuance as nat, (issuance + larger) as nat);
        lemma_power_integral_monotonic(exponent, slope, (issuance + smaller) as nat, (issuance + larger) as nat);
    }

    /// Only the minter mints: a mint by anyone else is refused.
    pub proof fn lemma_mint_by_other_refused(self, who: AccountId, amount: Balance)
        requires
            who != self.mint_data.minter,
        ensures
            self.mint_result(who, amount) == Err::<MintingData, Error>(Error::InvalidMinter),
    {
    }

    /// Mints add up: after the minter minted `first` and then `second`, the
    /// minted total is what it was plus both amounts; and the second mint is
    /// refused with an overflow error where that sum exceeds 128 bits.
    pub proof fn lemma_mint_accumulates(self, first: Balance, second: Balance)
        requires
            self.mint_result(self.mint_data.minter, first) is Ok,
        ensures
            ({
                let minter = self.mint_data.minter;
                let before: Balance = match self.mint_data.current_mint_amount {
                    Some(minted) => minted,
                    None => 0,
                };
                let once = self.with_mint_data(self.mint_result(minter, first)->Ok_0);
                &&& once.mint_data.current_mint_amount == Some((before + first) as Balance)
                &&& before + first <= self.cap()
                &&& once.mint_result(minter, second) is Ok ==> once.mint_result(
                    minter,
                    second,
                )->Ok_0.current_mint_amount == Some((before + first + second) as Balance)
                &&& before + first + second > u128::MAX ==> once.mint_result(minter, second) == Err::<
                    MintingData,
                    Error,
                >(Error::MintAmountOverflow)
            }),
    {
    }

    /// A mint keeps a well-formed record well formed.
    pub proof fn lemma_mint_preserves_wf(self, who: AccountId, amount: Balance)
        requires
            self.wf(),
            self.mint_result(who, amount) is Ok,
        ensures
            self.with_mint_data(self.mint_result(who, amount)->Ok_0).wf(),
    {
    }
}

impl View for BondingToken {
    type V = BondingTokenView;

    open spec fn view(&self) -> BondingTokenView {
        BondingTokenView {
            creator: self.creator,
            asset_id: self.asset_id,
            curve: self.curve,
            max_supply: self.max_supply,
            token_name: self.token_name@,
            token_symbol: self.token_symbol@,
            token_decimals: self.token_decimals,
            curve_id: self.curve_id,
            mint_data: self.mint_data,
        }
    }
}

impl Clone for BondingToken {
    fn clone(&self) -> (r: Self)
        ensures
            r@ == self@,
    {
        let token_name = self.token_name.clone();
        let token_symbol = self.token_symbol.clone();
        assert(token_name@ =~= self.token_name@);
        assert(token_symbol@ =~= self.token_symbol@);
        BondingToken {
            creator: self.creator,
            asset_id: self.asset_id,
            curve: self.curve,
            max_supply: self.max_supply,
            token_name,
            token_symbol,
            token_decimals: self.token_decimals,
            curve_id: self.curve_id,
            mint_data: self.mint_data,
        }
    }
}

impl BondingToken {
    /// The curve model of the record: the default linear curve for the linear
    /// family, and no model for the others.
    pub fn get_curve_config(&self) -> (r: Result<Linear, Error>)
        ensures
            match curve_model(self.curve) {
                Some((exponent, slope)) => r is Ok && r->Ok_0.exponent() == exponent && r->Ok_0.slope() == slope,
                None => r == Err::<Linear, Error>(Error::CurveTypeNotDefined),
            },
    {
        match self.curve {
            CurveType::Linear => Ok(Linear::default()),
            _ => Err(Error::CurveTypeNotDefined),
        }
    }

    /// The mint bookkeeping after `who` minted `amount`. Only the minter may
    /// mint, the running total is added up with a checked addition, and it may
    /// not exceed the cap.
    pub fn mint(&self, who: AccountId, amount: Balance) -> (r: Result<MintingData, Error>)
        ensures
            r == self@.mint_result(who, amount),
    {
        if who != self.mint_data.minter {
            return Err(Error::InvalidMinter);
        }
        let new_amount: Balance = match self.mint_data.current_mint_amount {
            Some(previous) => match CheckedAdd::checked_add(&previous, &amount) {
                Some(new_amount) => new_amount,
                None => {
                    return Err(Error::MintAmountOverflow);
                },
            },
            None => amount,
        };
        let cap: Balance = match self.mint_data.minting_cap {
            Some(cap) => cap,
            None => self.max_supply,
        };
        if new_amount > cap {
            return Err(Error::MintAmountGreaterThanMaxSupply);
        }
        Ok(
            MintingData {
                minter: self.mint_data.minter,
                minting_cap: self.mint_data.minting_cap,
                current_mint_amount: Some(new_amount),
            },
        )
    }

    /// The cost of buying `amount` while the ledger reports the issuance
    /// `issuance_before`: the integral after the trade less the integral
    /// before it.
    pub fn buy_cost(&self, issuance_before: Balance, amount: Balance) -> (r: Result<Balance, DispatchError>)
        ensures
            r == self@.buy_cost(issuance_before, amount),
    {
        let minted: Balance = match self.mint_data.current_mint_amount {
            Some(minted) => minted,
            None => {
                return Err(DispatchError::Module(Error::MintUninitiated));
            },
        };
        if amount >= minted {
            return Err(DispatchError::Module(Error::MintAmountGreaterThanMaxSupply));
        }
        let cap: Balance = match self.mint_data.minting_cap {
            Some(cap) => cap,
            None => self.max_supply,
        };
        let issuance_after: Balance = match issuance_before.checked_add(amount) {
            Some(issuance_after) => issuance_after,
            None => {
                return Err(DispatchError::Module(Error::MintAmountGreaterThanMaxSupply));
            },
        };
        if issuance_after > cap {
            return Err(DispatchError::Module(Error::MintAmountGreaterThanMaxSupply));
        }
        let curve = match self.get_curve_config() {
            Ok(curve) => curve,
            Err(e) => {
                return Err(DispatchError::Module(e));
            },
        };
        proof {
            curve.lemma_integral_monotonic(issuance_before as nat, issuance_after as nat);
        }
        let integral_before: Balance = match curve.integral_before(issuance_before) {
            Ok(value) => value,
            Err(e) => {
                return Err(DispatchError::Arithmetic(e));
            },
        };
        let integral_after: Balance = match curve.integral_after(issuance_after) {
            Ok(value) => value,
            Err(e) => {
                return Err(DispatchError::Arithmetic(e));
            },
        };
        match integral_after.checked_sub(integral_before) {
            Some(cost) => Ok(cost),
            None => Err(DispatchError::Arithmetic(ArithmeticError::Underflow)),
        }
    }

    /// The cost of buying `amount` for a buyer who holds `buyer_free` of the
    /// reserve currency, while the ledger reports the issuance
    /// `issuance_before`.
    pub fn buy_quote(&self, issuance_before: Balance, amount: Balance, buyer_free: Balance) -> (r: Result<
        Balance,
        DispatchError,
    >)
        ensures
            r == self@.buy_quote(issuance_before, amount, buyer_free),
    {
        match self.buy_cost(issuance_before, amount) {
            Ok(cost) => if buyer_free < cost {
                Err(DispatchError::Module(Error::InsufficientBalanceForPurchase))
            } else {
                Ok(cost)
            },
            Err(e) => Err(e),
        }
    }

    /// The refund for selling `amount` while the ledger reports the issuance
    /// `issuance_before`: the integral before the trade less the integral
    /// after it.
    pub fn sell_return(&self, issuance_before: Balance, amount: Balance) -> (r: Result<Balance, DispatchError>)
        ensures
            r == self@.sell_return(issuance_before, amount),
    {
        let issuance_after: Balance = match issuance_before.checked_sub(amount) {
            Some(issuance_after) => issuance_after,
            None => {
                return Err(DispatchError::Arithmetic(ArithmeticError::Underflow));
            },
        };
        let curve = match self.get_curve_config() {
            Ok(curve) => curve,
            Err(e) => {
                return Err(DispatchError::Module(e));
            },
        };
        proof {
            curve.lemma_integral_monotonic(issuance_after as nat, issuance_before as nat);
        }
        let integral_before: Balance = match curve.integral_before(issuance_before) {
            Ok(value) => value,
            Err(e) => {
                return Err(DispatchError::Arithmetic(e));
            },
        };
        let integral_after: Balance = match curve.integral_after(issuance_after) {
            Ok(value) => value,
            Err(e) => {
                return Err(DispatchError::Arithmetic(e));
            },
        };
        match integral_before.checked_sub(integral_after) {
            Some(refund) => Ok(refund),
            None => Err(DispatchError::Arithmetic(ArithmeticError::Underflow)),
        }
    }

    /// The spot price while the ledger reports the issuance `issuance`: the
    /// integral of the curve there.
    pub fn spot_price(&self, issuance: Balance) -> (r: Result<Balance, DispatchError>)
        ensures
            r == self@.spot_price(issuance),
    {
        let curve = match self.get_curve_config() {
            Ok(curve) => curve,
            Err(e) => {
                return Err(DispatchError::Module(e));
            },
        };
        match curve.integral_before(issuance) {
            Ok(value) => Ok(value),
            Err(e) => Err(DispatchError::Arithmetic(e)),
        }
    }
}

} // verus!
