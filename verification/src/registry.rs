//! The registry of bonding-curve assets: one record per asset id, and the
//! counter that numbers the curves.

use std::collections::HashMap;
use vstd::prelude::*;
use vstd::std_specs::hash::*;
use crate::curves::CurveType;
use crate::errors::{ArithmeticError, DispatchError, Error};
use crate::token::{BondingToken, BondingTokenView, MintingData};
use crate::types::{AccountId, Balance, CurrencyId};

verus! {

broadcast use group_hash_axioms;

/// What a registry holds: the records by asset id, and the next curve id.
pub struct RegistryView {
    pub tokens: Map<CurrencyId, BondingTokenView>,
    pub next_curve_id: u64,
}

/// The record that creation writes: the creator is the minter, the cap is the
/// maximum supply, and nothing is minted yet.
pub open spec fn new_token(
    creator: AccountId,
    asset_id: CurrencyId,
    curve: CurveType,
    max_supply: Balance,
    token_name: Seq<u8>,
    token_symbol: Seq<u8>,
    token_decimals: u8,
    curve_id: u64,
) -> BondingTokenView {
    BondingTokenView {
        creator,
        asset_id,
        curve,
        max_supply,
        token_name,
        token_symbol,
        token_decimals,
        curve_id,
        mint_data: MintingData { minter: creator, minting_cap: Some(max_supply), current_mint_amount: None },
    }
}

impl RegistryView {
    /// The invariant of a registry: every record is stored under its own
    /// asset id, is well formed, and has a curve id below the counter.
    pub open spec fn wf(self) -> bool {
        forall|asset_id: CurrencyId| #[trigger]
            self.tokens.contains_key(asset_id) ==> {
                &&& self.tokens[asset_id].asset_id == asset_id
                &&& self.tokens[asset_id].wf()
                &&& self.tokens[asset_id].curve_id < self.next_curve_id
            }
    }

    /// Why a creation under `asset_id` is refused, if it is, while the ledger
    /// reports the issuance `total_issuance` for it.
    pub open spec fn create_error(self, asset_id: CurrencyId, total_issuance: Balance) -> Option<DispatchError> {
        if total_issuance != 0 || self.tokens.contains_key(asset_id) {
            Some(DispatchError::Module(Error::AssetAlreadyExists))
        } else if self.next_curve_id == u64::MAX {
            Some(DispatchError::Arithmetic(ArithmeticError::Overflow))
        } else {
            None
        }
    }

    /// The registry after `token` was stored under its asset id and the
    /// counter moved on.
    pub open spec fn created(self, token: BondingTokenView) -> RegistryView {
        RegistryView {
            tokens: self.tokens.insert(token.asset_id, token),
            next_curve_id: (self.next_curve_id + 1) as u64,
        }
    }

    /// Why a replacement of the mint bookkeeping of `asset_id` is refused, if
    /// it is.
    pub open spec fn update_error(self, asset_id: CurrencyId, mint_data: MintingData) -> Option<Error> {
        if !self.tokens.contains_key(asset_id) {
            Some(Error::AssetDoesNotExist)
        } else if !self.tokens[asset_id].with_mint_data(mint_data).wf() {
            Some(Error::MintAmountGreaterThanMaxSupply)
        } else {
            None
        }
    }

    /// The registry after the mint bookkeeping of `asset_id` was replaced.
    pub open spec fn updated(self, asset_id: CurrencyId, mint_data: MintingData) -> RegistryView {
        RegistryView {
            tokens: self.tokens.insert(asset_id, self.tokens[asset_id].with_mint_data(mint_data)),
            next_curve_id: self.next_curve_id,
        }
    }
}

/// The keyed store of bonding-curve records.
#[derive(Debug, PartialEq, Eq)]
pub struct AssetRegistry {
    tokens: HashMap<CurrencyId, BondingToken>,
    next_curve_id: u64,
}

impl View for AssetRegistry {
    type V = RegistryView;

    closed spec fn view(&self) -> RegistryView {
        RegistryView {
            tokens: self.tokens@.map_values(|token: BondingToken| token@),
            next_curve_id: self.next_curve_id,
        }
    }
}

impl Clone for AssetRegistry {
    fn clone(&self) -> (r: Self)
        ensures
            r@ == self@,
    {
        AssetRegistry { tokens: self.tokens.clone(), next_curve_id: self.next_curve_id }
    }
}

impl AssetRegistry {
    /// An empty registry whose counter stands at zero.
    pub fn new() -> (r: Self)
        ensures
            r@.wf(),
            r@.tokens == Map::<CurrencyId, BondingTokenView>::empty(),
            r@.next_curve_id == 0,
    {
        let r = AssetRegistry { tokens: HashMap::new(), next_curve_id: 0 };
        assert(r@.tokens =~= Map::<CurrencyId, BondingTokenView>::empty());
        r
    }

    /// The number of records.
    pub fn len(&self) -> (r: usize)
        ensures
            r == self@.tokens.dom().len(),
    {
        assert(self@.tokens.dom() =~= self.tokens@.dom());
        self.tokens.len()
    }

    /// The id that the next curve will get.
    pub fn next_curve_id(&self) -> (r: u64)
        ensures
            r == self@.next_curve_id,
    {
        self.next_curve_id
    }

    /// Whether a record exists under `asset_id`.
    pub fn contains(&self, asset_id: CurrencyId) -> (r: bool)
        ensures
            r == self@.tokens.contains_key(asset_id),
    {
        self.tokens.contains_key(&asset_id)
    }

    /// The record under `asset_id`.
    pub fn get(&self, asset_id: CurrencyId) -> (r: Result<&BondingToken, Error>)
        ensures
            match r {
                Ok(token) => self@.tokens.contains_key(asset_id) && token@ == self@.tokens[asset_id],
                Err(e) => !self@.tokens.contains_key(asset_id) && e == Error::AssetDoesNotExist,
            },
    {
        match self.tokens.get(&asset_id) {
            Some(token) => Ok(token),
            None => Err(Error::AssetDoesNotExist),
        }
    }

    /// Store a new record under `asset_id` and give it the next curve id.
    ///
    /// The creation is refused where the ledger reports an issuance for the
    /// asset id or a record exists under it, and where the counter is
    /// exhausted. It does not touch the ledger.
    pub fn create(
        &mut self,
        creator: AccountId,
        asset_id: CurrencyId,
        curve: CurveType,
        max_supply: Balance,
        token_name: Vec<u8>,
        token_symbol: Vec<u8>,
        token_decimals: u8,
        total_issuance: Balance,
    ) -> (r: Result<u64, DispatchError>)
        requires
            old(self)@.wf(),
        ensures
            final(self)@.wf(),
            match old(self)@.create_error(asset_id, total_issuance) {
                Some(e) => r == Err::<u64, DispatchError>(e) && final(self)@ == old(self)@,
                None => r == Ok::<u64, DispatchError>(old(self)@.next_curve_id) && final(self)@ == old(self)@.created(
                    new_token(
                        creator,
                        asset_id,
                        curve,
                        max_supply,
                        token_name@,
                        token_symbol@,
                        token_decimals,
                        old(self)@.next_curve_id,
                    ),
                ),
            },
    {
        if total_issuance != 0 || self.tokens.contains_key(&asset_id) {
            return Err(DispatchError::Module(Error::AssetAlreadyExists));
        }
        if self.next_curve_id == u64::MAX {
            return Err(DispatchError::Arithmetic(ArithmeticError::Overflow));
        }
        let curve_id: u64 = self.next_curve_id;
        let token = BondingToken {
            creator,
            asset_id,
            curve,
            max_supply,
            token_name,
            token_symbol,
            token_decimals,
            curve_id,
            mint_data: MintingData { minter: creator, minting_cap: Some(max_supply), current_mint_amount: None },
        };
        self.next_curve_id = curve_id + 1;
        self.tokens.insert(asset_id, token);
        assert(self@.tokens =~= old(self)@.created(token@).tokens);
        Ok(curve_id)
    }

    /// Replace the mint bookkeeping of the record under `asset_id`. The rest
    /// of the record stays as it was created.
    pub fn update_mint_data(&mut self, asset_id: CurrencyId, mint_data: MintingData) -> (r: Result<(), Error>)
        requires
            old(self)@.wf(),
        ensures
            final(self)@.wf(),
            match old(self)@.update_error(asset_id, mint_data) {
                Some(e) => r == Err::<(), Error>(e) && final(self)@ == old(self)@,
                None => r is Ok && final(self)@ == old(self)@.updated(asset_id, mint_data),
            },
    {
        let max_supply: Balance = match self.tokens.get(&asset_id) {
            Some(token) => token.max_supply,
            None => {
                return Err(Error::AssetDoesNotExist);
            },
        };
        let cap: Balance = match mint_data.minting_cap {
            Some(cap) => cap,
            None => max_supply,
        };
        let within_cap: bool = match mint_data.current_mint_amount {
            Some(minted) => minted <= cap,
            None => true,
        };
        if cap > max_supply || !within_cap {
            return Err(Error::MintAmountGreaterThanMaxSupply);
        }
        match self.tokens.remove(&asset_id) {
            Some(token) => {
                let mut token = token;
                token.mint_data = mint_data;
                self.tokens.insert(asset_id, token);
                assert(self@.tokens =~= old(self)@.updated(asset_id, mint_data).tokens);
                Ok(())
            },
            None => Err(Error::AssetDoesNotExist),
        }
    }
}

} // verus!
