//! The operations of the engine as transitions of its state: for each
//! operation, the state that it leads to, or the error that it ends in.

use vstd::prelude::*;
use crate::curves::CurveType;
use crate::errors::{ArithmeticError, DispatchError, DispatchResult, Error, LedgerError};
use crate::events::EventView;
use crate::ledger::{LedgerView, Movement};
use crate::origin::Origin;
use crate::pallet::Config;
use crate::registry::{new_token, RegistryView};
use crate::token::MintingData;
use crate::types::{AccountId, Balance, CurrencyId};

verus! {

/// The creator of an asset, or why the creation is refused before anything is
/// written: the caller must be signed and able to set the deposit aside, the
/// asset id must have neither issuance nor a record, the initial mint must
/// stay below the maximum supply, and the counter of curve ids must not be
/// exhausted.
pub open spec fn create_check(
    origin: Origin,
    can_reserve: bool,
    total_issuance: Balance,
    registered: bool,
    next_curve_id: u64,
    max_supply: Balance,
    mint: Balance,
) -> Result<AccountId, DispatchError> {
    match origin.signer() {
        None => Err(DispatchError::BadOrigin),
        Some(sender) => {
            if !can_reserve {
                Err(DispatchError::Module(Error::InsufficientBalanceToReserve))
            } else if total_issuance != 0 || registered {
                Err(DispatchError::Module(Error::AssetAlreadyExists))
            } else if mint >= max_supply {
                Err(DispatchError::Module(Error::MintAmountGreaterThanMaxSupply))
            } else if next_curve_id == u64::MAX {
                Err(DispatchError::Arithmetic(ArithmeticError::Overflow))
            } else {
                Ok(sender)
            }
        },
    }
}

/// The mint bookkeeping of a new asset whose creator minted `mint`.
pub open spec fn initial_mint_data(creator: AccountId, max_supply: Balance, mint: Balance) -> MintingData {
    MintingData { minter: creator, minting_cap: Some(max_supply), current_mint_amount: Some(mint) }
}

/// The transfers of a purchase: the cost goes from the buyer to the minter,
/// the tokens go from the minter to the buyer.
pub open spec fn buy_plan(
    native_currency_id: CurrencyId,
    asset_id: CurrencyId,
    buyer: AccountId,
    minter: AccountId,
    amount: Balance,
    cost: Balance,
) -> Seq<Movement> {
    seq![
        Movement::Transfer { currency_id: native_currency_id, from: buyer, to: minter, amount: cost },
        Movement::Transfer { currency_id: asset_id, from: minter, to: buyer, amount },
    ]
}

/// The movements of a sale: the tokens are debited from the seller, and the
/// refund goes from the minter to the beneficiary.
pub open spec fn sell_plan(
    native_currency_id: CurrencyId,
    asset_id: CurrencyId,
    seller: AccountId,
    minter: AccountId,
    beneficiary: AccountId,
    amount: Balance,
    refund: Balance,
) -> Seq<Movement> {
    seq![
        Movement::Withdraw { currency_id: asset_id, who: seller, amount },
        Movement::Transfer { currency_id: native_currency_id, from: minter, to: beneficiary, amount: refund },
    ]
}

/// The transfers of an air drop: `amount` from the minter to each beneficiary,
/// in order.
pub open spec fn air_drop_plan(
    asset_id: CurrencyId,
    minter: AccountId,
    beneficiaries: Seq<AccountId>,
    amount: Balance,
) -> Seq<Movement> {
    Seq::new(
        beneficiaries.len(),
        |i: int| Movement::Transfer { currency_id: asset_id, from: minter, to: beneficiaries[i], amount },
    )
}

/// The state of an engine as a plain value.
pub struct PalletView {
    pub config: Config,
    pub ledger: LedgerView,
    pub registry: RegistryView,
    pub events: Seq<EventView>,
}

impl PalletView {
    /// The state after the creation of an asset, or why it is refused.
    ///
    /// The caller must be signed and able to afford the creator deposit, the
    /// asset id must have neither issuance nor a record, and the initial mint
    /// must stay below the maximum supply. The record is stored with the
    /// initial mint as its minted total, and the initial mint is credited to
    /// the creator.
    pub open spec fn create_asset(
        self,
        origin: Origin,
        asset_id: CurrencyId,
        max_supply: Balance,
        curve_type: CurveType,
        mint: Balance,
        token_name: Seq<u8>,
        token_symbol: Seq<u8>,
        token_decimals: u8,
    ) -> Result<PalletView, DispatchError> {
        match create_check(
            origin,
            origin.signer() is Some && self.ledger.free_balance(
                self.config.native_currency_id,
                origin.signer()->Some_0,
            ) >= self.config.creator_asset_deposit,
            self.ledger.total_issuance(asset_id),
            self.registry.tokens.contains_key(asset_id),
            self.registry.next_curve_id,
            max_supply,
            mint,
        ) {
            Err(e) => Err(e),
            Ok(sender) => match self.ledger.deposit_error(asset_id, sender, mint) {
                Some(e) => Err(DispatchError::Ledger(e)),
                None => Ok(
                    PalletView {
                        config: self.config,
                        ledger: self.ledger.deposited(asset_id, sender, mint),
                        registry: self.registry.created(
                            new_token(
                                sender,
                                asset_id,
                                curve_type,
                                max_supply,
                                token_name,
                                token_symbol,
                                token_decimals,
                                self.registry.next_curve_id,
                            ).with_mint_data(initial_mint_data(sender, max_supply, mint)),
                        ),
                        events: self.events.push(EventView::AssetMinted(sender, asset_id, mint)).push(
                            EventView::AssetCreated(asset_id, sender),
                        ),
                    },
                ),
            },
        }
    }

    /// The state after a mint, or why it is refused.
    ///
    /// Only the minter of an existing asset may mint. The minted total grows by
    /// `amount` and may not exceed the cap, and `amount` is credited to the
    /// minter.
    pub open spec fn mint_asset(self, origin: Origin, asset_id: CurrencyId, amount: Balance) -> Result<
        PalletView,
        DispatchError,
    > {
        match origin.signer() {
            None => Err(DispatchError::BadOrigin),
            Some(minter) => {
                if !self.registry.tokens.contains_key(asset_id) {
                    Err(DispatchError::Module(Error::AssetDoesNotExist))
                } else {
                    match self.registry.tokens[asset_id].mint_result(minter, amount) {
                        Err(e) => Err(DispatchError::Module(e)),
                        Ok(mint_data) => match self.ledger.deposit_error(asset_id, minter, amount) {
                            Some(e) => Err(DispatchError::Ledger(e)),
                            None => Ok(
                                PalletView {
                                    config: self.config,
                                    ledger: self.ledger.deposited(asset_id, minter, amount),
                                    registry: self.registry.updated(asset_id, mint_data),
                                    events: self.events.push(EventView::AssetMinted(minter, asset_id, amount)),
                                },
                            ),
                        },
                    }
                }
            },
        }
    }

    /// The state after a purchase, or why it is refused.
    ///
    /// The cost is the integral of the curve after the trade less the integral
    /// before it, at the issuance that the ledger reports. The buyer must
    /// hold the cost, and the two transfers of the purchase are made
    /// together.
    pub open spec fn buy_asset(self, origin: Origin, asset_id: CurrencyId, amount: Balance) -> Result<
        PalletView,
        DispatchError,
    > {
        match origin.signer() {
            None => Err(DispatchError::BadOrigin),
            Some(buyer) => {
                if !self.registry.tokens.contains_key(asset_id) {
                    Err(DispatchError::Module(Error::AssetDoesNotExist))
                } else {
                    let token = self.registry.tokens[asset_id];
                    match token.buy_quote(
                        self.ledger.total_issuance(asset_id),
                        amount,
                        self.ledger.free_balance(self.config.native_currency_id, buyer),
                    ) {
                        Err(e) => Err(e),
                        Ok(cost) => match self.ledger.applied(
                            buy_plan(
                                self.config.native_currency_id,
                                asset_id,
                                buyer,
                                token.mint_data.minter,
                                amount,
                                cost,
                            ),
                        ) {
                            Err(e) => Err(DispatchError::Ledger(e)),
                            Ok(ledger) => Ok(
                                PalletView {
                                    config: self.config,
                                    ledger,
                                    registry: self.registry,
                                    events: self.events.push(EventView::AssetBought(buyer, asset_id, amount, cost)),
                                },
                            ),
                        },
                    }
                }
            },
        }
    }

    /// The state after a sale, or why it is refused.
    ///
    /// The seller must hold `amount` of the asset, which is debited from the
    /// seller. The refund is the integral of the curve before the trade less
    /// the integral after it, and it is paid from the minter's account to the
    /// beneficiary, who need not be the seller.
    pub open spec fn sell_asset(
        self,
        origin: Origin,
        asset_id: CurrencyId,
        beneficiary: AccountId,
        amount: Balance,
    ) -> Result<PalletView, DispatchError> {
        match origin.signer() {
            None => Err(DispatchError::BadOrigin),
            Some(seller) => {
                if !self.registry.tokens.contains_key(asset_id) {
                    Err(DispatchError::Module(Error::AssetDoesNotExist))
                } else if self.ledger.free_balance(asset_id, seller) < amount {
                    Err(DispatchError::Ledger(LedgerError::BalanceTooLow))
                } else {
                    let token = self.registry.tokens[asset_id];
                    match token.sell_return(self.ledger.total_issuance(asset_id), amount) {
                        Err(e) => Err(e),
                        Ok(refund) => match self.ledger.applied(
                            sell_plan(
                                self.config.native_currency_id,
                                asset_id,
                                seller,
                                token.mint_data.minter,
                                beneficiary,
                                amount,
                                refund,
                            ),
                        ) {
                            Err(e) => Err(DispatchError::Ledger(e)),
                            Ok(ledger) => Ok(
                                PalletView {
                                    config: self.config,
                                    ledger,
                                    registry: self.registry,
                                    events: self.events.push(
                                        EventView::AssetSell(beneficiary, asset_id, amount, refund),
                                    ),
                                },
                            ),
                        },
                    }
                }
            },
        }
    }

    /// The state after an air drop, or why it is refused.
    ///
    /// The minter must hold `amount` times the number of beneficiaries. Each
    /// beneficiary, in order, receives `amount` from the minter, and the
    /// transfers are made together.
    pub open spec fn air_drop(
        self,
        origin: Origin,
        asset_id: CurrencyId,
        beneficiaries: Seq<AccountId>,
        amount: Balance,
    ) -> Result<PalletView, DispatchError> {
        match origin.signer() {
            None => Err(DispatchError::BadOrigin),
            Some(caller) => {
                if !self.registry.tokens.contains_key(asset_id) {
                    Err(DispatchError::Module(Error::AssetDoesNotExist))
                } else {
                    let minter = self.registry.tokens[asset_id].mint_data.minter;
                    if amount * beneficiaries.len() > u128::MAX {
                        Err(DispatchError::Arithmetic(ArithmeticError::Overflow))
                    } else if self.ledger.free_balance(asset_id, minter) < amount * beneficiaries.len() {
                        Err(DispatchError::Ledger(LedgerError::BalanceTooLow))
                    } else {
                        match self.ledger.applied(air_drop_plan(asset_id, minter, beneficiaries, amount)) {
                            Err(e) => Err(DispatchError::Ledger(e)),
                            Ok(ledger) => Ok(
                                PalletView {
                                    config: self.config,
                                    ledger,
                                    registry: self.registry,
                                    events: self.events.push(
                                        EventView::AssetTokensAirDropped(asset_id, amount, minter, beneficiaries),
                                    ),
                                },
                            ),
                        }
                    }
                }
            },
        }
    }

    /// The spot price of an asset: the integral of its curve at the issuance
    /// that the ledger reports.
    pub open spec fn spot_price(self, origin: Origin, asset_id: CurrencyId) -> Result<Balance, DispatchError> {
        match origin.signer() {
            None => Err(DispatchError::BadOrigin),
            Some(caller) => {
                if !self.registry.tokens.contains_key(asset_id) {
                    Err(DispatchError::Module(Error::AssetDoesNotExist))
                } else {
                    self.registry.tokens[asset_id].spot_price(self.ledger.total_issuance(asset_id))
                }
            },
        }
    }
}

/// Whether an operation did what its transition says: on success the state is
/// the one that the transition gives, and on an error the state is unchanged.
pub open spec fn transition_holds(
    before: PalletView,
    after: PalletView,
    result: DispatchResult,
    expected: Result<PalletView, DispatchError>,
) -> bool {
    match expected {
        Ok(state) => result is Ok && after == state,
        Err(e) => result == Err::<(), DispatchError>(e) && after == before,
    }
}

} // verus!
