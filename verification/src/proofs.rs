//! What holds of the engine's transitions.

use vstd::prelude::*;
use crate::curves::CurveType;
use crate::errors::{DispatchError, Error};
use crate::ledger::{LedgerView, Movement};
use crate::origin::Origin;
use crate::transitions::{air_drop_plan, buy_plan, sell_plan, PalletView};
use crate::types::{AccountId, Balance, CurrencyId};

verus! {

impl PalletView {
    /// An asset id that has issuance on the ledger, or a record in the
    /// registry, cannot be created: a signed caller who can afford the deposit
    /// is told that the asset already exists.
    pub proof fn lemma_create_existing_refused(
        self,
        origin: Origin,
        asset_id: CurrencyId,
        max_supply: Balance,
        curve_type: CurveType,
        mint: Balance,
        token_name: Seq<u8>,
        token_symbol: Seq<u8>,
        token_decimals: u8,
    )
        requires
            self.ledger.total_issuance(asset_id) != 0 || self.registry.tokens.contains_key(asset_id),
        ensures
            ({
                let outcome = self.create_asset(
                    origin,
                    asset_id,
                    max_supply,
                    curve_type,
                    mint,
                    token_name,
                    token_symbol,
                    token_decimals,
                );
                &&& outcome is Err
                &&& (origin.signer() is Some && self.ledger.free_balance(
                    self.config.native_currency_id,
                    origin.signer()->Some_0,
                ) >= self.config.creator_asset_deposit) ==> outcome == Err::<PalletView, DispatchError>(
                    DispatchError::Module(Error::AssetAlreadyExists),
                )
            }),
    {
    }

    /// An asset id is created once: after a creation under `asset_id`, every
    /// further creation under it is refused.
    pub proof fn lemma_create_twice_refused(
        self,
        first_origin: Origin,
        asset_id: CurrencyId,
        first_max_supply: Balance,
        first_curve_type: CurveType,
        first_mint: Balance,
        first_name: Seq<u8>,
        first_symbol: Seq<u8>,
        first_decimals: u8,
        origin: Origin,
        max_supply: Balance,
        curve_type: CurveType,
        mint: Balance,
        token_name: Seq<u8>,
        token_symbol: Seq<u8>,
        token_decimals: u8,
    )
        requires
            self.create_asset(
                first_origin,
                asset_id,
                first_max_supply,
                first_curve_type,
                first_mint,
                first_name,
                first_symbol,
                first_decimals,
            ) is Ok,
        ensures
            ({
                let after = self.create_asset(
                    first_origin,
                    asset_id,
                    first_max_supply,
                    first_curve_type,
                    first_mint,
                    first_name,
                    first_symbol,
                    first_decimals,
                )->Ok_0;
                let second = after.create_asset(
                    origin,
                    asset_id,
                    max_supply,
                    curve_type,
                    mint,
                    token_name,
                    token_symbol,
                    token_decimals,
                );
                &&& after.registry.tokens.contains_key(asset_id)
                &&& second is Err
                &&& (origin.signer() is Some && after.ledger.free_balance(
                    after.config.native_currency_id,
                    origin.signer()->Some_0,
                ) >= after.config.creator_asset_deposit) ==> second == Err::<PalletView, DispatchError>(
                    DispatchError::Module(Error::AssetAlreadyExists),
                )
            }),
    {
    }

    /// A creation keeps the records unique and well formed, and gives the new
    /// record a curve id that no other record has.
    pub proof fn lemma_create_preserves_wf(
        self,
        origin: Origin,
        asset_id: CurrencyId,
        max_supply: Balance,
        curve_type: CurveType,
        mint: Balance,
        token_name: Seq<u8>,
        token_symbol: Seq<u8>,
        token_decimals: u8,
    )
        requires
            self.registry.wf(),
            self.create_asset(
                origin,
                asset_id,
                max_supply,
                curve_type,
                mint,
                token_name,
                token_symbol,
                token_decimals,
            ) is Ok,
        ensures
            ({
                let after = self.create_asset(
                    origin,
                    asset_id,
                    max_supply,
                    curve_type,
                    mint,
                    token_name,
                    token_symbol,
                    token_decimals,
                )->Ok_0;
                &&& after.registry.wf()
                &&& after.registry.next_curve_id == self.registry.next_curve_id + 1
                &&& after.registry.tokens[asset_id].curve_id == self.registry.next_curve_id
                &&& forall|other: CurrencyId| #[trigger]
                    self.registry.tokens.contains_key(other) ==> after.registry.tokens[other]
                        == self.registry.tokens[other] && self.registry.tokens[other].curve_id
                        != after.registry.tokens[asset_id].curve_id
            }),
    {
    }

    /// Only the minter mints: a mint of an existing asset by another signed
    /// caller is refused as coming from an invalid minter.
    pub proof fn lemma_mint_by_other_refused(self, who: AccountId, asset_id: CurrencyId, amount: Balance)
        requires
            self.registry.tokens.contains_key(asset_id),
            who != self.registry.tokens[asset_id].mint_data.minter,
        ensures
            self.mint_asset(Origin::Signed(who), asset_id, amount) == Err::<PalletView, DispatchError>(
                DispatchError::Module(Error::InvalidMinter),
            ),
    {
    }

    /// A mint adds `amount` to the minted total of the asset, to the balance
    /// of the minter and to the issuance of the asset, and keeps the registry
    /// well formed.
    pub proof fn lemma_mint_accumulates(self, origin: Origin, asset_id: CurrencyId, amount: Balance)
        requires
            self.registry.wf(),
            self.mint_asset(origin, asset_id, amount) is Ok,
        ensures
            ({
                let after = self.mint_asset(origin, asset_id, amount)->Ok_0;
                let token = self.registry.tokens[asset_id];
                let before: Balance = match token.mint_data.current_mint_amount {
                    Some(minted) => minted,
                    None => 0,
                };
                &&& after.registry.wf()
                &&& after.registry.tokens[asset_id].mint_data.current_mint_amount == Some(
                    (before + amount) as Balance,
                )
                &&& before + amount <= token.cap() <= token.max_supply
                &&& after.ledger.free_balance(asset_id, token.mint_data.minter) == self.ledger.free_balance(
                    asset_id,
                    token.mint_data.minter,
                ) + amount
                &&& after.ledger.total_issuance(asset_id) == self.ledger.total_issuance(asset_id) + amount
            }),
    {
    }

    /// A mint whose running total exceeds 128 bits is refused with an
    /// overflow of the mint amount.
    pub proof fn lemma_mint_overflow_refused(self, asset_id: CurrencyId, amount: Balance)
        requires
            self.registry.tokens.contains_key(asset_id),
            self.registry.tokens[asset_id].mint_data.current_mint_amount is Some,
            self.registry.tokens[asset_id].mint_data.current_mint_amount->Some_0 + amount > u128::MAX,
        ensures
            self.mint_asset(Origin::Signed(self.registry.tokens[asset_id].mint_data.minter), asset_id, amount)
                == Err::<PalletView, DispatchError>(DispatchError::Module(Error::MintAmountOverflow)),
    {
    }

    /// A purchase of an unknown asset is refused, and so is a purchase of at
    /// least the minted total of a known one.
    pub proof fn lemma_buy_refused(self, buyer: AccountId, asset_id: CurrencyId, amount: Balance)
        ensures
            !self.registry.tokens.contains_key(asset_id) ==> self.buy_asset(Origin::Signed(buyer), asset_id, amount)
                == Err::<PalletView, DispatchError>(DispatchError::Module(Error::AssetDoesNotExist)),
            (self.registry.tokens.contains_key(asset_id)
                && self.registry.tokens[asset_id].mint_data.current_mint_amount is Some && amount
                >= self.registry.tokens[asset_id].mint_data.current_mint_amount->Some_0) ==> self.buy_asset(
                Origin::Signed(buyer),
                asset_id,
                amount,
            ) == Err::<PalletView, DispatchError>(DispatchError::Module(Error::MintAmountGreaterThanMaxSupply)),
            (self.registry.tokens.contains_key(asset_id)
                && self.registry.tokens[asset_id].mint_data.current_mint_amount is None) ==> self.buy_asset(
                Origin::Signed(buyer),
                asset_id,
                amount,
            ) == Err::<PalletView, DispatchError>(DispatchError::Module(Error::MintUninitiated)),
    {
    }

    /// A purchase moves exactly the cost and the amount: between a buyer and
    /// a minter who differ, and for an asset that is not the reserve currency,
    /// the buyer pays the cost and receives the amount, the minter receives
    /// the cost and gives the amount, and no issuance changes.
    pub proof fn lemma_buy_moves(self, buyer: AccountId, asset_id: CurrencyId, amount: Balance)
        requires
            self.buy_asset(Origin::Signed(buyer), asset_id, amount) is Ok,
            buyer != self.registry.tokens[asset_id].mint_data.minter,
            asset_id != self.config.native_currency_id,
        ensures
            ({
                let after = self.buy_asset(Origin::Signed(buyer), asset_id, amount)->Ok_0;
                let minter = self.registry.tokens[asset_id].mint_data.minter;
                let native = self.config.native_currency_id;
                let cost = self.registry.tokens[asset_id].buy_cost(self.ledger.total_issuance(asset_id), amount)->Ok_0;
                &&& after.ledger.free_balance(native, buyer) == self.ledger.free_balance(native, buyer) - cost
                &&& after.ledger.free_balance(native, minter) == self.ledger.free_balance(native, minter) + cost
                &&& after.ledger.free_balance(asset_id, buyer) == self.ledger.free_balance(asset_id, buyer) + amount
                &&& after.ledger.free_balance(asset_id, minter) == self.ledger.free_balance(asset_id, minter)
                    - amount
                &&& after.ledger.issuance == self.ledger.issuance
                &&& after.registry == self.registry
            }),
    {
        let minter = self.registry.tokens[asset_id].mint_data.minter;
        let native = self.config.native_currency_id;
        let cost = self.registry.tokens[asset_id].buy_cost(self.ledger.total_issuance(asset_id), amount)->Ok_0;
        let plan = buy_plan(native, asset_id, buyer, minter, amount, cost);
        assert(plan.drop_last() =~= seq![plan[0]]);
        assert(plan.drop_last().drop_last() =~= Seq::<Movement>::empty());
        reveal_with_fuel(LedgerView::applied, 3);
    }

    /// A sale moves exactly the amount and the refund: for a minter who is
    /// neither the seller nor the beneficiary, and an asset that is not the
    /// reserve currency, the amount leaves the seller and the issuance of the
    /// asset, and the minter pays the refund to the beneficiary.
    pub proof fn lemma_sell_moves(self, seller: AccountId, asset_id: CurrencyId, beneficiary: AccountId, amount: Balance)
        requires
            self.sell_asset(Origin::Signed(seller), asset_id, beneficiary, amount) is Ok,
            seller != self.registry.tokens[asset_id].mint_data.minter,
            beneficiary != self.registry.tokens[asset_id].mint_data.minter,
            asset_id != self.config.native_currency_id,
        ensures
            ({
                let after = self.sell_asset(Origin::Signed(seller), asset_id, beneficiary, amount)->Ok_0;
                let minter = self.registry.tokens[asset_id].mint_data.minter;
                let native = self.config.native_currency_id;
                let refund = self.registry.tokens[asset_id].sell_return(
                    self.ledger.total_issuance(asset_id),
                    amount,
                )->Ok_0;
                &&& after.ledger.free_balance(asset_id, seller) == self.ledger.free_balance(asset_id, seller) - amount
                &&& after.ledger.total_issuance(asset_id) == self.ledger.total_issuance(asset_id) - amount
                &&& after.ledger.free_balance(asset_id, minter) == self.ledger.free_balance(asset_id, minter)
                &&& after.ledger.free_balance(native, minter) == self.ledger.free_balance(native, minter) - refund
                &&& after.ledger.free_balance(native, beneficiary) == self.ledger.free_balance(native, beneficiary)
                    + refund
                &&& after.ledger.total_issuance(native) == self.ledger.total_issuance(native)
                &&& after.registry == self.registry
            }),
    {
        let minter = self.registry.tokens[asset_id].mint_data.minter;
        let native = self.config.native_currency_id;
        let refund = self.registry.tokens[asset_id].sell_return(self.ledger.total_issuance(asset_id), amount)->Ok_0;
        let plan = sell_plan(native, asset_id, seller, minter, beneficiary, amount, refund);
        assert(plan.drop_last() =~= seq![plan[0]]);
        assert(plan.drop_last().drop_last() =~= Seq::<Movement>::empty());
        reveal_with_fuel(LedgerView::applied, 3);
    }

    /// An air drop gives each beneficiary exactly `amount` and takes `amount`
    /// times their number from the minter, where the beneficiaries are
    /// distinct and the minter is not one of them. No other balance and no
    /// issuance changes.
    pub proof fn lemma_air_drop_moves(
        self,
        origin: Origin,
        asset_id: CurrencyId,
        beneficiaries: Seq<AccountId>,
        amount: Balance,
    )
        requires
            self.air_drop(origin, asset_id, beneficiaries, amount) is Ok,
            beneficiaries.no_duplicates(),
            !beneficiaries.contains(self.registry.tokens[asset_id].mint_data.minter),
        ensures
            ({
                let after = self.air_drop(origin, asset_id, beneficiaries, amount)->Ok_0;
                let minter = self.registry.tokens[asset_id].mint_data.minter;
                &&& forall|i: int|
                    0 <= i < beneficiaries.len() ==> #[trigger] after.ledger.free_balance(
                        asset_id,
                        beneficiaries[i],
                    ) == self.ledger.free_balance(asset_id, beneficiaries[i]) + amount
                &&& after.ledger.free_balance(asset_id, minter) == self.ledger.free_balance(asset_id, minter)
                    - amount * beneficiaries.len()
                &&& forall|currency_id: CurrencyId, who: AccountId|
                    (currency_id != asset_id || (who != minter && !beneficiaries.contains(who)))
                        ==> #[trigger] after.ledger.free_balance(currency_id, who) == self.ledger.free_balance(
                        currency_id,
                        who,
                    )
                &&& after.ledger.issuance == self.ledger.issuance
                &&& after.registry == self.registry
            }),
    {
        let minter = self.registry.tokens[asset_id].mint_data.minter;
        lemma_air_drop_applied(self.ledger, asset_id, minter, beneficiaries, amount);
    }

    /// The spot price reads only the record of the asset and the issuance of
    /// the asset: two states that agree on both give the same price. So asking
    /// twice, with nothing changed in between, gives the same answer.
    pub proof fn lemma_spot_price_reads(self, other: PalletView, origin: Origin, asset_id: CurrencyId)
        requires
            self.registry.tokens.contains_key(asset_id) == other.registry.tokens.contains_key(asset_id),
            self.registry.tokens.contains_key(asset_id) ==> self.registry.tokens[asset_id].curve
                == other.registry.tokens[asset_id].curve,
            self.ledger.total_issuance(asset_id) == other.ledger.total_issuance(asset_id),
        ensures
            self.spot_price(origin, asset_id) == other.spot_price(origin, asset_id),
    {
    }
}

/// What the transfers of an air drop do to a ledger, where the beneficiaries
/// are distinct and the minter is not one of them.
pub proof fn lemma_air_drop_applied(
    ledger: LedgerView,
    asset_id: CurrencyId,
    minter: AccountId,
    beneficiaries: Seq<AccountId>,
    amount: Balance,
)
    requires
        ledger.applied(air_drop_plan(asset_id, minter, beneficiaries, amount)) is Ok,
        beneficiaries.no_duplicates(),
        !beneficiaries.contains(minter),
    ensures
        ({
            let after = ledger.applied(air_drop_plan(asset_id, minter, beneficiaries, amount))->Ok_0;
            &&& forall|i: int|
                0 <= i < beneficiaries.len() ==> #[trigger] after.free_balance(asset_id, beneficiaries[i])
                    == ledger.free_balance(asset_id, beneficiaries[i]) + amount
            &&& after.free_balance(asset_id, minter) == ledger.free_balance(asset_id, minter) - amount
                * beneficiaries.len()
            &&& forall|currency_id: CurrencyId, who: AccountId|
                (currency_id != asset_id || (who != minter && !beneficiaries.contains(who)))
                    ==> #[trigger] after.free_balance(currency_id, who) == ledger.free_balance(currency_id, who)
            &&& after.issuance == ledger.issuance
        }),
    decreases beneficiaries.len(),
{
    let plan = air_drop_plan(asset_id, minter, beneficiaries, amount);
    if beneficiaries.len() > 0 {
        let rest = beneficiaries.drop_last();
        let last = beneficiaries.last();
        assert(plan.drop_last() =~= air_drop_plan(asset_id, minter, rest, amount));
        assert(rest.no_duplicates());
        assert(!rest.contains(minter)) by {
            if rest.contains(minter) {
                let j = choose|j: int| 0 <= j < rest.len() && rest[j] == minter;
                assert(beneficiaries[j] == minter);
            }
        }
        assert(!rest.contains(last)) by {
            if rest.contains(last) {
                let j = choose|j: int| 0 <= j < rest.len() && rest[j] == last;
                assert(beneficiaries[j] == beneficiaries[beneficiaries.len() - 1]);
            }
        }
        assert(last != minter) by {
            assert(beneficiaries[beneficiaries.len() - 1] == last);
        }
        lemma_air_drop_applied(ledger, asset_id, minter, rest, amount);
        let middle = ledger.applied(air_drop_plan(asset_id, minter, rest, amount))->Ok_0;
        let after = ledger.applied(plan)->Ok_0;
        assert(plan.last() == Movement::Transfer { currency_id: asset_id, from: minter, to: last, amount });
        assert(after == middle.transferred(asset_id, minter, last, amount));
        assert(amount * beneficiaries.len() == amount * rest.len() + amount) by (nonlinear_arith)
            requires
                beneficiaries.len() == rest.len() + 1,
        ;
        assert forall|i: int| 0 <= i < beneficiaries.len() implies #[trigger] after.free_balance(
            asset_id,
            beneficiaries[i],
        ) == ledger.free_balance(asset_id, beneficiaries[i]) + amount by {
            if i < rest.len() {
                assert(rest[i] == beneficiaries[i]);
                assert(rest.contains(rest[i]));
                assert(middle.free_balance(asset_id, rest[i]) == ledger.free_balance(asset_id, rest[i]) + amount);
            } else {
                assert(beneficiaries[i] == last);
                assert(middle.free_balance(asset_id, last) == ledger.free_balance(asset_id, last));
                assert(middle.transfer_error(asset_id, minter, last, amount) is None);
            }
        }
        assert forall|currency_id: CurrencyId, who: AccountId|
            (currency_id != asset_id || (who != minter && !beneficiaries.contains(who)))
                implies #[trigger] after.free_balance(currency_id, who) == ledger.free_balance(
            currency_id,
            who,
        ) by {
            if currency_id == asset_id {
                assert(!rest.contains(who)) by {
                    if rest.contains(who) {
                        let j = choose|j: int| 0 <= j < rest.len() && rest[j] == who;
                        assert(beneficiaries[j] == who);
                    }
                }
                assert(who != last) by {
                    assert(beneficiaries[beneficiaries.len() - 1] == last);
                }
            }
            assert(middle.free_balance(currency_id, who) == ledger.free_balance(currency_id, who));
        }
    } else {
        assert(amount * beneficiaries.len() == 0) by (nonlinear_arith)
            requires
                beneficiaries.len() == 0,
        ;
    }
}

} // verus!
