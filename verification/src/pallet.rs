//! The engine: the operations that create, mint, buy, sell and air-drop
//! bonding-curve assets, over a registry and a ledger.
//!
//! Every operation either takes effect completely or returns an error and
//! leaves the state as it was.

use vstd::prelude::*;
use crate::curves::CurveType;
use crate::errors::{ArithmeticError, DispatchError, DispatchResult, Error};
use crate::events::{event_views, Event, EventView};
use crate::ledger::{Ledger, Movement};
use crate::origin::{ensure_signed, Origin};
use crate::registry::{new_token, AssetRegistry};
use crate::token::{BondingToken, BondingTokenView, MintingData};
use crate::transitions::{
    air_drop_plan, buy_plan, create_check, initial_mint_data, sell_plan, transition_holds, PalletView,
};
use crate::types::{AccountId, Balance, CurrencyId};

verus! {

/// The parameters of an engine.
#[derive(Clone, Copy, Debug, PartialEq, Eq, Structural)]
pub struct Config {
    /// The reserve currency, in which costs and refunds are paid.
    pub native_currency_id: CurrencyId,
    /// The deposit that the creator of an asset must be able to afford.
    pub creator_asset_deposit: Balance,
}

/// Decide whether an asset can be created, from what the ledger and the
/// registry report: whether the caller can set the deposit aside, the issuance
/// of the asset id, and whether a record exists under it.
pub fn ensure_can_create(
    origin: Origin,
    can_reserve: bool,
    total_issuance: Balance,
    registered: bool,
    next_curve_id: u64,
    max_supply: Balance,
    mint: Balance,
) -> (r: Result<AccountId, DispatchError>)
    ensures
        r == create_check(origin, can_reserve, total_issuance, registered, next_curve_id, max_supply, mint),
{
    let sender: AccountId = match ensure_signed(origin) {
        Ok(sender) => sender,
        Err(_) => {
            return Err(DispatchError::BadOrigin);
        },
    };
    if !can_reserve {
        return Err(DispatchError::Module(Error::InsufficientBalanceToReserve));
    }
    if total_issuance != 0 || registered {
        return Err(DispatchError::Module(Error::AssetAlreadyExists));
    }
    if mint >= max_supply {
        return Err(DispatchError::Module(Error::MintAmountGreaterThanMaxSupply));
    }
    if next_curve_id == u64::MAX {
        return Err(DispatchError::Arithmetic(ArithmeticError::Overflow));
    }
    Ok(sender)
}

/// The mint bookkeeping of a new asset whose creator minted `mint`.
pub fn new_mint_data(creator: AccountId, max_supply: Balance, mint: Balance) -> (r: MintingData)
    ensures
        r == initial_mint_data(creator, max_supply, mint),
{
    MintingData { minter: creator, minting_cap: Some(max_supply), current_mint_amount: Some(mint) }
}

/// The transfers of a purchase.
pub fn plan_buy(
    native_currency_id: CurrencyId,
    asset_id: CurrencyId,
    buyer: AccountId,
    minter: AccountId,
    amount: Balance,
    cost: Balance,
) -> (r: Vec<Movement>)
    ensures
        r@ == buy_plan(native_currency_id, asset_id, buyer, minter, amount, cost),
{
    let mut plan: Vec<Movement> = Vec::new();
    plan.push(Movement::Transfer { currency_id: native_currency_id, from: buyer, to: minter, amount: cost });
    plan.push(Movement::Transfer { currency_id: asset_id, from: minter, to: buyer, amount });
    assert(plan@ =~= buy_plan(native_currency_id, asset_id, buyer, minter, amount, cost));
    plan
}

/// The movements of a sale.
pub fn plan_sell(
    native_currency_id: CurrencyId,
    asset_id: CurrencyId,
    seller: AccountId,
    minter: AccountId,
    beneficiary: AccountId,
    amount: Balance,
    refund: Balance,
) -> (r: Vec<Movement>)
    ensures
        r@ == sell_plan(native_currency_id, asset_id, seller, minter, beneficiary, amount, refund),
{
    let mut plan: Vec<Movement> = Vec::new();
    plan.push(Movement::Withdraw { currency_id: asset_id, who: seller, amount });
    plan.push(Movement::Transfer { currency_id: native_currency_id, from: minter, to: beneficiary, amount: refund });
    assert(plan@ =~= sell_plan(native_currency_id, asset_id, seller, minter, beneficiary, amount, refund));
    plan
}

/// The transfers of an air drop.
pub fn plan_air_drop(asset_id: CurrencyId, minter: AccountId, beneficiaries: &Vec<AccountId>, amount: Balance) -> (r:
    Vec<Movement>)
    ensures
        r@ == air_drop_plan(asset_id, minter, beneficiaries@, amount),
{
    let mut plan: Vec<Movement> = Vec::new();
    let mut i: usize = 0;
    while i < beneficiaries.len()
        invariant
            i <= beneficiaries.len(),
            plan@ == air_drop_plan(asset_id, minter, beneficiaries@.take(i as int), amount),
        decreases beneficiaries.len() - i,
    {
        plan.push(Movement::Transfer { currency_id: asset_id, from: minter, to: beneficiaries[i], amount });
        i = i + 1;
        assert(plan@ =~= air_drop_plan(asset_id, minter, beneficiaries@.take(i as int), amount));
    }
    assert(beneficiaries@.take(i as int) =~= beneficiaries@);
    plan
}

/// The total that an air drop takes from the minter: `amount` for each of
/// `count` beneficiaries.
pub fn air_drop_total(amount: Balance, count: usize) -> (r: Result<Balance, ArithmeticError>)
    ensures
        r == (if amount * count > u128::MAX {
            Err::<Balance, ArithmeticError>(ArithmeticError::Overflow)
        } else {
            Ok((amount * count) as Balance)
        }),
{
    match amount.checked_mul(count as u128) {
        Some(total) => Ok(total),
        None => Err(ArithmeticError::Overflow),
    }
}

/// The engine: a registry of bonding-curve assets, the ledger that holds
/// their balances, and the records of the completed operations.
#[derive(Debug, PartialEq, Eq)]
pub struct Pallet {
    config: Config,
    ledger: Ledger,
    registry: AssetRegistry,
    events: Vec<Event>,
}

impl View for Pallet {
    type V = PalletView;

    closed spec fn view(&self) -> PalletView {
        PalletView {
            config: self.config,
            ledger: self.ledger@,
            registry: self.registry@,
            events: event_views(self.events@),
        }
    }
}

impl Clone for Pallet {
    fn clone(&self) -> (r: Self)
        ensures
            r@ == self@,
    {
        let mut events: Vec<Event> = Vec::new();
        let mut i: usize = 0;
        while i < self.events.len()
            invariant
                i <= self.events.len(),
                events@.len() == i,
                event_views(events@) == event_views(self.events@.take(i as int)),
            decreases self.events.len() - i,
        {
            let ghost before = events@;
            events.push(self.events[i].clone());
            i = i + 1;
            assert forall|j: int| 0 <= j < i implies event_views(events@)[j] == event_views(
                self.events@.take(i as int),
            )[j] by {
                if j < i - 1 {
                    assert(event_views(before)[j] == event_views(self.events@.take(i - 1))[j]);
                }
            }
            assert(event_views(events@) =~= event_views(self.events@.take(i as int)));
        }
        assert(self.events@.take(i as int) =~= self.events@);
        Pallet { config: self.config, ledger: self.ledger.clone(), registry: self.registry.clone(), events }
    }
}

impl Pallet {
    /// The invariant of an engine: its registry is well formed.
    pub open spec fn wf(&self) -> bool {
        self@.registry.wf()
    }

    /// An engine with an empty registry over the given ledger.
    pub fn new(config: Config, ledger: Ledger) -> (r: Self)
        ensures
            r.wf(),
            r@.config == config,
            r@.ledger == ledger@,
            r@.registry.tokens == Map::<CurrencyId, BondingTokenView>::empty(),
            r@.registry.next_curve_id == 0,
            r@.events == Seq::<EventView>::empty(),
    {
        let r = Pallet { config, ledger, registry: AssetRegistry::new(), events: Vec::new() };
        assert(r@.events =~= Seq::<EventView>::empty());
        r
    }

    /// The parameters of the engine.
    pub fn config(&self) -> (r: Config)
        ensures
            r == self@.config,
    {
        self.config
    }

    /// The ledger of the engine.
    pub fn ledger(&self) -> (r: &Ledger)
        ensures
            r@ == self@.ledger,
    {
        &self.ledger
    }

    /// The registry of the engine.
    pub fn registry(&self) -> (r: &AssetRegistry)
        ensures
            r@ == self@.registry,
    {
        &self.registry
    }

    /// The records of the completed operations, oldest first.
    pub fn events(&self) -> (r: &Vec<Event>)
        ensures
            event_views(r@) == self@.events,
    {
        &self.events
    }

    /// The id that the next curve will get.
    pub fn next_curve_id(&self) -> (r: u64)
        ensures
            r == self@.registry.next_curve_id,
    {
        self.registry.next_curve_id()
    }

    /// The record of the asset `asset_id`, if there is one.
    pub fn assets_minted(&self, asset_id: CurrencyId) -> (r: Option<BondingToken>)
        ensures
            match r {
                Some(token) => self@.registry.tokens.contains_key(asset_id) && token@
                    == self@.registry.tokens[asset_id],
                None => !self@.registry.tokens.contains_key(asset_id),
            },
    {
        match self.registry.get(asset_id) {
            Ok(token) => Some(token.clone()),
            Err(_) => None,
        }
    }

    fn deposit_event(&mut self, event: Event)
        ensures
            final(self)@ == (PalletView { events: old(self)@.events.push(event@), ..old(self)@ }),
    {
        self.events.push(event);
        assert(event_views(self.events@) =~= event_views(old(self).events@).push(event@));
    }

    /// Create a bonding-curve asset and mint `mint` of it to the caller.
    pub fn create_asset(
        &mut self,
        origin: Origin,
        asset_id: CurrencyId,
        max_supply: Balance,
        curve_type: CurveType,
        mint: Balance,
        token_name: Vec<u8>,
        token_symbol: Vec<u8>,
        token_decimals: u8,
    ) -> (r: DispatchResult)
        requires
            old(self).wf(),
        ensures
            final(self).wf(),
            transition_holds(
                old(self)@,
                final(self)@,
                r,
                old(self)@.create_asset(
                    origin,
                    asset_id,
                    max_supply,
                    curve_type,
                    mint,
                    token_name@,
                    token_symbol@,
                    token_decimals,
                ),
            ),
    {
        let can_reserve: bool = match ensure_signed(origin) {
            Ok(sender) => self.ledger.can_reserve(
                self.config.native_currency_id,
                sender,
                self.config.creator_asset_deposit,
            ),
            Err(_) => false,
        };
        let sender: AccountId = match ensure_can_create(
            origin,
            can_reserve,
            self.ledger.total_issuance(asset_id),
            self.registry.contains(asset_id),
            self.registry.next_curve_id(),
            max_supply,
            mint,
        ) {
            Ok(sender) => sender,
            Err(e) => {
                return Err(e);
            },
        };
        match self.ledger.deposit(asset_id, sender, mint) {
            Ok(()) => {},
            Err(e) => {
                return Err(DispatchError::Ledger(e));
            },
        }
        // The ledger has taken the mint. The registry cannot refuse the
        // record now: the checks above have ruled its refusals out.
        let mint_data = new_mint_data(sender, max_supply, mint);
        let ghost created = new_token(
            sender,
            asset_id,
            curve_type,
            max_supply,
            token_name@,
            token_symbol@,
            token_decimals,
            old(self)@.registry.next_curve_id,
        );
        match self.registry.create(
            sender,
            asset_id,
            curve_type,
            max_supply,
            token_name,
            token_symbol,
            token_decimals,
            0,
        ) {
            Ok(_) => {},
            Err(e) => {
                return Err(e);
            },
        }
        match self.registry.update_mint_data(asset_id, mint_data) {
            Ok(()) => {},
            Err(e) => {
                return Err(DispatchError::Module(e));
            },
        }
        assert(self.registry@.tokens =~= old(self)@.registry.created(created.with_mint_data(mint_data)).tokens);
        self.deposit_event(Event::AssetMinted(sender, asset_id, mint));
        self.deposit_event(Event::AssetCreated(asset_id, sender));
        Ok(())
    }

    /// Mint `amount` of the asset to its minter, who must be the caller.
    pub fn mint_asset(&mut self, origin: Origin, asset_id: CurrencyId, amount: Balance) -> (r: DispatchResult)
        requires
            old(self).wf(),
        ensures
            final(self).wf(),
            transition_holds(old(self)@, final(self)@, r, old(self)@.mint_asset(origin, asset_id, amount)),
    {
        let minter: AccountId = match ensure_signed(origin) {
            Ok(minter) => minter,
            Err(_) => {
                return Err(DispatchError::BadOrigin);
            },
        };
        let mint_data: MintingData = match self.registry.get(asset_id) {
            Ok(token) => match token.mint(minter, amount) {
                Ok(mint_data) => mint_data,
                Err(e) => {
                    return Err(DispatchError::Module(e));
                },
            },
            Err(e) => {
                return Err(DispatchError::Module(e));
            },
        };
        match self.ledger.deposit(asset_id, minter, amount) {
            Ok(()) => {},
            Err(e) => {
                return Err(DispatchError::Ledger(e));
            },
        }
        // The new total is within the cap, so the registry takes it.
        match self.registry.update_mint_data(asset_id, mint_data) {
            Ok(()) => {},
            Err(e) => {
                return Err(DispatchError::Module(e));
            },
        }
        self.deposit_event(Event::AssetMinted(minter, asset_id, amount));
        Ok(())
    }

    /// Buy `amount` of the asset from its minter at the price of the curve.
    pub fn buy_asset(&mut self, origin: Origin, asset_id: CurrencyId, amount: Balance) -> (r: DispatchResult)
        requires
            old(self).wf(),
        ensures
            final(self).wf(),
            transition_holds(old(self)@, final(self)@, r, old(self)@.buy_asset(origin, asset_id, amount)),
    {
        let buyer: AccountId = match ensure_signed(origin) {
            Ok(buyer) => buyer,
            Err(_) => {
                return Err(DispatchError::BadOrigin);
            },
        };
        let total_issuance: Balance = self.ledger.total_issuance(asset_id);
        let token = match self.registry.get(asset_id) {
            Ok(token) => token,
            Err(e) => {
                return Err(DispatchError::Module(e));
            },
        };
        let minter: AccountId = token.mint_data.minter;
        let buyer_free: Balance = self.ledger.free_balance(self.config.native_currency_id, buyer);
        let cost: Balance = match token.buy_quote(total_issuance, amount, buyer_free) {
            Ok(cost) => cost,
            Err(e) => {
                return Err(e);
            },
        };
        let plan = plan_buy(self.config.native_currency_id, asset_id, buyer, minter, amount, cost);
        match self.ledger.apply_all(&plan) {
            Ok(()) => {},
            Err(e) => {
                return Err(DispatchError::Ledger(e));
            },
        }
        self.deposit_event(Event::AssetBought(buyer, asset_id, amount, cost));
        Ok(())
    }

    /// Sell `amount` of the asset: it is debited from the caller, and the
    /// minter pays the refund to `beneficiary`.
    pub fn sell_asset(
        &mut self,
        origin: Origin,
        asset_id: CurrencyId,
        beneficiary: AccountId,
        amount: Balance,
    ) -> (r: DispatchResult)
        requires
            old(self).wf(),
        ensures
            final(self).wf(),
            transition_holds(
                old(self)@,
                final(self)@,
                r,
                old(self)@.sell_asset(origin, asset_id, beneficiary, amount),
            ),
    {
        let seller: AccountId = match ensure_signed(origin) {
            Ok(seller) => seller,
            Err(_) => {
                return Err(DispatchError::BadOrigin);
            },
        };
        let total_issuance: Balance = self.ledger.total_issuance(asset_id);
        let token = match self.registry.get(asset_id) {
            Ok(token) => token,
            Err(e) => {
                return Err(DispatchError::Module(e));
            },
        };
        let minter: AccountId = token.mint_data.minter;
        match self.ledger.ensure_can_withdraw(asset_id, seller, amount) {
            Ok(()) => {},
            Err(e) => {
                return Err(DispatchError::Ledger(e));
            },
        }
        let refund: Balance = match token.sell_return(total_issuance, amount) {
            Ok(refund) => refund,
            Err(e) => {
                return Err(e);
            },
        };
        let plan = plan_sell(self.config.native_currency_id, asset_id, seller, minter, beneficiary, amount, refund);
        match self.ledger.apply_all(&plan) {
            Ok(()) => {},
            Err(e) => {
                return Err(DispatchError::Ledger(e));
            },
        }
        self.deposit_event(Event::AssetSell(beneficiary, asset_id, amount, refund));
        Ok(())
    }

    /// Give `amount` of the asset from its minter to each beneficiary.
    pub fn air_drop(
        &mut self,
        origin: Origin,
        asset_id: CurrencyId,
        beneficiaries: Vec<AccountId>,
        amount: Balance,
    ) -> (r: DispatchResult)
        requires
            old(self).wf(),
        ensures
            final(self).wf(),
            transition_holds(
                old(self)@,
                final(self)@,
                r,
                old(self)@.air_drop(origin, asset_id, beneficiaries@, amount),
            ),
    {
        let _caller: AccountId = match ensure_signed(origin) {
            Ok(caller) => caller,
            Err(_) => {
                return Err(DispatchError::BadOrigin);
            },
        };
        let minter: AccountId = match self.registry.get(asset_id) {
            Ok(token) => token.mint_data.minter,
            Err(e) => {
                return Err(DispatchError::Module(e));
            },
        };
        let total_withdraw_amount: Balance = match air_drop_total(amount, beneficiaries.len()) {
            Ok(total) => total,
            Err(e) => {
                return Err(DispatchError::Arithmetic(e));
            },
        };
        match self.ledger.ensure_can_withdraw(asset_id, minter, total_withdraw_amount) {
            Ok(()) => {},
            Err(e) => {
                return Err(DispatchError::Ledger(e));
            },
        }
        let plan = plan_air_drop(asset_id, minter, &beneficiaries, amount);
        match self.ledger.apply_all(&plan) {
            Ok(()) => {},
            Err(e) => {
                return Err(DispatchError::Ledger(e));
            },
        }
        self.deposit_event(Event::AssetTokensAirDropped(asset_id, amount, minter, beneficiaries));
        Ok(())
    }

    /// The spot price of the asset: the integral of its curve at the current
    /// issuance. The state is only read.
    pub fn current_asset_price(&self, origin: Origin, asset_id: CurrencyId) -> (r: Result<Balance, DispatchError>)
        ensures
            r == self@.spot_price(origin, asset_id),
    {
        let _caller: AccountId = match ensure_signed(origin) {
            Ok(caller) => caller,
            Err(_) => {
                return Err(DispatchError::BadOrigin);
            },
        };
        match self.registry.get(asset_id) {
            Ok(token) => token.spot_price(self.ledger.total_issuance(asset_id)),
            Err(e) => Err(DispatchError::Module(e)),
        }
    }

    /// The spot price of the asset, under its other name.
    pub fn asset_spot_price(&self, origin: Origin, asset_id: CurrencyId) -> (r: Result<Balance, DispatchError>)
        ensures
            r == self@.spot_price(origin, asset_id),
    {
        self.current_asset_price(origin, asset_id)
    }
}

} // verus!
