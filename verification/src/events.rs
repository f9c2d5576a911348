//! The completion records that the operations leave behind.

use vstd::prelude::*;
use crate::types::{AccountId, Balance, CurrencyId};

verus! {

/// The record of a completed operation.
#[derive(Debug, PartialEq, Eq)]
pub enum Event {
    /// (AssetId, Creator)
    AssetCreated(CurrencyId, AccountId),
    /// (Buyer, AssetId, Amount, Cost)
    AssetBought(AccountId, CurrencyId, Balance, Balance),
    /// (Beneficiary, AssetId, Amount, Return)
    AssetSell(AccountId, CurrencyId, Balance, Balance),
    /// (Minter, AssetId, MintAmount)
    AssetMinted(AccountId, CurrencyId, Balance),
    /// (AssetId, Amount, FromAccount, ToAccounts)
    AssetTokensAirDropped(CurrencyId, Balance, AccountId, Vec<AccountId>),
}

/// A completion record as a plain value.
pub enum EventView {
    AssetCreated(CurrencyId, AccountId),
    AssetBought(AccountId, CurrencyId, Balance, Balance),
    AssetSell(AccountId, CurrencyId, Balance, Balance),
    AssetMinted(AccountId, CurrencyId, Balance),
    AssetTokensAirDropped(CurrencyId, Balance, AccountId, Seq<AccountId>),
}

impl View for Event {
    type V = EventView;

    open spec fn view(&self) -> EventView {
        match *self {
            Event::AssetCreated(asset_id, creator) => EventView::AssetCreated(asset_id, creator),
            Event::AssetBought(buyer, asset_id, amount, cost) => EventView::AssetBought(
                buyer,
                asset_id,
                amount,
                cost,
            ),
            Event::AssetSell(beneficiary, asset_id, amount, refund) => EventView::AssetSell(
                beneficiary,
                asset_id,
                amount,
                refund,
            ),
            Event::AssetMinted(minter, asset_id, amount) => EventView::AssetMinted(minter, asset_id, amount),
            Event::AssetTokensAirDropped(asset_id, amount, from, to) => EventView::AssetTokensAirDropped(
                asset_id,
                amount,
                from,
                to@,
            ),
        }
    }
}

impl Clone for Event {
    fn clone(&self) -> (r: Self)
        ensures
            r@ == self@,
    {
        match self {
            Event::AssetCreated(asset_id, creator) => Event::AssetCreated(*asset_id, *creator),
            Event::AssetBought(buyer, asset_id, amount, cost) => Event::AssetBought(
                *buyer,
                *asset_id,
                *amount,
                *cost,
            ),
            Event::AssetSell(beneficiary, asset_id, amount, refund) => Event::AssetSell(
                *beneficiary,
                *asset_id,
                *amount,
                *refund,
            ),
            Event::AssetMinted(minter, asset_id, amount) => Event::AssetMinted(*minter, *asset_id, *amount),
            Event::AssetTokensAirDropped(asset_id, amount, from, to) => {
                let copy = to.clone();
                assert(copy@ =~= to@);
                Event::AssetTokensAirDropped(*asset_id, *amount, *from, copy)
            },
        }
    }
}

/// The views of a list of records, in order.
pub open spec fn event_views(events: Seq<Event>) -> Seq<EventView> {
    events.map_values(|event: Event| event@)
}

} // verus!
