use bonding_curve::curves::CurveType;
use bonding_curve::errors::{ArithmeticError, DispatchError, DispatchResult, Error, LedgerError};
use bonding_curve::events::Event;
use bonding_curve::ledger::{Ledger, Movement};
use bonding_curve::origin::Origin;
use bonding_curve::pallet::{
    air_drop_total, ensure_can_create, new_mint_data, plan_air_drop, plan_buy, plan_sell, Config, Pallet,
};
use bonding_curve::token::MintingData;
use bonding_curve::types::{AccountId, Balance, CurrencyId};

const NATIVE: CurrencyId = 0;
const ASSET: CurrencyId = 10;

fn engine(balances: Vec<(AccountId, Balance)>) -> Pallet {
    let mut ledger = Ledger::new();
    for (who, amount) in balances {
        assert_eq!(ledger.deposit(NATIVE, who, amount), Ok(()));
    }
    Pallet::new(Config { native_currency_id: NATIVE, creator_asset_deposit: 10 }, ledger)
}

fn create(pallet: &mut Pallet, who: AccountId, asset_id: CurrencyId, max_supply: Balance, mint: Balance) -> DispatchResult {
    pallet.create_asset(
        Origin::signed(who),
        asset_id,
        max_supply,
        CurveType::Linear,
        mint,
        b"batman".to_vec(),
        b"bat".to_vec(),
        10,
    )
}

fn refused(pallet: &mut Pallet, call: impl FnOnce(&mut Pallet) -> DispatchResult, expected: DispatchError) {
    let before = pallet.clone();
    assert_eq!(call(pallet), Err(expected));
    assert_eq!(*pallet, before);
}

#[test]
fn new_engine_is_empty() {
    let pallet = engine(vec![(1, 50)]);
    assert_eq!(pallet.registry().len(), 0);
    assert_eq!(pallet.next_curve_id(), 0);
    assert!(pallet.events().is_empty());
    assert_eq!(pallet.ledger().free_balance(NATIVE, 1), 50);
    assert_eq!(pallet.config().creator_asset_deposit, 10);
    assert_eq!(pallet.assets_minted(ASSET), None);
}

#[test]
fn create_credits_the_initial_mint_to_the_creator() {
    let mut pallet = engine(vec![(1, 1000000)]);
    assert_eq!(create(&mut pallet, 1, ASSET, 10000, 2000), Ok(()));
    assert_eq!(pallet.ledger().free_balance(ASSET, 1), 2000);
    assert_eq!(pallet.ledger().total_issuance(ASSET), 2000);
    assert_eq!(pallet.ledger().free_balance(NATIVE, 1), 1000000);
    assert_eq!(pallet.next_curve_id(), 1);
    assert_eq!(pallet.events().clone(), vec![Event::AssetMinted(1, ASSET, 2000), Event::AssetCreated(ASSET, 1)]);
    let token = pallet.assets_minted(ASSET).unwrap();
    assert_eq!(token.creator, 1);
    assert_eq!(token.curve_id, 0);
    assert_eq!(
        token.mint_data,
        MintingData { minter: 1, minting_cap: Some(10000), current_mint_amount: Some(2000) }
    );
}

#[test]
fn curve_ids_count_up() {
    let mut pallet = engine(vec![(1, 1000000), (2, 1000000)]);
    assert_eq!(create(&mut pallet, 1, 10, 10000, 2000), Ok(()));
    assert_eq!(create(&mut pallet, 2, 11, 500, 0), Ok(()));
    assert_eq!(create(&mut pallet, 1, 12, 500, 1), Ok(()));
    assert_eq!(pallet.assets_minted(10).unwrap().curve_id, 0);
    assert_eq!(pallet.assets_minted(11).unwrap().curve_id, 1);
    assert_eq!(pallet.assets_minted(12).unwrap().curve_id, 2);
    assert_eq!(pallet.next_curve_id(), 3);
    assert_eq!(pallet.registry().len(), 3);
}

#[test]
fn create_needs_the_deposit() {
    let mut pallet = engine(vec![(1, 9), (2, 10)]);
    refused(
        &mut pallet,
        |p| create(p, 1, ASSET, 10000, 2000),
        DispatchError::Module(Error::InsufficientBalanceToReserve),
    );
    assert_eq!(create(&mut pallet, 2, ASSET, 10000, 2000), Ok(()));
    assert_eq!(pallet.ledger().free_balance(NATIVE, 2), 10);
}

#[test]
fn create_on_issued_asset_is_refused() {
    let mut ledger = Ledger::new();
    assert_eq!(ledger.deposit(NATIVE, 1, 1000), Ok(()));
    assert_eq!(ledger.deposit(ASSET, 7, 1), Ok(()));
    let mut pallet = Pallet::new(Config { native_currency_id: NATIVE, creator_asset_deposit: 10 }, ledger);
    refused(&mut pallet, |p| create(p, 1, ASSET, 10000, 2000), DispatchError::Module(Error::AssetAlreadyExists));
    refused(&mut pallet, |p| create(p, 1, NATIVE, 10000, 2000), DispatchError::Module(Error::AssetAlreadyExists));
}

#[test]
fn create_twice_is_refused_even_without_issuance() {
    let mut pallet = engine(vec![(1, 1000000), (2, 1000000)]);
    assert_eq!(create(&mut pallet, 1, ASSET, 10000, 0), Ok(()));
    assert_eq!(pallet.ledger().total_issuance(ASSET), 0);
    refused(&mut pallet, |p| create(p, 2, ASSET, 10000, 2000), DispatchError::Module(Error::AssetAlreadyExists));
    refused(&mut pallet, |p| create(p, 1, ASSET, 77, 5), DispatchError::Module(Error::AssetAlreadyExists));
}

#[test]
fn initial_mint_must_stay_below_the_maximum_supply() {
    let mut pallet = engine(vec![(1, 1000000)]);
    refused(
        &mut pallet,
        |p| create(p, 1, ASSET, 10000, 10000),
        DispatchError::Module(Error::MintAmountGreaterThanMaxSupply),
    );
    refused(
        &mut pallet,
        |p| create(p, 1, ASSET, 0, 0),
        DispatchError::Module(Error::MintAmountGreaterThanMaxSupply),
    );
    assert_eq!(create(&mut pallet, 1, ASSET, 10000, 9999), Ok(()));
}

#[test]
fn mint_within_the_cap_accumulates() {
    let mut pallet = engine(vec![(1, 1000000)]);
    assert_eq!(create(&mut pallet, 1, ASSET, 10000, 2000), Ok(()));
    assert_eq!(pallet.mint_asset(Origin::signed(1), ASSET, 3000), Ok(()));
    assert_eq!(pallet.assets_minted(ASSET).unwrap().mint_data.current_mint_amount, Some(5000));
    assert_eq!(pallet.mint_asset(Origin::signed(1), ASSET, 5000), Ok(()));
    assert_eq!(pallet.assets_minted(ASSET).unwrap().mint_data.current_mint_amount, Some(10000));
    assert_eq!(pallet.ledger().free_balance(ASSET, 1), 10000);
    assert_eq!(pallet.ledger().total_issuance(ASSET), 10000);
    assert_eq!(pallet.events().last(), Some(&Event::AssetMinted(1, ASSET, 5000)));
    assert_eq!(pallet.events().len(), 4);
    assert_eq!(pallet.registry().len(), 1);
}

#[test]
fn mint_beyond_the_cap_is_refused() {
    let mut pallet = engine(vec![(1, 1000000)]);
    assert_eq!(create(&mut pallet, 1, ASSET, 10000, 2000), Ok(()));
    refused(
        &mut pallet,
        |p| p.mint_asset(Origin::signed(1), ASSET, 10000),
        DispatchError::Module(Error::MintAmountGreaterThanMaxSupply),
    );
    refused(
        &mut pallet,
        |p| p.mint_asset(Origin::signed(1), ASSET, 8001),
        DispatchError::Module(Error::MintAmountGreaterThanMaxSupply),
    );
    assert_eq!(pallet.mint_asset(Origin::signed(1), ASSET, 8000), Ok(()));
}

#[test]
fn mint_overflows_at_the_numeric_ceiling() {
    let mut pallet = engine(vec![(1, 1000000)]);
    assert_eq!(create(&mut pallet, 1, ASSET, u128::MAX, 5), Ok(()));
    refused(
        &mut pallet,
        |p| p.mint_asset(Origin::signed(1), ASSET, u128::MAX),
        DispatchError::Module(Error::MintAmountOverflow),
    );
    refused(
        &mut pallet,
        |p| p.mint_asset(Origin::signed(1), ASSET, u128::MAX - 4),
        DispatchError::Module(Error::MintAmountOverflow),
    );
    assert_eq!(pallet.mint_asset(Origin::signed(1), ASSET, u128::MAX - 5), Ok(()));
    assert_eq!(pallet.assets_minted(ASSET).unwrap().mint_data.current_mint_amount, Some(u128::MAX));
    refused(
        &mut pallet,
        |p| p.mint_asset(Origin::signed(1), ASSET, 1),
        DispatchError::Module(Error::MintAmountOverflow),
    );
}

#[test]
fn mint_needs_a_signed_minter() {
    let mut pallet = engine(vec![(1, 1000000)]);
    assert_eq!(create(&mut pallet, 1, ASSET, 10000, 2000), Ok(()));
    refused(&mut pallet, |p| p.mint_asset(Origin::none(), ASSET, 1), DispatchError::BadOrigin);
    refused(&mut pallet, |p| p.mint_asset(Origin::root(), ASSET, 1), DispatchError::BadOrigin);
    refused(&mut pallet, |p| p.mint_asset(Origin::signed(3), ASSET, 1), DispatchError::Module(Error::InvalidMinter));
}

#[test]
fn buy_moves_cost_and_tokens() {
    let mut pallet = engine(vec![(1, 1000000), (2, 1000000)]);
    assert_eq!(create(&mut pallet, 1, ASSET, 10000, 2000), Ok(()));
    assert_eq!(pallet.buy_asset(Origin::signed(2), ASSET, 100), Ok(()));
    assert_eq!(pallet.ledger().free_balance(NATIVE, 2), 795000);
    assert_eq!(pallet.ledger().free_balance(NATIVE, 1), 1205000);
    assert_eq!(pallet.ledger().free_balance(ASSET, 2), 100);
    assert_eq!(pallet.ledger().free_balance(ASSET, 1), 1900);
    assert_eq!(pallet.ledger().total_issuance(ASSET), 2000);
    assert_eq!(pallet.ledger().total_issuance(NATIVE), 2000000);
    assert_eq!(pallet.events().last(), Some(&Event::AssetBought(2, ASSET, 100, 205000)));
    assert_eq!(pallet.assets_minted(ASSET).unwrap().mint_data.current_mint_amount, Some(2000));
}

#[test]
fn buy_is_bounded_by_the_minted_total() {
    let mut pallet = engine(vec![(1, 1000000), (2, 10000000)]);
    assert_eq!(create(&mut pallet, 1, ASSET, 10000, 2000), Ok(()));
    refused(
        &mut pallet,
        |p| p.buy_asset(Origin::signed(2), ASSET, 2000),
        DispatchError::Module(Error::MintAmountGreaterThanMaxSupply),
    );
    assert_eq!(pallet.buy_asset(Origin::signed(2), ASSET, 1999), Ok(()));
    assert_eq!(pallet.ledger().free_balance(NATIVE, 2), 10000000 - 5996000);
    assert_eq!(pallet.ledger().free_balance(ASSET, 1), 1);
}

#[test]
fn buy_is_bounded_by_the_cap() {
    let mut pallet = engine(vec![(1, 1000000), (2, u128::MAX >> 1)]);
    assert_eq!(create(&mut pallet, 1, ASSET, 10000, 6000), Ok(()));
    refused(
        &mut pallet,
        |p| p.buy_asset(Origin::signed(2), ASSET, 4001),
        DispatchError::Module(Error::MintAmountGreaterThanMaxSupply),
    );
    assert_eq!(pallet.buy_asset(Origin::signed(2), ASSET, 4000), Ok(()));
}

#[test]
fn buy_needs_the_cost() {
    let mut pallet = engine(vec![(1, 1000000), (2, 204999), (3, 205000)]);
    assert_eq!(create(&mut pallet, 1, ASSET, 10000, 2000), Ok(()));
    refused(
        &mut pallet,
        |p| p.buy_asset(Origin::signed(2), ASSET, 100),
        DispatchError::Module(Error::InsufficientBalanceForPurchase),
    );
    assert_eq!(pallet.buy_asset(Origin::signed(3), ASSET, 100), Ok(()));
    assert_eq!(pallet.ledger().free_balance(NATIVE, 3), 0);
}

#[test]
fn buy_needs_tokens_at_the_minter() {
    let mut pallet = engine(vec![(1, 1000000), (2, 100000000), (3, 100000000)]);
    assert_eq!(create(&mut pallet, 1, ASSET, 10000, 2000), Ok(()));
    assert_eq!(pallet.buy_asset(Origin::signed(2), ASSET, 1500), Ok(()));
    refused(
        &mut pallet,
        |p| p.buy_asset(Origin::signed(3), ASSET, 600),
        DispatchError::Ledger(LedgerError::BalanceTooLow),
    );
    assert_eq!(pallet.ledger().free_balance(NATIVE, 3), 100000000);
}

#[test]
fn buy_of_an_undefined_curve_is_refused() {
    let mut pallet = engine(vec![(1, 1000000), (2, 1000000)]);
    assert_eq!(
        pallet.create_asset(Origin::signed(1), ASSET, 10000, CurveType::Flat, 2000, vec![], vec![], 0),
        Ok(())
    );
    refused(
        &mut pallet,
        |p| p.buy_asset(Origin::signed(2), ASSET, 100),
        DispatchError::Module(Error::CurveTypeNotDefined),
    );
    refused(
        &mut pallet,
        |p| p.sell_asset(Origin::signed(1), ASSET, 2, 100),
        DispatchError::Module(Error::CurveTypeNotDefined),
    );
    assert_eq!(
        pallet.current_asset_price(Origin::signed(2), ASSET),
        Err(DispatchError::Module(Error::CurveTypeNotDefined))
    );
}

#[test]
fn buy_at_an_issuance_beyond_the_integral_is_an_overflow() {
    let mut pallet = engine(vec![(1, 1000000), (2, 1000000)]);
    assert_eq!(create(&mut pallet, 1, ASSET, u128::MAX, 1u128 << 70), Ok(()));
    refused(
        &mut pallet,
        |p| p.buy_asset(Origin::signed(2), ASSET, 1),
        DispatchError::Arithmetic(ArithmeticError::Overflow),
    );
    assert_eq!(
        pallet.current_asset_price(Origin::signed(2), ASSET),
        Err(DispatchError::Arithmetic(ArithmeticError::Overflow))
    );
}

#[test]
fn buy_needs_a_signed_caller() {
    let mut pallet = engine(vec![(1, 1000000)]);
    assert_eq!(create(&mut pallet, 1, ASSET, 10000, 2000), Ok(()));
    refused(&mut pallet, |p| p.buy_asset(Origin::none(), ASSET, 1), DispatchError::BadOrigin);
    refused(&mut pallet, |p| p.buy_asset(Origin::none(), 99, 1), DispatchError::BadOrigin);
}

#[test]
fn sell_pays_the_beneficiary_from_the_minter() {
    let mut pallet = engine(vec![(1, 3000000), (2, 1000000)]);
    assert_eq!(create(&mut pallet, 1, ASSET, 10000, 2000), Ok(()));
    assert_eq!(pallet.buy_asset(Origin::signed(2), ASSET, 100), Ok(()));
    assert_eq!(pallet.sell_asset(Origin::signed(2), ASSET, 3, 100), Ok(()));
    assert_eq!(pallet.ledger().free_balance(ASSET, 2), 0);
    assert_eq!(pallet.ledger().free_balance(ASSET, 1), 1900);
    assert_eq!(pallet.ledger().total_issuance(ASSET), 1900);
    assert_eq!(pallet.ledger().free_balance(NATIVE, 3), 195000);
    assert_eq!(pallet.ledger().free_balance(NATIVE, 1), 3000000 + 205000 - 195000);
    assert_eq!(pallet.ledger().free_balance(NATIVE, 2), 795000);
    assert_eq!(pallet.events().last(), Some(&Event::AssetSell(3, ASSET, 100, 195000)));
}

#[test]
fn sell_by_the_minter_to_a_beneficiary() {
    let mut pallet = engine(vec![(1, 2000000), (2, 2000000)]);
    assert_eq!(create(&mut pallet, 1, ASSET, 10000, 2000), Ok(()));
    assert_eq!(pallet.sell_asset(Origin::signed(1), ASSET, 2, 1000), Ok(()));
    assert_eq!(pallet.ledger().free_balance(ASSET, 1), 1000);
    assert_eq!(pallet.ledger().total_issuance(ASSET), 1000);
    assert_eq!(pallet.current_asset_price(Origin::signed(2), ASSET), Ok(500000));
    assert_eq!(pallet.ledger().free_balance(NATIVE, 1), 500000);
    assert_eq!(pallet.ledger().free_balance(NATIVE, 2), 3500000);
}

#[test]
fn sell_needs_the_refund_at_the_minter() {
    let mut pallet = engine(vec![(1, 1000000), (2, 2000000)]);
    assert_eq!(create(&mut pallet, 1, ASSET, 10000, 2000), Ok(()));
    refused(
        &mut pallet,
        |p| p.sell_asset(Origin::signed(1), ASSET, 2, 1000),
        DispatchError::Ledger(LedgerError::BalanceTooLow),
    );
}

#[test]
fn sell_needs_the_tokens() {
    let mut pallet = engine(vec![(1, 3000000), (2, 1000000)]);
    assert_eq!(create(&mut pallet, 1, ASSET, 10000, 2000), Ok(()));
    refused(
        &mut pallet,
        |p| p.sell_asset(Origin::signed(2), ASSET, 2, 1),
        DispatchError::Ledger(LedgerError::BalanceTooLow),
    );
    refused(&mut pallet, |p| p.sell_asset(Origin::root(), ASSET, 2, 1), DispatchError::BadOrigin);
    refused(&mut pallet, |p| p.sell_asset(Origin::signed(2), 11, 2, 0), DispatchError::Module(Error::AssetDoesNotExist));
}

#[test]
fn air_drop_gives_each_beneficiary_the_amount() {
    let mut pallet = engine(vec![(1, 1000000)]);
    assert_eq!(create(&mut pallet, 1, ASSET, 10000, 2000), Ok(()));
    assert_eq!(pallet.air_drop(Origin::signed(9), ASSET, vec![2, 3, 4], 500), Ok(()));
    assert_eq!(pallet.ledger().free_balance(ASSET, 2), 500);
    assert_eq!(pallet.ledger().free_balance(ASSET, 3), 500);
    assert_eq!(pallet.ledger().free_balance(ASSET, 4), 500);
    assert_eq!(pallet.ledger().free_balance(ASSET, 1), 500);
    assert_eq!(pallet.ledger().total_issuance(ASSET), 2000);
    assert_eq!(pallet.events().last(), Some(&Event::AssetTokensAirDropped(ASSET, 500, 1, vec![2, 3, 4])));
}

#[test]
fn air_drop_is_all_or_nothing() {
    let mut pallet = engine(vec![(1, 1000000)]);
    assert_eq!(create(&mut pallet, 1, ASSET, 10000, 2000), Ok(()));
    refused(
        &mut pallet,
        |p| p.air_drop(Origin::signed(1), ASSET, vec![2, 3, 4], 700),
        DispatchError::Ledger(LedgerError::BalanceTooLow),
    );
    assert_eq!(pallet.ledger().free_balance(ASSET, 2), 0);
    assert_eq!(pallet.ledger().free_balance(ASSET, 1), 2000);
    refused(
        &mut pallet,
        |p| p.air_drop(Origin::signed(1), ASSET, vec![2, 3], u128::MAX),
        DispatchError::Arithmetic(ArithmeticError::Overflow),
    );
    refused(&mut pallet, |p| p.air_drop(Origin::none(), ASSET, vec![2], 1), DispatchError::BadOrigin);
    refused(
        &mut pallet,
        |p| p.air_drop(Origin::signed(1), 11, vec![2], 1),
        DispatchError::Module(Error::AssetDoesNotExist),
    );
}

#[test]
fn air_drop_edge_cases() {
    let mut pallet = engine(vec![(1, 1000000)]);
    assert_eq!(create(&mut pallet, 1, ASSET, 10000, 2000), Ok(()));
    assert_eq!(pallet.air_drop(Origin::signed(1), ASSET, vec![], 500), Ok(()));
    assert_eq!(pallet.ledger().free_balance(ASSET, 1), 2000);
    assert_eq!(pallet.air_drop(Origin::signed(1), ASSET, vec![2, 2], 300), Ok(()));
    assert_eq!(pallet.ledger().free_balance(ASSET, 2), 600);
    assert_eq!(pallet.air_drop(Origin::signed(1), ASSET, vec![1, 3], 700), Ok(()));
    assert_eq!(pallet.ledger().free_balance(ASSET, 3), 700);
    assert_eq!(pallet.ledger().free_balance(ASSET, 1), 700);
    assert_eq!(pallet.air_drop(Origin::signed(1), ASSET, vec![5, 6], 350), Ok(()));
    assert_eq!(pallet.ledger().free_balance(ASSET, 1), 0);
}

#[test]
fn spot_price_is_the_integral_at_the_issuance() {
    let mut pallet = engine(vec![(1, 1000000)]);
    assert_eq!(create(&mut pallet, 1, ASSET, 10000, 2000), Ok(()));
    assert_eq!(pallet.current_asset_price(Origin::signed(2), ASSET), Ok(2000000));
    assert_eq!(pallet.asset_spot_price(Origin::signed(2), ASSET), Ok(2000000));
    assert_eq!(pallet.mint_asset(Origin::signed(1), ASSET, 100), Ok(()));
    assert_eq!(pallet.current_asset_price(Origin::signed(1), ASSET), Ok(2205000));
    assert_eq!(pallet.current_asset_price(Origin::none(), ASSET), Err(DispatchError::BadOrigin));
    assert_eq!(
        pallet.current_asset_price(Origin::signed(1), 11),
        Err(DispatchError::Module(Error::AssetDoesNotExist))
    );
}

#[test]
fn spot_price_asked_twice_is_the_same() {
    let mut pallet = engine(vec![(1, 1000000)]);
    assert_eq!(create(&mut pallet, 1, ASSET, 10000, 2000), Ok(()));
    let before = pallet.clone();
    let first = pallet.current_asset_price(Origin::signed(2), ASSET);
    let second = pallet.current_asset_price(Origin::signed(2), ASSET);
    assert_eq!(first, second);
    assert_eq!(pallet, before);
}

#[test]
fn plans_list_the_transfers_in_order() {
    assert_eq!(
        plan_buy(NATIVE, ASSET, 2, 1, 100, 205000),
        vec![
            Movement::Transfer { currency_id: NATIVE, from: 2, to: 1, amount: 205000 },
            Movement::Transfer { currency_id: ASSET, from: 1, to: 2, amount: 100 },
        ]
    );
    assert_eq!(
        plan_sell(NATIVE, ASSET, 2, 1, 3, 100, 195000),
        vec![
            Movement::Withdraw { currency_id: ASSET, who: 2, amount: 100 },
            Movement::Transfer { currency_id: NATIVE, from: 1, to: 3, amount: 195000 },
        ]
    );
    assert_eq!(
        plan_air_drop(ASSET, 1, &vec![4, 2], 9),
        vec![
            Movement::Transfer { currency_id: ASSET, from: 1, to: 4, amount: 9 },
            Movement::Transfer { currency_id: ASSET, from: 1, to: 2, amount: 9 },
        ]
    );
    assert_eq!(plan_air_drop(ASSET, 1, &Vec::new(), 9), Vec::<Movement>::new());
}

#[test]
fn air_drop_total_is_checked() {
    assert_eq!(air_drop_total(500, 3), Ok(1500));
    assert_eq!(air_drop_total(u128::MAX, 1), Ok(u128::MAX));
    assert_eq!(air_drop_total(u128::MAX, 0), Ok(0));
    assert_eq!(air_drop_total(u128::MAX, 2), Err(ArithmeticError::Overflow));
}

#[test]
fn creation_checks_come_in_order() {
    assert_eq!(ensure_can_create(Origin::none(), true, 0, false, 0, 10, 5), Err(DispatchError::BadOrigin));
    assert_eq!(ensure_can_create(Origin::root(), false, 1, true, u64::MAX, 5, 5), Err(DispatchError::BadOrigin));
    assert_eq!(
        ensure_can_create(Origin::signed(1), false, 1, true, u64::MAX, 5, 5),
        Err(DispatchError::Module(Error::InsufficientBalanceToReserve))
    );
    assert_eq!(
        ensure_can_create(Origin::signed(1), true, 1, false, u64::MAX, 5, 5),
        Err(DispatchError::Module(Error::AssetAlreadyExists))
    );
    assert_eq!(
        ensure_can_create(Origin::signed(1), true, 0, true, u64::MAX, 5, 5),
        Err(DispatchError::Module(Error::AssetAlreadyExists))
    );
    assert_eq!(
        ensure_can_create(Origin::signed(1), true, 0, false, u64::MAX, 5, 5),
        Err(DispatchError::Module(Error::MintAmountGreaterThanMaxSupply))
    );
    assert_eq!(
        ensure_can_create(Origin::signed(1), true, 0, false, u64::MAX, 5, 4),
        Err(DispatchError::Arithmetic(ArithmeticError::Overflow))
    );
    assert_eq!(ensure_can_create(Origin::signed(1), true, 0, false, u64::MAX - 1, 5, 4), Ok(1));
}

#[test]
fn new_asset_is_minted_by_its_creator() {
    assert_eq!(
        new_mint_data(3, 10000, 2000),
        MintingData { minter: 3, minting_cap: Some(10000), current_mint_amount: Some(2000) }
    );
}
