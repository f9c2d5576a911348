use bonding_curve::errors::LedgerError;
use bonding_curve::ledger::{Ledger, Movement};

#[test]
fn new_ledger_is_all_zero() {
    let ledger = Ledger::new();
    assert_eq!(ledger.free_balance(0, 1), 0);
    assert_eq!(ledger.free_balance(u128::MAX, u64::MAX), 0);
    assert_eq!(ledger.total_issuance(7), 0);
}

#[test]
fn deposit_adds_to_balance_and_issuance() {
    let mut ledger = Ledger::new();
    assert_eq!(ledger.deposit(7, 1, 100), Ok(()));
    assert_eq!(ledger.deposit(7, 2, 50), Ok(()));
    assert_eq!(ledger.deposit(7, 1, 1), Ok(()));
    assert_eq!(ledger.deposit(8, 1, 9), Ok(()));
    assert_eq!(ledger.free_balance(7, 1), 101);
    assert_eq!(ledger.free_balance(7, 2), 50);
    assert_eq!(ledger.free_balance(8, 1), 9);
    assert_eq!(ledger.free_balance(8, 2), 0);
    assert_eq!(ledger.total_issuance(7), 151);
    assert_eq!(ledger.total_issuance(8), 9);
}

#[test]
fn deposit_overflow_changes_nothing() {
    let mut ledger = Ledger::new();
    assert_eq!(ledger.deposit(7, 1, u128::MAX), Ok(()));
    let before = ledger.clone();
    assert_eq!(ledger.deposit(7, 2, 1), Err(LedgerError::Overflow));
    assert_eq!(ledger.deposit(7, 1, 1), Err(LedgerError::Overflow));
    assert_eq!(ledger, before);
    assert_eq!(ledger.deposit(7, 2, 0), Ok(()));
    assert_eq!(ledger.deposit(8, 2, 1), Ok(()));
}

#[test]
fn can_withdraw_and_reserve_up_to_the_balance() {
    let mut ledger = Ledger::new();
    assert_eq!(ledger.deposit(7, 1, 100), Ok(()));
    assert_eq!(ledger.ensure_can_withdraw(7, 1, 100), Ok(()));
    assert_eq!(ledger.ensure_can_withdraw(7, 1, 0), Ok(()));
    assert_eq!(ledger.ensure_can_withdraw(7, 1, 101), Err(LedgerError::BalanceTooLow));
    assert_eq!(ledger.ensure_can_withdraw(7, 2, 1), Err(LedgerError::BalanceTooLow));
    assert!(ledger.can_reserve(7, 1, 100));
    assert!(!ledger.can_reserve(7, 1, 101));
    assert!(ledger.can_reserve(7, 2, 0));
}

#[test]
fn transfer_moves_the_amount() {
    let mut ledger = Ledger::new();
    assert_eq!(ledger.deposit(7, 1, 100), Ok(()));
    assert_eq!(ledger.transfer(7, 1, 2, 30), Ok(()));
    assert_eq!(ledger.free_balance(7, 1), 70);
    assert_eq!(ledger.free_balance(7, 2), 30);
    assert_eq!(ledger.total_issuance(7), 100);
    assert_eq!(ledger.transfer(7, 2, 1, 30), Ok(()));
    assert_eq!(ledger.free_balance(7, 1), 100);
    assert_eq!(ledger.free_balance(7, 2), 0);
}

#[test]
fn transfer_fails_entirely() {
    let mut ledger = Ledger::new();
    assert_eq!(ledger.deposit(7, 1, 100), Ok(()));
    let before = ledger.clone();
    assert_eq!(ledger.transfer(7, 1, 2, 101), Err(LedgerError::BalanceTooLow));
    assert_eq!(ledger.transfer(8, 1, 2, 1), Err(LedgerError::BalanceTooLow));
    assert_eq!(ledger.transfer(7, 1, 1, 101), Err(LedgerError::BalanceTooLow));
    assert_eq!(ledger, before);
}

#[test]
fn transfer_to_oneself_changes_no_balance() {
    let mut ledger = Ledger::new();
    assert_eq!(ledger.deposit(7, 1, 100), Ok(()));
    assert_eq!(ledger.transfer(7, 1, 1, 100), Ok(()));
    assert_eq!(ledger.free_balance(7, 1), 100);
    assert_eq!(ledger.transfer(7, 1, 2, 0), Ok(()));
    assert_eq!(ledger.free_balance(7, 2), 0);
}

#[test]
fn apply_all_applies_in_order() {
    let mut ledger = Ledger::new();
    assert_eq!(ledger.deposit(7, 1, 100), Ok(()));
    let transfers = vec![
        Movement::Transfer { currency_id: 7, from: 1, to: 2, amount: 60 },
        Movement::Transfer { currency_id: 7, from: 2, to: 3, amount: 50 },
        Movement::Transfer { currency_id: 7, from: 3, to: 1, amount: 5 },
    ];
    assert_eq!(ledger.apply_all(&transfers), Ok(()));
    assert_eq!(ledger.free_balance(7, 1), 45);
    assert_eq!(ledger.free_balance(7, 2), 10);
    assert_eq!(ledger.free_balance(7, 3), 45);
    assert_eq!(ledger.apply_all(&vec![]), Ok(()));
    assert_eq!(ledger.total_issuance(7), 100);
}

#[test]
fn apply_all_rolls_back_on_a_refusal() {
    let mut ledger = Ledger::new();
    assert_eq!(ledger.deposit(7, 1, 100), Ok(()));
    assert_eq!(ledger.deposit(8, 2, 5), Ok(()));
    let before = ledger.clone();
    let transfers = vec![
        Movement::Transfer { currency_id: 7, from: 1, to: 3, amount: 30 },
        Movement::Transfer { currency_id: 8, from: 2, to: 1, amount: 5 },
        Movement::Transfer { currency_id: 7, from: 1, to: 2, amount: 80 },
        Movement::Transfer { currency_id: 7, from: 1, to: 2, amount: 1 },
    ];
    assert_eq!(ledger.apply_all(&transfers), Err(LedgerError::BalanceTooLow));
    assert_eq!(ledger, before);
    assert_eq!(ledger.free_balance(7, 3), 0);
    assert_eq!(ledger.free_balance(8, 1), 0);
}

#[test]
fn clone_is_an_equal_ledger() {
    let mut ledger = Ledger::new();
    assert_eq!(ledger.deposit(7, 1, 100), Ok(()));
    let copy = ledger.clone();
    assert_eq!(copy, ledger);
    assert_eq!(ledger.transfer(7, 1, 2, 1), Ok(()));
    assert_eq!(copy.free_balance(7, 1), 100);
    assert_ne!(copy, ledger);
}

#[test]
fn zero_balances_leave_no_trace() {
    let mut ledger = Ledger::new();
    assert_eq!(ledger.deposit(7, 1, 0), Ok(()));
    assert_eq!(ledger, Ledger::new());
    assert_eq!(ledger.deposit(7, 1, 100), Ok(()));
    let before = ledger.clone();
    assert_eq!(ledger.transfer(7, 1, 2, 100), Ok(()));
    assert_eq!(ledger.free_balance(7, 1), 0);
    assert_eq!(ledger.transfer(7, 2, 1, 100), Ok(()));
    assert_eq!(ledger, before);
}

#[test]
fn withdraw_takes_from_balance_and_issuance() {
    let mut ledger = Ledger::new();
    assert_eq!(ledger.deposit(7, 1, 100), Ok(()));
    assert_eq!(ledger.deposit(7, 2, 50), Ok(()));
    assert_eq!(ledger.withdraw(7, 1, 30), Ok(()));
    assert_eq!(ledger.free_balance(7, 1), 70);
    assert_eq!(ledger.free_balance(7, 2), 50);
    assert_eq!(ledger.total_issuance(7), 120);
    let before = ledger.clone();
    assert_eq!(ledger.withdraw(7, 1, 71), Err(LedgerError::BalanceTooLow));
    assert_eq!(ledger.withdraw(8, 1, 1), Err(LedgerError::BalanceTooLow));
    assert_eq!(ledger, before);
    assert_eq!(ledger.withdraw(7, 1, 70), Ok(()));
    assert_eq!(ledger.withdraw(7, 2, 50), Ok(()));
    assert_eq!(ledger, Ledger::new());
}

#[test]
fn apply_makes_one_movement() {
    let mut ledger = Ledger::new();
    assert_eq!(ledger.apply(Movement::Deposit { currency_id: 7, who: 1, amount: 100 }), Ok(()));
    assert_eq!(ledger.apply(Movement::Transfer { currency_id: 7, from: 1, to: 2, amount: 40 }), Ok(()));
    assert_eq!(ledger.apply(Movement::Withdraw { currency_id: 7, who: 2, amount: 15 }), Ok(()));
    assert_eq!(ledger.free_balance(7, 1), 60);
    assert_eq!(ledger.free_balance(7, 2), 25);
    assert_eq!(ledger.total_issuance(7), 85);
    assert_eq!(
        ledger.apply(Movement::Withdraw { currency_id: 7, who: 2, amount: 26 }),
        Err(LedgerError::BalanceTooLow)
    );
    assert_eq!(
        ledger.apply(Movement::Deposit { currency_id: 7, who: 2, amount: u128::MAX }),
        Err(LedgerError::Overflow)
    );
}

#[test]
fn apply_all_mixes_movements() {
    let mut ledger = Ledger::new();
    let movements = vec![
        Movement::Deposit { currency_id: 7, who: 1, amount: 100 },
        Movement::Withdraw { currency_id: 7, who: 1, amount: 10 },
        Movement::Transfer { currency_id: 7, from: 1, to: 2, amount: 90 },
    ];
    assert_eq!(ledger.apply_all(&movements), Ok(()));
    assert_eq!(ledger.free_balance(7, 2), 90);
    assert_eq!(ledger.total_issuance(7), 90);
    let before = ledger.clone();
    let refused = vec![
        Movement::Withdraw { currency_id: 7, who: 2, amount: 90 },
        Movement::Deposit { currency_id: 8, who: 3, amount: 5 },
        Movement::Withdraw { currency_id: 7, who: 2, amount: 1 },
    ];
    assert_eq!(ledger.apply_all(&refused), Err(LedgerError::BalanceTooLow));
    assert_eq!(ledger, before);
}
