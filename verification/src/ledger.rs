//! A multi-asset ledger: free balances per currency and account, and the total
//! issuance of each currency.

use std::collections::HashMap;
use vstd::prelude::*;
use vstd::std_specs::hash::*;
use crate::errors::LedgerError;
use crate::types::{AccountId, Balance, CurrencyId};

verus! {

broadcast use group_hash_axioms;

/// What a ledger holds: a free balance for every currency and account, and a
/// total issuance for every currency. Both maps are total; what was never
/// touched is zero.
pub struct LedgerView {
    pub free: Map<(CurrencyId, AccountId), Balance>,
    pub issuance: Map<CurrencyId, Balance>,
}

impl LedgerView {
    /// The free balance of `who` under `currency_id`.
    pub open spec fn free_balance(self, currency_id: CurrencyId, who: AccountId) -> Balance {
        self.free[(currency_id, who)]
    }

    /// The total issuance of `currency_id`.
    pub open spec fn total_issuance(self, currency_id: CurrencyId) -> Balance {
        self.issuance[currency_id]
    }

    /// Why a deposit of `amount` to `who` is refused, if it is.
    pub open spec fn deposit_error(self, currency_id: CurrencyId, who: AccountId, amount: Balance) -> Option<
        LedgerError,
    > {
        if self.free_balance(currency_id, who) + amount > u128::MAX || self.total_issuance(currency_id) + amount
            > u128::MAX {
            Some(LedgerError::Overflow)
        } else {
            None
        }
    }

    /// The ledger after `amount` was added to the balance of `who` and to the
    /// total issuance.
    pub open spec fn deposited(self, currency_id: CurrencyId, who: AccountId, amount: Balance) -> LedgerView {
        LedgerView {
            free: self.free.insert(
                (currency_id, who),
                (self.free_balance(currency_id, who) + amount) as Balance,
            ),
            issuance: self.issuance.insert(
                currency_id,
                (self.total_issuance(currency_id) + amount) as Balance,
            ),
        }
    }

    /// Why a withdrawal of `amount` from `who` is refused, if it is.
    pub open spec fn withdraw_error(self, currency_id: CurrencyId, who: AccountId, amount: Balance) -> Option<
        LedgerError,
    > {
        if self.free_balance(currency_id, who) < amount || self.total_issuance(currency_id) < amount {
            Some(LedgerError::BalanceTooLow)
        } else {
            None
        }
    }

    /// The ledger after `amount` was taken from the balance of `who` and out
    /// of the total issuance.
    pub open spec fn withdrawn(self, currency_id: CurrencyId, who: AccountId, amount: Balance) -> LedgerView {
        LedgerView {
            free: self.free.insert(
                (currency_id, who),
                (self.free_balance(currency_id, who) - amount) as Balance,
            ),
            issuance: self.issuance.insert(
                currency_id,
                (self.total_issuance(currency_id) - amount) as Balance,
            ),
        }
    }

    /// Why a transfer of `amount` from `from` to `to` is refused, if it is.
    pub open spec fn transfer_error(
        self,
        currency_id: CurrencyId,
        from: AccountId,
        to: AccountId,
        amount: Balance,
    ) -> Option<LedgerError> {
        if self.free_balance(currency_id, from) < amount {
            Some(LedgerError::BalanceTooLow)
        } else if from != to && self.free_balance(currency_id, to) + amount > u128::MAX {
            Some(LedgerError::Overflow)
        } else {
            None
        }
    }

    /// The ledger after `amount` moved from `from` to `to`. A transfer to
    /// oneself changes nothing.
    pub open spec fn transferred(
        self,
        currency_id: CurrencyId,
        from: AccountId,
        to: AccountId,
        amount: Balance,
    ) -> LedgerView {
        if from == to {
            self
        } else {
            LedgerView {
                free: self.free.insert(
                    (currency_id, from),
                    (self.free_balance(currency_id, from) - amount) as Balance,
                ).insert((currency_id, to), (self.free_balance(currency_id, to) + amount) as Balance),
                issuance: self.issuance,
            }
        }
    }
}

/// One movement of funds on a ledger.
#[derive(Clone, Copy, Debug, PartialEq, Eq, Structural)]
pub enum Movement {
    /// Credit `amount` to `who` and add it to the issuance.
    Deposit { currency_id: CurrencyId, who: AccountId, amount: Balance },
    /// Debit `amount` from `who` and take it out of the issuance.
    Withdraw { currency_id: CurrencyId, who: AccountId, amount: Balance },
    /// Move `amount` from `from` to `to`.
    Transfer { currency_id: CurrencyId, from: AccountId, to: AccountId, amount: Balance },
}

impl LedgerView {
    /// The ledger on which every balance and every issuance is zero.
    pub open spec fn empty() -> LedgerView {
        LedgerView {
            free: Map::new(|key: (CurrencyId, AccountId)| true, |key: (CurrencyId, AccountId)| 0u128),
            issuance: Map::new(|currency_id: CurrencyId| true, |currency_id: CurrencyId| 0u128),
        }
    }

    /// Why a movement is refused, if it is.
    pub open spec fn movement_error(self, movement: Movement) -> Option<LedgerError> {
        match movement {
            Movement::Deposit { currency_id, who, amount } => self.deposit_error(currency_id, who, amount),
            Movement::Withdraw { currency_id, who, amount } => self.withdraw_error(currency_id, who, amount),
            Movement::Transfer { currency_id, from, to, amount } => self.transfer_error(
                currency_id,
                from,
                to,
                amount,
            ),
        }
    }

    /// The ledger after a movement.
    pub open spec fn moved(self, movement: Movement) -> LedgerView {
        match movement {
            Movement::Deposit { currency_id, who, amount } => self.deposited(currency_id, who, amount),
            Movement::Withdraw { currency_id, who, amount } => self.withdrawn(currency_id, who, amount),
            Movement::Transfer { currency_id, from, to, amount } => self.transferred(currency_id, from, to, amount),
        }
    }

    /// The ledger after the movements were made in order, or the error of the
    /// first one that is refused.
    pub open spec fn applied(self, movements: Seq<Movement>) -> Result<LedgerView, LedgerError>
        decreases movements.len(),
    {
        if movements.len() == 0 {
            Ok(self)
        } else {
            match self.applied(movements.drop_last()) {
                Err(e) => Err(e),
                Ok(ledger) => match ledger.movement_error(movements.last()) {
                    Some(e) => Err(e),
                    None => Ok(ledger.moved(movements.last())),
                },
            }
        }
    }
}

/// A multi-asset ledger held in memory. A balance or an issuance of zero is
/// not stored, so that ledgers with equal balances are equal.
#[derive(Debug, PartialEq, Eq)]
pub struct Ledger {
    accounts: HashMap<CurrencyId, HashMap<AccountId, Balance>>,
    issuance: HashMap<CurrencyId, Balance>,
}

impl View for Ledger {
    type V = LedgerView;

    closed spec fn view(&self) -> LedgerView {
        LedgerView {
            free: Map::new(
                |key: (CurrencyId, AccountId)| true,
                |key: (CurrencyId, AccountId)| self.free_of(key.0, key.1),
            ),
            issuance: Map::new(|currency_id: CurrencyId| true, |currency_id: CurrencyId| self.issuance_of(currency_id)),
        }
    }
}

impl Clone for Ledger {
    fn clone(&self) -> (r: Self)
        ensures
            r@ == self@,
    {
        let r = Ledger { accounts: self.accounts.clone(), issuance: self.issuance.clone() };
        assert(r@.free =~= self@.free);
        assert(r@.issuance =~= self@.issuance);
        r
    }
}

impl Ledger {
    spec fn free_of(&self, currency_id: CurrencyId, who: AccountId) -> Balance {
        if self.accounts@.contains_key(currency_id) && self.accounts@[currency_id]@.contains_key(who) {
            self.accounts@[currency_id]@[who]
        } else {
            0
        }
    }

    spec fn issuance_of(&self, currency_id: CurrencyId) -> Balance {
        if self.issuance@.contains_key(currency_id) {
            self.issuance@[currency_id]
        } else {
            0
        }
    }

    /// A ledger on which every balance and every issuance is zero.
    pub fn new() -> (r: Self)
        ensures
            r@ == LedgerView::empty(),
    {
        let r = Ledger { accounts: HashMap::new(), issuance: HashMap::new() };
        assert(r@.free =~= LedgerView::empty().free);
        assert(r@.issuance =~= LedgerView::empty().issuance);
        r
    }

    /// The total amount of issuance of `currency_id`.
    pub fn total_issuance(&self, currency_id: CurrencyId) -> (r: Balance)
        ensures
            r == self@.total_issuance(currency_id),
    {
        match self.issuance.get(&currency_id) {
            Some(total) => *total,
            None => 0,
        }
    }

    /// The free balance of `who` under `currency_id`.
    pub fn free_balance(&self, currency_id: CurrencyId, who: AccountId) -> (r: Balance)
        ensures
            r == self@.free_balance(currency_id, who),
    {
        match self.accounts.get(&currency_id) {
            Some(balances) => match balances.get(&who) {
                Some(free) => *free,
                None => 0,
            },
            None => 0,
        }
    }

    /// Whether `who` could set `value` of `currency_id` aside.
    pub fn can_reserve(&self, currency_id: CurrencyId, who: AccountId, value: Balance) -> (r: bool)
        ensures
            r == (self@.free_balance(currency_id, who) >= value),
    {
        self.free_balance(currency_id, who) >= value
    }

    /// A dry run of a withdrawal: `Ok` if and only if `who` holds `amount`.
    pub fn ensure_can_withdraw(&self, currency_id: CurrencyId, who: AccountId, amount: Balance) -> (r: Result<
        (),
        LedgerError,
    >)
        ensures
            r == (if self@.free_balance(currency_id, who) >= amount {
                Ok::<(), LedgerError>(())
            } else {
                Err(LedgerError::BalanceTooLow)
            }),
    {
        if self.free_balance(currency_id, who) >= amount {
            Ok(())
        } else {
            Err(LedgerError::BalanceTooLow)
        }
    }

    fn set_free(&mut self, currency_id: CurrencyId, who: AccountId, value: Balance)
        ensures
            final(self)@.free == old(self)@.free.insert((currency_id, who), value),
            final(self)@.issuance == old(self)@.issuance,
    {
        let mut balances = match self.accounts.remove(&currency_id) {
            Some(balances) => balances,
            None => HashMap::new(),
        };
        if value == 0 {
            balances.remove(&who);
        } else {
            balances.insert(who, value);
        }
        if !balances.is_empty() {
            self.accounts.insert(currency_id, balances);
        }
        assert(self@.free =~= old(self)@.free.insert((currency_id, who), value));
        assert(self@.issuance =~= old(self)@.issuance);
    }

    fn set_issuance(&mut self, currency_id: CurrencyId, value: Balance)
        ensures
            final(self)@.free == old(self)@.free,
            final(self)@.issuance == old(self)@.issuance.insert(currency_id, value),
    {
        if value == 0 {
            self.issuance.remove(&currency_id);
        } else {
            self.issuance.insert(currency_id, value);
        }
        assert(self@.free =~= old(self)@.free);
        assert(self@.issuance =~= old(self)@.issuance.insert(currency_id, value));
    }

    /// Add `amount` to the balance of `who` under `currency_id` and to the
    /// total issuance. Where either would overflow, nothing changes.
    pub fn deposit(&mut self, currency_id: CurrencyId, who: AccountId, amount: Balance) -> (r: Result<
        (),
        LedgerError,
    >)
        ensures
            match old(self)@.deposit_error(currency_id, who, amount) {
                Some(e) => r == Err::<(), LedgerError>(e) && final(self)@ == old(self)@,
                None => r is Ok && final(self)@ == old(self)@.deposited(currency_id, who, amount),
            },
    {
        let free: Balance = self.free_balance(currency_id, who);
        let total: Balance = self.total_issuance(currency_id);
        match (free.checked_add(amount), total.checked_add(amount)) {
            (Some(new_free), Some(new_total)) => {
                self.set_free(currency_id, who, new_free);
                self.set_issuance(currency_id, new_total);
                Ok(())
            },
            _ => Err(LedgerError::Overflow),
        }
    }

    /// Move `amount` of `currency_id` from `from` to `to`. The transfer
    /// succeeds entirely or changes nothing.
    pub fn transfer(&mut self, currency_id: CurrencyId, from: AccountId, to: AccountId, amount: Balance) -> (r:
        Result<(), LedgerError>)
        ensures
            match old(self)@.transfer_error(currency_id, from, to, amount) {
                Some(e) => r == Err::<(), LedgerError>(e) && final(self)@ == old(self)@,
                None => r is Ok && final(self)@ == old(self)@.transferred(currency_id, from, to, amount),
            },
    {
        let from_free: Balance = self.free_balance(currency_id, from);
        if from_free < amount {
            return Err(LedgerError::BalanceTooLow);
        }
        if from == to {
            return Ok(());
        }
        let to_free: Balance = self.free_balance(currency_id, to);
        match to_free.checked_add(amount) {
            Some(new_to) => {
                self.set_free(currency_id, from, from_free - amount);
                self.set_free(currency_id, to, new_to);
                assert(self@.free =~= old(self)@.transferred(currency_id, from, to, amount).free);
                Ok(())
            },
            None => Err(LedgerError::Overflow),
        }
    }

    /// Remove `amount` from the balance of `who` under `currency_id` and from
    /// the total issuance. Where either holds less, nothing changes.
    pub fn withdraw(&mut self, currency_id: CurrencyId, who: AccountId, amount: Balance) -> (r: Result<
        (),
        LedgerError,
    >)
        ensures
            match old(self)@.withdraw_error(currency_id, who, amount) {
                Some(e) => r == Err::<(), LedgerError>(e) && final(self)@ == old(self)@,
                None => r is Ok && final(self)@ == old(self)@.withdrawn(currency_id, who, amount),
            },
    {
        let free: Balance = self.free_balance(currency_id, who);
        let total: Balance = self.total_issuance(currency_id);
        if free < amount || total < amount {
            return Err(LedgerError::BalanceTooLow);
        }
        self.set_free(currency_id, who, free - amount);
        self.set_issuance(currency_id, total - amount);
        Ok(())
    }

    /// Make one movement. It succeeds entirely or changes nothing.
    pub fn apply(&mut self, movement: Movement) -> (r: Result<(), LedgerError>)
        ensures
            match old(self)@.movement_error(movement) {
                Some(e) => r == Err::<(), LedgerError>(e) && final(self)@ == old(self)@,
                None => r is Ok && final(self)@ == old(self)@.moved(movement),
            },
    {
        match movement {
            Movement::Deposit { currency_id, who, amount } => self.deposit(currency_id, who, amount),
            Movement::Withdraw { currency_id, who, amount } => self.withdraw(currency_id, who, amount),
            Movement::Transfer { currency_id, from, to, amount } => self.transfer(currency_id, from, to, amount),
        }
    }

    /// Make the movements in order. They all succeed, or the ledger is left
    /// as it was and the error of the first refused movement is returned.
    pub fn apply_all(&mut self, movements: &Vec<Movement>) -> (r: Result<(), LedgerError>)
        ensures
            match old(self)@.applied(movements@) {
                Ok(ledger) => r is Ok && final(self)@ == ledger,
                Err(e) => r == Err::<(), LedgerError>(e) && final(self)@ == old(self)@,
            },
    {
        let snapshot = self.clone();
        let mut i: usize = 0;
        while i < movements.len()
            invariant
                i <= movements.len(),
                snapshot@ == old(self)@,
                old(self)@.applied(movements@.take(i as int)) == Ok::<LedgerView, LedgerError>(self@),
            decreases movements.len() - i,
        {
            let movement = movements[i];
            proof {
                assert(movements@.take(i + 1).drop_last() =~= movements@.take(i as int));
                assert(movements@.take(i + 1).last() == movement);
                if self@.movement_error(movement) is Some {
                    lemma_applied_prefix_error(old(self)@, movements@, i + 1);
                }
            }
            match self.apply(movement) {
                Ok(()) => {
                    i = i + 1;
                },
                Err(e) => {
                    *self = snapshot;
                    return Err(e);
                },
            }
        }
        proof {
            assert(movements@.take(i as int) =~= movements@);
        }
        Ok(())
    }
}

/// Where a prefix of the movements is refused, the whole sequence is refused
/// with the same error.
pub proof fn lemma_applied_prefix_error(ledger: LedgerView, movements: Seq<Movement>, n: int)
    requires
        0 <= n <= movements.len(),
        ledger.applied(movements.take(n)) is Err,
    ensures
        ledger.applied(movements) == ledger.applied(movements.take(n)),
    decreases movements.len(),
{
    if n < movements.len() {
        assert(movements.drop_last().take(n) =~= movements.take(n));
        lemma_applied_prefix_error(ledger, movements.drop_last(), n);
    } else {
        assert(movements.take(n) =~= movements);
    }
}

} // verus!
