//! The errors that the engine's operations return.

use vstd::prelude::*;

verus! {

/// Why an operation on a bonding-curve asset was refused.
#[derive(Clone, Copy, Debug, PartialEq, Eq, Structural)]
pub enum Error {
    /// The sender cannot afford the deposit for creating an asset.
    InsufficientBalanceToReserve,
    /// The buyer cannot afford the cost of a purchase.
    InsufficientBalanceForPurchase,
    /// The asset id already has issuance or a record.
    AssetAlreadyExists,
    /// No record exists under the asset id.
    AssetDoesNotExist,
    /// A mint or trade would exceed the available or capped supply.
    MintAmountGreaterThanMaxSupply,
    /// The caller is not the registered minter of the asset.
    InvalidMinter,
    /// A trade was attempted before anything was minted.
    MintUninitiated,
    /// The curve variant has no integral.
    CurveTypeNotDefined,
    /// The running total of minted amounts does not fit the balance type.
    MintAmountOverflow,
}

/// An arithmetic operation whose exact result cannot be represented.
#[derive(Clone, Copy, Debug, PartialEq, Eq, Structural)]
pub enum ArithmeticError {
    /// A subtraction went below zero.
    Underflow,
    /// A result exceeded the largest 128-bit unsigned integer.
    Overflow,
    /// A divisor was zero.
    DivisionByZero,
}

/// Why the ledger refused a movement of funds.
#[derive(Clone, Copy, Debug, PartialEq, Eq, Structural)]
pub enum LedgerError {
    /// The account, or the issuance of the currency, holds less than the
    /// amount to be taken from it.
    BalanceTooLow,
    /// A balance or the total issuance would exceed the balance type.
    Overflow,
}

/// The origin of a call is not a signed account.
#[derive(Clone, Copy, Debug, PartialEq, Eq, Structural)]
pub struct BadOrigin;

/// The error of a dispatched operation.
#[derive(Clone, Copy, Debug, PartialEq, Eq, Structural)]
pub enum DispatchError {
    /// The call did not come from a signed account.
    BadOrigin,
    /// The engine refused the operation.
    Module(Error),
    /// The ledger refused a movement of funds.
    Ledger(LedgerError),
    /// A computation could not be carried out exactly.
    Arithmetic(ArithmeticError),
}

/// The result of a dispatched operation.
pub type DispatchResult = Result<(), DispatchError>;

} // verus!
