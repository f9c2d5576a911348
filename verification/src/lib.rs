//! A bonding-curve token engine.
//!
//! A bonding curve relates the total issuance of a token to its price. The
//! cost of buying a quantity of tokens, and the refund for selling one, is the
//! difference of the curve's integral between the issuance before and after
//! the trade. This crate holds the curve arithmetic, the record kept for each
//! bonding-curve asset, the registry of those records, a multi-asset ledger,
//! and the operations that create, mint, buy, sell and air-drop assets.
//! Every operation either takes effect completely or leaves the state as it
//! was.

pub mod types;
pub mod errors;
pub mod checked;
pub mod curves;
pub mod power_curve;
pub mod ledger;
pub mod origin;
pub mod token;
pub mod registry;
pub mod events;
pub mod transitions;
pub mod proofs;
pub mod pallet;
