//! A collateralized peer-to-peer lending ledger.
//!
//! Lenders publish loan offers, borrowers accept them by pledging collateral
//! (optionally topped up by a third-party guarantor's balance), borrowers repay
//! principal plus simple interest before a term expires, and collateral can be
//! deposited or withdrawn independently.
//!
//! This crate holds the core arithmetic and state-transition rules: offer
//! creation and cancellation, collateral sufficiency with guarantor fallback,
//! loan acceptance, and repayment validation against accrued interest and
//! expiry. The host substrate around it (persistent account storage, signer
//! verification, the token-transfer primitive, event delivery) is a set of
//! external collaborators: the core consumes their results as plain values and
//! hands back the state transitions and transfer requests they must commit.

pub mod collateral;
pub mod errors;
pub mod guarantors;
pub mod loans;
pub mod models;
pub mod offers;
pub mod sequence;
pub mod states;
