use vstd::prelude::*;

verus! {

/// Lifecycle status of an offer or a loan.
///
/// Only `Proposed -> Active`, `Proposed -> Cancelled` (both on the offer) and
/// `Active -> Repaid` (on the loan) are reachable through the operations of
/// this crate. `Defaulted` and `Expired` belong to the declared vocabulary but
/// no operation produces them.
#[derive(Clone, Copy, Debug, PartialEq, Eq, Structural)]
pub enum LoanStatus {
    Proposed,
    Active,
    Repaid,
    Defaulted,
    Cancelled,
    Expired,
}

/// Domain event: a lender published a new loan offer.
#[derive(Clone, Copy, Debug, PartialEq, Eq, Structural)]
pub struct LoanOfferCreated {
    pub lender: u64,
    pub amount: u64,
    pub interest_rate: u64,
    pub term: i64,
    pub required_collateral: u64,
    pub loan_offer_id: u64,
}

/// Domain event: an offer was accepted into an active loan.
///
/// Declared in the event vocabulary; no operation of this crate emits it.
#[derive(Clone, Copy, Debug, PartialEq, Eq, Structural)]
pub struct LoanActivated {
    pub loan_id: u64,
    pub borrower: u64,
    pub amount: u64,
    pub start_time: i64,
}

/// Domain event: a loan was settled in full.
#[derive(Clone, Copy, Debug, PartialEq, Eq, Structural)]
pub struct LoanRepaid {
    pub loan_id: u64,
    pub amount_repaid: u64,
}

/// Domain event: a loan defaulted.
///
/// Declared in the event vocabulary; no operation of this crate emits it.
#[derive(Clone, Copy, Debug, PartialEq, Eq, Structural)]
pub struct LoanDefaulted {
    pub loan_id: u64,
    pub defaulted_amount: u64,
}

} // verus!
