use vstd::prelude::*;
use crate::models::LoanStatus;

verus! {

/// A lender's published lending terms, awaiting acceptance.
///
/// Identities (here and throughout) are the plain numeric account keys the
/// host substrate assigns; the core only stores and compares them.
#[derive(Clone, Copy, Debug, PartialEq, Eq)]
pub struct LoanOffer {
    pub lender: u64,
    pub amount: u64,
    pub interest_rate: u64,
    pub term: i64,
    pub status: LoanStatus,
    pub required_collateral: u64,
    pub loan_offer_id: u64,
    pub guarantor: Option<u64>,
}

impl LoanOffer {
    /// Well-formedness established at creation: every term of the offer is
    /// strictly positive.
    pub open spec fn wf(self) -> bool {
        self.amount > 0 && self.interest_rate > 0 && self.term > 0
            && self.required_collateral > 0
    }
}

/// An active, collateral-backed credit extension created from an accepted
/// offer. At most one loan exists per (offer, borrower) pair; `loan_id` is
/// copied from the offer.
#[derive(Clone, Copy, Debug, PartialEq, Eq)]
pub struct Loan {
    pub lender: u64,
    pub borrower: u64,
    pub amount: u64,
    pub interest_rate: u64,
    pub term: i64,
    pub start_time: i64,
    pub status: LoanStatus,
    pub collateral: u64,
    pub loan_id: u64,
    pub guarantor: Option<u64>,
}

impl Loan {
    /// Well-formedness inherited from the accepted offer's terms.
    pub open spec fn wf(self) -> bool {
        self.amount > 0 && self.interest_rate > 0 && self.term > 0
    }
}

/// A user's pooled collateral balance. At most one per user, created lazily
/// on first deposit, never deleted; the balance never goes negative.
#[derive(Clone, Copy, Debug, PartialEq, Eq)]
pub struct UserCollateral {
    pub user: u64,
    pub amount: u64,
}

/// Monotonic sequence counter for loan-offer IDs.
#[derive(Clone, Copy, Debug, PartialEq, Eq)]
pub struct LoanOfferCounter {
    pub count: u64,
}

/// A third party's pledge to supplement a borrower's collateral shortfall.
/// The pledged amount is advisory: nothing is reserved at creation, and the
/// actual liability is drawn from the guarantor's collateral balance at
/// acceptance time.
#[derive(Clone, Copy, Debug, PartialEq, Eq)]
pub struct GuarantorOffer {
    pub guarantor: u64,
    pub amount: u64,
    pub interest_rate: u64,
    pub expiry_date: i64,
    pub offer_id: u64,
}

/// Monotonic sequence counter for guarantor-offer IDs, an ID space
/// independent of the loan-offer counter's.
#[derive(Clone, Copy, Debug, PartialEq, Eq)]
pub struct GuarantorOfferCounter {
    pub count: u64,
}

/// The delegated transfer authority bound to an offer at creation time: a
/// deterministic identity derived from the lender and the offer ID.
/// Acceptance must present a token equal to the one the registry bound; the
/// cryptographic check behind it belongs to the external authority verifier.
#[derive(Clone, Copy, Debug, PartialEq, Eq, Structural)]
pub struct AuthorityToken {
    pub lender: u64,
    pub offer_id: u64,
}

/// A request to the external asset-transfer service: move `amount` units of
/// the fungible asset from `from`'s custody to `to`'s.
#[derive(Clone, Copy, Debug, PartialEq, Eq, Structural)]
pub struct TokenTransfer {
    pub from: u64,
    pub to: u64,
    pub amount: u64,
}

} // verus!
