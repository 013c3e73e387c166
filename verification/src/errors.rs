use vstd::prelude::*;

verus! {

/// Typed failures of the lending engine.
///
/// Every operation is transactional: a failure leaves no partial mutation,
/// so each error value fully describes why a call changed nothing.
#[derive(Clone, Copy, Debug, PartialEq, Eq, Structural)]
pub enum LoanError {
    /// The loan amount must be greater than zero.
    InvalidAmount,
    /// The interest rate must be greater than zero.
    InvalidInterestRate,
    /// The loan term must be greater than zero.
    InvalidTerm,
    /// The required collateral amount must be greater than zero.
    InvalidCollateralAmount,
    /// Overflow occurred during a checked calculation.
    OverflowError,
    /// Invalid loan status for this operation.
    InvalidLoanStatus,
    /// Insufficient collateral provided.
    InsufficientCollateral,
    /// The loan has not yet expired.
    LoanNotExpired,
    /// Only the lender can perform this action.
    UnauthorizedLender,
    /// Only the borrower can perform this action.
    UnauthorizedBorrower,
    /// The token account owner does not match the expected owner.
    InvalidOwner,
    /// Invalid expiry date.
    InvalidExpiryDate,
    /// Guarantor offer not found.
    GuarantorOfferNotFound,
    /// Guarantor offer has expired.
    GuarantorOfferExpired,
    /// The guarantor offer is invalid or does not match the provided ID.
    InvalidGuarantorOffer,
    /// A guarantor was required but not provided.
    GuarantorNotProvided,
    /// The loan is not active.
    LoanNotActive,
    /// Insufficient repayment amount.
    InsufficientRepayment,
    /// Repayment amount exceeds the total amount due.
    ExcessiveRepayment,
    /// Invalid token account owner.
    InvalidTokenAccountOwner,
    /// The presented transfer authority does not match the one bound to the offer.
    InvalidPDA,
}

} // verus!
