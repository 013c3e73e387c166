use vstd::prelude::*;
use crate::collateral::debit_for_loan;
use crate::errors::LoanError;
use crate::models::LoanRepaid;
use crate::models::LoanStatus;
use crate::offers::spec_bound_authority;
use crate::states::AuthorityToken;
use crate::states::Loan;
use crate::states::LoanOffer;
use crate::states::TokenTransfer;
use crate::states::UserCollateral;

verus! {

/// How much collateral the borrower's balance leaves uncovered, floored at
/// zero.
pub open spec fn spec_shortfall(required: u64, available: u64) -> int {
    if available < required {
        required - available
    } else {
        0
    }
}

/// The guarantor's contribution to an acceptance: the borrower's shortfall,
/// capped at the guarantor's available balance.
pub open spec fn spec_guarantor_contribution(
    required: u64,
    borrower_balance: u64,
    guarantor_balance: u64,
) -> int {
    let shortfall = spec_shortfall(required, borrower_balance);
    if shortfall <= guarantor_balance {
        shortfall
    } else {
        guarantor_balance as int
    }
}

/// Computes the guarantor's contribution once, for reuse by both the
/// sufficiency check and the later debits.
pub fn guarantor_contribution(required: u64, borrower_balance: u64, guarantor_balance: u64) -> (c:
    u64)
    ensures
        c == spec_guarantor_contribution(required, borrower_balance, guarantor_balance),
        c <= guarantor_balance,
        c <= required,
        borrower_balance + c <= u64::MAX,
{
    let shortfall = required.saturating_sub(borrower_balance);
    if shortfall <= guarantor_balance {
        shortfall
    } else {
        guarantor_balance
    }
}

/// Simple interest owed on a principal, in basis points of it, with the
/// division truncating toward zero.
pub open spec fn spec_interest(amount: u64, interest_rate: u64) -> int {
    (amount * interest_rate) / 10000
}

/// Principal plus simple interest: the exact amount that settles a loan.
pub open spec fn spec_total_due(amount: u64, interest_rate: u64) -> int {
    amount + spec_interest(amount, interest_rate)
}

/// What the repayment target computation yields: the total due, or
/// `OverflowError` when the interest product or the final sum exceeds `u64`.
pub open spec fn total_due_outcome(amount: u64, interest_rate: u64) -> Result<u64, LoanError> {
    if amount * interest_rate > u64::MAX {
        Err(LoanError::OverflowError)
    } else if spec_total_due(amount, interest_rate) > u64::MAX {
        Err(LoanError::OverflowError)
    } else {
        Ok(spec_total_due(amount, interest_rate) as u64)
    }
}

/// Computes principal plus simple interest with checked arithmetic at every
/// step.
pub fn total_due(amount: u64, interest_rate: u64) -> (r: Result<u64, LoanError>)
    ensures
        r == total_due_outcome(amount, interest_rate),
        r is Ok ==> r->Ok_0 == spec_total_due(amount, interest_rate),
{
    let interest_product = match amount.checked_mul(interest_rate) {
        Some(p) => p,
        None => {
            return Err(LoanError::OverflowError);
        },
    };
    let interest = interest_product / 10000;
    match amount.checked_add(interest) {
        Some(total) => Ok(total),
        None => Err(LoanError::OverflowError),
    }
}

/// Everything a successful acceptance commits atomically: the offer turned
/// `Active`, the new loan, the debited collateral accounts, and the
/// disbursement the asset-transfer service must execute under the offer's
/// delegated authority. A failure commits none of it.
#[derive(Clone, Copy, Debug, PartialEq, Eq)]
pub struct LoanAcceptance {
    pub offer: LoanOffer,
    pub loan: Loan,
    pub borrower_collateral: UserCollateral,
    pub guarantor_collateral: Option<UserCollateral>,
    pub disbursement: TokenTransfer,
}

/// What accepting a proposed offer yields.
///
/// With a guarantor, the contribution is the borrower's shortfall capped at
/// the guarantor's balance, computed once and reused for the debits. The
/// acceptance fails with `GuarantorNotProvided` when a guarantor is requested
/// without a collateral reference, `InsufficientCollateral` when borrower
/// balance plus contribution stays under the requirement, and `InvalidPDA`
/// when the presented transfer authority is not the one bound to the offer at
/// creation. On success the borrower is debited the requirement less the
/// contribution, the guarantor is debited the contribution, the loan records
/// the combined total as its collateral, and the principal moves from lender
/// to borrower.
pub open spec fn accept_outcome(
    offer: LoanOffer,
    borrower: u64,
    borrower_collateral: UserCollateral,
    use_guarantor: bool,
    guarantor: Option<u64>,
    guarantor_collateral: Option<UserCollateral>,
    presented: AuthorityToken,
    now: i64,
) -> Result<LoanAcceptance, LoanError> {
    if use_guarantor && guarantor_collateral is None {
        Err(LoanError::GuarantorNotProvided)
    } else {
        let contribution: int = if use_guarantor {
            spec_guarantor_contribution(
                offer.required_collateral,
                borrower_collateral.amount,
                guarantor_collateral->0.amount,
            )
        } else {
            0
        };
        let total: int = borrower_collateral.amount + contribution;
        if total < offer.required_collateral {
            Err(LoanError::InsufficientCollateral)
        } else if presented != spec_bound_authority(offer.lender, offer.loan_offer_id) {
            Err(LoanError::InvalidPDA)
        } else {
            Ok(
                LoanAcceptance {
                    offer: LoanOffer { status: LoanStatus::Active, ..offer },
                    loan: Loan {
                        lender: offer.lender,
                        borrower,
                        amount: offer.amount,
                        interest_rate: offer.interest_rate,
                        term: offer.term,
                        start_time: now,
                        status: LoanStatus::Active,
                        collateral: total as u64,
                        loan_id: offer.loan_offer_id,
                        guarantor: if use_guarantor {
                            guarantor
                        } else {
                            None
                        },
                    },
                    borrower_collateral: UserCollateral {
                        user: borrower_collateral.user,
                        amount: (borrower_collateral.amount - (offer.required_collateral
                            - contribution)) as u64,
                    },
                    guarantor_collateral: if use_guarantor {
                        Some(
                            UserCollateral {
                                user: guarantor_collateral->0.user,
                                amount: (guarantor_collateral->0.amount - contribution) as u64,
                            },
                        )
                    } else {
                        guarantor_collateral
                    },
                    disbursement: TokenTransfer {
                        from: offer.lender,
                        to: borrower,
                        amount: offer.amount,
                    },
                },
            )
        }
    }
}

/// Accepts a proposed offer into an active loan.
///
/// The registry gates acceptance on the offer still being `Proposed`. The
/// call is atomic: the caller commits the returned acceptance as one unit, or
/// nothing on failure. `now` is the host's current logical time and becomes
/// the loan's start time.
pub fn accept_loan(
    offer: &LoanOffer,
    borrower: u64,
    borrower_collateral: &UserCollateral,
    use_guarantor: bool,
    guarantor: Option<u64>,
    guarantor_collateral: Option<UserCollateral>,
    presented: AuthorityToken,
    now: i64,
) -> (r: Result<LoanAcceptance, LoanError>)
    requires
        offer.status == LoanStatus::Proposed,
    ensures
        r == accept_outcome(
            *offer,
            borrower,
            *borrower_collateral,
            use_guarantor,
            guarantor,
            guarantor_collateral,
            presented,
            now,
        ),
        r is Ok ==> r->Ok_0.offer.status == LoanStatus::Active && r->Ok_0.loan.status
            == LoanStatus::Active && r->Ok_0.loan.collateral >= offer.required_collateral,
        r is Ok && offer.wf() ==> r->Ok_0.loan.wf(),
{
    let borrower_balance = borrower_collateral.amount;
    let mut contribution: u64 = 0;
    let mut total_collateral = borrower_balance;
    if use_guarantor {
        match guarantor_collateral {
            Some(g) => {
                contribution = guarantor_contribution(
                    offer.required_collateral,
                    borrower_balance,
                    g.amount,
                );
                total_collateral = match total_collateral.checked_add(contribution) {
                    Some(total) => total,
                    None => {
                        return Err(LoanError::OverflowError);
                    },
                };
            },
            None => {
                return Err(LoanError::GuarantorNotProvided);
            },
        }
    }
    if total_collateral < offer.required_collateral {
        return Err(LoanError::InsufficientCollateral);
    }
    let expected = crate::offers::bound_authority(offer.lender, offer.loan_offer_id);
    if presented != expected {
        return Err(LoanError::InvalidPDA);
    }
    let loan = Loan {
        lender: offer.lender,
        borrower,
        amount: offer.amount,
        interest_rate: offer.interest_rate,
        term: offer.term,
        start_time: now,
        status: LoanStatus::Active,
        collateral: total_collateral,
        loan_id: offer.loan_offer_id,
        guarantor: if use_guarantor {
            guarantor
        } else {
            None
        },
    };
    let mut updated_offer = *offer;
    updated_offer.status = LoanStatus::Active;
    let mut new_borrower_collateral = *borrower_collateral;
    match debit_for_loan(&mut new_borrower_collateral, offer.required_collateral - contribution) {
        Ok(()) => (),
        Err(e) => {
            return Err(e);
        },
    }
    let mut new_guarantor_collateral = guarantor_collateral;
    if use_guarantor && contribution > 0 {
        match new_guarantor_collateral {
            Some(g) => {
                let mut debited = g;
                match debit_for_loan(&mut debited, contribution) {
                    Ok(()) => {
                        new_guarantor_collateral = Some(debited);
                    },
                    Err(e) => {
                        return Err(e);
                    },
                }
            },
            None => {
                return Err(LoanError::GuarantorNotProvided);
            },
        }
    }
    Ok(
        LoanAcceptance {
            offer: updated_offer,
            loan,
            borrower_collateral: new_borrower_collateral,
            guarantor_collateral: new_guarantor_collateral,
            disbursement: TokenTransfer { from: offer.lender, to: borrower, amount: offer.amount },
        },
    )
}

/// When the loan's term runs out: its start time plus its term, as an
/// unbounded integer so that the overflow case can be spoken of.
pub open spec fn spec_expiry(loan: Loan) -> int {
    loan.start_time + loan.term
}

/// What repaying `amount` against a loan yields.
///
/// Only the borrower may repay (`UnauthorizedBorrower`), and only an active
/// loan (`LoanNotActive`). Before expiry only full settlement is accepted
/// (`InsufficientRepayment` below the total due); from expiry on, any amount
/// up to the total due is accepted (`ExcessiveRepayment` above it), with no
/// minimum. Exactly when the amount equals the total due, the loan becomes
/// `Repaid` and a `LoanRepaid` event is owed; a partial repayment leaves the
/// loan `Active` indefinitely — nothing here produces `Defaulted`. The
/// repayment itself always moves `amount` from borrower to lender.
pub open spec fn repay_outcome(loan: Loan, caller: u64, amount: u64, now: i64) -> Result<
    (Loan, TokenTransfer, Option<LoanRepaid>),
    LoanError,
> {
    if loan.status != LoanStatus::Active {
        Err(LoanError::LoanNotActive)
    } else if caller != loan.borrower {
        Err(LoanError::UnauthorizedBorrower)
    } else if spec_expiry(loan) > i64::MAX || spec_expiry(loan) < i64::MIN {
        Err(LoanError::OverflowError)
    } else if total_due_outcome(loan.amount, loan.interest_rate) is Err {
        Err(LoanError::OverflowError)
    } else {
        let due = spec_total_due(loan.amount, loan.interest_rate);
        let is_expired = now >= spec_expiry(loan);
        if !is_expired && amount < due {
            Err(LoanError::InsufficientRepayment)
        } else if is_expired && amount > due {
            Err(LoanError::ExcessiveRepayment)
        } else {
            Ok(
                (
                    Loan {
                        status: if amount == due {
                            LoanStatus::Repaid
                        } else {
                            loan.status
                        },
                        ..loan
                    },
                    TokenTransfer { from: loan.borrower, to: loan.lender, amount },
                    if amount == due {
                        Some(LoanRepaid { loan_id: loan.loan_id, amount_repaid: amount })
                    } else {
                        None
                    },
                ),
            )
        }
    }
}

/// Repays `amount` against the loan, validating it against the accrued
/// interest and the expiry at the host's current logical time `now`.
///
/// On success the caller must execute the returned transfer (borrower to
/// lender) and deliver the event, if one is returned, to the event sink; on
/// failure the loan is unchanged and nothing moves.
pub fn repay_loan(loan: &mut Loan, caller: u64, amount: u64, now: i64) -> (r: Result<
    (TokenTransfer, Option<LoanRepaid>),
    LoanError,
>)
    ensures
        r is Ok <==> repay_outcome(*old(loan), caller, amount, now) is Ok,
        r is Ok ==> ({
            let (new_loan, transfer, event) = repay_outcome(*old(loan), caller, amount, now)->Ok_0;
            *final(loan) == new_loan && r->Ok_0.0 == transfer && r->Ok_0.1 == event
        }),
        r is Err ==> r->Err_0 == repay_outcome(*old(loan), caller, amount, now)->Err_0
            && *final(loan) == *old(loan),
{
    if !(loan.status == LoanStatus::Active) {
        return Err(LoanError::LoanNotActive);
    }
    if caller != loan.borrower {
        return Err(LoanError::UnauthorizedBorrower);
    }
    let expiry = match loan.start_time.checked_add(loan.term) {
        Some(e) => e,
        None => {
            return Err(LoanError::OverflowError);
        },
    };
    let is_expired = now >= expiry;
    let due = match total_due(loan.amount, loan.interest_rate) {
        Ok(t) => t,
        Err(e) => {
            return Err(e);
        },
    };
    if !is_expired {
        if amount < due {
            return Err(LoanError::InsufficientRepayment);
        }
    } else {
        if amount > due {
            return Err(LoanError::ExcessiveRepayment);
        }
    }
    let transfer = TokenTransfer { from: loan.borrower, to: loan.lender, amount };
    if amount == due {
        loan.status = LoanStatus::Repaid;
        Ok((transfer, Some(LoanRepaid { loan_id: loan.loan_id, amount_repaid: amount })))
    } else {
        Ok((transfer, None))
    }
}

/// Law: before expiry, a repayment below the total due is rejected with
/// `InsufficientRepayment` — no partial prepayment exists.
pub proof fn lemma_early_partial_repayment_rejected(loan: Loan, caller: u64, amount: u64, now: i64)
    requires
        loan.status == LoanStatus::Active,
        caller == loan.borrower,
        i64::MIN <= spec_expiry(loan) <= i64::MAX,
        total_due_outcome(loan.amount, loan.interest_rate) is Ok,
        now < spec_expiry(loan),
        amount < spec_total_due(loan.amount, loan.interest_rate),
    ensures
        repay_outcome(loan, caller, amount, now) == Err::<
            (Loan, TokenTransfer, Option<LoanRepaid>),
            LoanError,
        >(LoanError::InsufficientRepayment),
{
}

/// Law: a repayment of exactly the total due settles the loan — the status
/// becomes `Repaid` and exactly one `LoanRepaid` event, recording the loan ID
/// and the amount, is owed; every other field of the loan is unchanged.
pub proof fn lemma_full_repayment_settles(loan: Loan, caller: u64, amount: u64, now: i64)
    requires
        repay_outcome(loan, caller, amount, now) is Ok,
        amount == spec_total_due(loan.amount, loan.interest_rate),
    ensures
        repay_outcome(loan, caller, amount, now)->Ok_0.0 == (Loan {
            status: LoanStatus::Repaid,
            ..loan
        }),
        repay_outcome(loan, caller, amount, now)->Ok_0.2 == Some(
            LoanRepaid { loan_id: loan.loan_id, amount_repaid: amount },
        ),
{
}

/// Law: from expiry on, a repayment below the total due is accepted, and the
/// loan stays `Active` with no event — an under-repaid, expired loan never
/// transitions to `Defaulted` through any operation of this crate.
pub proof fn lemma_expired_partial_repayment_keeps_active(
    loan: Loan,
    caller: u64,
    amount: u64,
    now: i64,
)
    requires
        loan.status == LoanStatus::Active,
        caller == loan.borrower,
        i64::MIN <= spec_expiry(loan) <= i64::MAX,
        total_due_outcome(loan.amount, loan.interest_rate) is Ok,
        now >= spec_expiry(loan),
        amount < spec_total_due(loan.amount, loan.interest_rate),
    ensures
        repay_outcome(loan, caller, amount, now) is Ok,
        repay_outcome(loan, caller, amount, now)->Ok_0.0.status == LoanStatus::Active,
        repay_outcome(loan, caller, amount, now)->Ok_0.2 is None,
{
}

/// Law: a successful acceptance debits exactly the offer's required
/// collateral, split between the borrower's account and (when a guarantor is
/// used) the guarantor's, and the loan records at least that much as its
/// committed collateral.
pub proof fn lemma_accept_debits_required_collateral(
    offer: LoanOffer,
    borrower: u64,
    borrower_collateral: UserCollateral,
    use_guarantor: bool,
    guarantor: Option<u64>,
    guarantor_collateral: Option<UserCollateral>,
    presented: AuthorityToken,
    now: i64,
)
    requires
        accept_outcome(
            offer,
            borrower,
            borrower_collateral,
            use_guarantor,
            guarantor,
            guarantor_collateral,
            presented,
            now,
        ) is Ok,
    ensures
        ({
            let accepted = accept_outcome(
                offer,
                borrower,
                borrower_collateral,
                use_guarantor,
                guarantor,
                guarantor_collateral,
                presented,
                now,
            )->Ok_0;
            let guarantor_debit: int = if use_guarantor {
                guarantor_collateral->0.amount - accepted.guarantor_collateral->0.amount
            } else {
                0
            };
            &&& borrower_collateral.amount - accepted.borrower_collateral.amount + guarantor_debit
                == offer.required_collateral
            &&& accepted.loan.collateral >= offer.required_collateral
            &&& !use_guarantor ==> accepted.guarantor_collateral == guarantor_collateral
        }),
{
}

} // verus!
