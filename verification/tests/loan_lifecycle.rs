use kubera::collateral::debit_for_loan;
use kubera::errors::LoanError;
use kubera::loans::accept_loan;
use kubera::loans::guarantor_contribution;
use kubera::loans::repay_loan;
use kubera::loans::total_due;
use kubera::models::LoanRepaid;
use kubera::models::LoanStatus;
use kubera::offers::bound_authority;
use kubera::offers::create_loan_offer;
use kubera::offers::initialize_loan_offer_counter;
use kubera::offers::CreateLoanOfferArgs;
use kubera::states::AuthorityToken;
use kubera::states::Loan;
use kubera::states::LoanOffer;
use kubera::states::TokenTransfer;
use kubera::states::UserCollateral;

fn proposed_offer(required_collateral: u64) -> LoanOffer {
    let mut counter = initialize_loan_offer_counter();
    let args = CreateLoanOfferArgs {
        amount: 1000,
        interest_rate: 500,
        term: 3600,
        required_collateral,
    };
    let (offer, _) = create_loan_offer(&mut counter, 1, args).unwrap();
    offer
}

fn active_loan() -> Loan {
    Loan {
        lender: 1,
        borrower: 2,
        amount: 1000,
        interest_rate: 500,
        term: 3600,
        start_time: 100,
        status: LoanStatus::Active,
        collateral: 150,
        loan_id: 0,
        guarantor: None,
    }
}

#[test]
fn total_due_is_principal_plus_floored_interest() {
    assert_eq!(total_due(1000, 500), Ok(1050));
    assert_eq!(total_due(999, 1), Ok(999));
    assert_eq!(total_due(u64::MAX, 2), Err(LoanError::OverflowError));
}

#[test]
fn contribution_is_shortfall_capped_at_guarantor_balance() {
    assert_eq!(guarantor_contribution(150, 100, 80), 50);
    assert_eq!(guarantor_contribution(150, 100, 30), 30);
    assert_eq!(guarantor_contribution(150, 200, 80), 0);
}

#[test]
fn accept_with_guarantor_splits_the_debit() {
    let offer = proposed_offer(150);
    let borrower_collateral = UserCollateral { user: 2, amount: 100 };
    let guarantor_collateral = UserCollateral { user: 3, amount: 80 };
    let token = bound_authority(1, offer.loan_offer_id);
    let accepted = accept_loan(
        &offer,
        2,
        &borrower_collateral,
        true,
        Some(3),
        Some(guarantor_collateral),
        token,
        100,
    )
    .unwrap();
    assert_eq!(accepted.borrower_collateral.amount, 0);
    assert_eq!(accepted.guarantor_collateral.unwrap().amount, 30);
    assert_eq!(accepted.loan.collateral, 150);
    assert_eq!(accepted.loan.status, LoanStatus::Active);
    assert_eq!(accepted.loan.guarantor, Some(3));
    assert_eq!(accepted.loan.start_time, 100);
    assert_eq!(accepted.loan.loan_id, offer.loan_offer_id);
    assert_eq!(accepted.offer.status, LoanStatus::Active);
    assert_eq!(accepted.disbursement, TokenTransfer { from: 1, to: 2, amount: 1000 });
}

#[test]
fn accept_without_guarantor_fails_on_short_collateral() {
    let offer = proposed_offer(150);
    let borrower_collateral = UserCollateral { user: 2, amount: 50 };
    let token = bound_authority(1, offer.loan_offer_id);
    let result = accept_loan(&offer, 2, &borrower_collateral, false, None, None, token, 100);
    assert_eq!(result, Err(LoanError::InsufficientCollateral));
    assert_eq!(offer.status, LoanStatus::Proposed);
    assert_eq!(borrower_collateral.amount, 50);
}

#[test]
fn accept_without_guarantor_debits_the_full_requirement() {
    let offer = proposed_offer(150);
    let borrower_collateral = UserCollateral { user: 2, amount: 200 };
    let token = bound_authority(1, offer.loan_offer_id);
    let accepted =
        accept_loan(&offer, 2, &borrower_collateral, false, None, None, token, 100).unwrap();
    assert_eq!(accepted.borrower_collateral.amount, 50);
    assert_eq!(accepted.guarantor_collateral, None);
    assert_eq!(accepted.loan.collateral, 200);
    assert_eq!(accepted.loan.guarantor, None);
}

#[test]
fn accept_requires_a_guarantor_reference_when_requested() {
    let offer = proposed_offer(150);
    let borrower_collateral = UserCollateral { user: 2, amount: 100 };
    let token = bound_authority(1, offer.loan_offer_id);
    let result = accept_loan(&offer, 2, &borrower_collateral, true, Some(3), None, token, 100);
    assert_eq!(result, Err(LoanError::GuarantorNotProvided));
}

#[test]
fn accept_rejects_a_mismatched_authority() {
    let offer = proposed_offer(150);
    let borrower_collateral = UserCollateral { user: 2, amount: 200 };
    let wrong = AuthorityToken { lender: 1, offer_id: 5 };
    let result = accept_loan(&offer, 2, &borrower_collateral, false, None, None, wrong, 100);
    assert_eq!(result, Err(LoanError::InvalidPDA));
}

#[test]
fn early_repayment_must_settle_in_full() {
    let mut loan = active_loan();
    let result = repay_loan(&mut loan, 2, 1049, 200);
    assert_eq!(result, Err(LoanError::InsufficientRepayment));
    assert_eq!(loan.status, LoanStatus::Active);

    let (transfer, event) = repay_loan(&mut loan, 2, 1050, 200).unwrap();
    assert_eq!(loan.status, LoanStatus::Repaid);
    assert_eq!(transfer, TokenTransfer { from: 2, to: 1, amount: 1050 });
    assert_eq!(event, Some(LoanRepaid { loan_id: 0, amount_repaid: 1050 }));
}

#[test]
fn expired_partial_repayment_leaves_the_loan_active() {
    let mut loan = active_loan();
    let expiry = 100 + 3600;
    let (transfer, event) = repay_loan(&mut loan, 2, 300, expiry).unwrap();
    assert_eq!(loan.status, LoanStatus::Active);
    assert_eq!(transfer, TokenTransfer { from: 2, to: 1, amount: 300 });
    assert_eq!(event, None);

    let (_, event) = repay_loan(&mut loan, 2, 0, expiry + 1).unwrap();
    assert_eq!(event, None);
    assert_eq!(loan.status, LoanStatus::Active);
}

#[test]
fn expired_repayment_may_not_exceed_the_total_due() {
    let mut loan = active_loan();
    let result = repay_loan(&mut loan, 2, 1051, 100 + 3600);
    assert_eq!(result, Err(LoanError::ExcessiveRepayment));
    assert_eq!(loan.status, LoanStatus::Active);
}

#[test]
fn expired_full_repayment_still_settles() {
    let mut loan = active_loan();
    let (_, event) = repay_loan(&mut loan, 2, 1050, 100 + 7200).unwrap();
    assert_eq!(loan.status, LoanStatus::Repaid);
    assert_eq!(event, Some(LoanRepaid { loan_id: 0, amount_repaid: 1050 }));
}

#[test]
fn repay_requires_the_borrower() {
    let mut loan = active_loan();
    assert_eq!(repay_loan(&mut loan, 5, 1050, 200), Err(LoanError::UnauthorizedBorrower));
    assert_eq!(loan, active_loan());
}

#[test]
fn repay_requires_an_active_loan() {
    let mut loan = active_loan();
    loan.status = LoanStatus::Repaid;
    assert_eq!(repay_loan(&mut loan, 2, 1050, 200), Err(LoanError::LoanNotActive));
}

#[test]
fn repay_reports_expiry_overflow() {
    let mut loan = active_loan();
    loan.start_time = i64::MAX;
    assert_eq!(repay_loan(&mut loan, 2, 1050, 200), Err(LoanError::OverflowError));
}

#[test]
fn repay_reports_interest_overflow() {
    let mut loan = active_loan();
    loan.amount = u64::MAX;
    loan.interest_rate = 2;
    assert_eq!(repay_loan(&mut loan, 2, 1050, 200), Err(LoanError::OverflowError));
}

#[test]
fn loan_debit_fails_without_underflow() {
    let mut account = UserCollateral { user: 2, amount: 10 };
    assert_eq!(debit_for_loan(&mut account, 11), Err(LoanError::InsufficientCollateral));
    assert_eq!(account.amount, 10);
    assert_eq!(debit_for_loan(&mut account, 10), Ok(()));
    assert_eq!(account.amount, 0);
}
