use vstd::prelude::*;
use crate::errors::LoanError;
use crate::models::LoanOfferCreated;
use crate::models::LoanStatus;
use crate::sequence::counter_next;
use crate::states::AuthorityToken;
use crate::states::LoanOffer;
use crate::states::LoanOfferCounter;

verus! {

/// The terms a lender submits when publishing an offer.
#[derive(Clone, Copy, Debug, PartialEq, Eq, Structural)]
pub struct CreateLoanOfferArgs {
    pub amount: u64,
    pub interest_rate: u64,
    pub term: i64,
    pub required_collateral: u64,
}

/// Offer terms are valid when each of the four parameters is strictly
/// positive.
pub open spec fn valid_offer_args(args: CreateLoanOfferArgs) -> bool {
    args.amount > 0 && args.interest_rate > 0 && args.term > 0 && args.required_collateral > 0
}

/// The validation error for invalid offer terms: the first failing parameter,
/// checked in the order amount, interest rate, term, required collateral.
pub open spec fn offer_args_error(args: CreateLoanOfferArgs) -> LoanError {
    if args.amount == 0 {
        LoanError::InvalidAmount
    } else if args.interest_rate == 0 {
        LoanError::InvalidInterestRate
    } else if args.term <= 0 {
        LoanError::InvalidTerm
    } else {
        LoanError::InvalidCollateralAmount
    }
}

/// The transfer authority the registry binds to an offer at creation: a
/// deterministic identity derived from the lender and the offer ID. A later
/// acceptance must present a token equal to this one.
pub open spec fn spec_bound_authority(lender: u64, offer_id: u64) -> AuthorityToken {
    AuthorityToken { lender, offer_id }
}

/// Derives the transfer authority bound to an offer's identity.
pub fn bound_authority(lender: u64, offer_id: u64) -> (token: AuthorityToken)
    ensures
        token == spec_bound_authority(lender, offer_id),
{
    AuthorityToken { lender, offer_id }
}

/// Creates the loan-offer counter with its initial count of zero.
pub fn initialize_loan_offer_counter() -> (counter: LoanOfferCounter)
    ensures
        counter.count == 0,
{
    LoanOfferCounter { count: 0 }
}

/// What publishing an offer yields: the persisted offer (status `Proposed`,
/// ID drawn from the counter, no bound guarantor), the `OfferCreated` event,
/// and the advanced counter value; or the first validation error, or
/// `OverflowError` from the ID sequence. The counter advances only on
/// success.
pub open spec fn create_offer_outcome(
    count: u64,
    lender: u64,
    args: CreateLoanOfferArgs,
) -> Result<(LoanOffer, LoanOfferCreated, u64), LoanError> {
    if !valid_offer_args(args) {
        Err(offer_args_error(args))
    } else {
        match counter_next(count) {
            Ok((offer_id, next_count)) => Ok(
                (
                    LoanOffer {
                        lender,
                        amount: args.amount,
                        interest_rate: args.interest_rate,
                        term: args.term,
                        status: LoanStatus::Proposed,
                        required_collateral: args.required_collateral,
                        loan_offer_id: offer_id,
                        guarantor: None,
                    },
                    LoanOfferCreated {
                        lender,
                        amount: args.amount,
                        interest_rate: args.interest_rate,
                        term: args.term,
                        required_collateral: args.required_collateral,
                        loan_offer_id: offer_id,
                    },
                    next_count,
                ),
            ),
            Err(e) => Err(e),
        }
    }
}

/// Publishes a loan offer after validating that amount, interest rate, term
/// and required collateral are each strictly positive (the first failing
/// check wins), drawing its ID from the counter. The host must also establish
/// the delegated transfer authority `bound_authority(lender, offer.loan_offer_id)`
/// for `args.amount` units, and deliver the returned event.
pub fn create_loan_offer(
    counter: &mut LoanOfferCounter,
    lender: u64,
    args: CreateLoanOfferArgs,
) -> (r: Result<(LoanOffer, LoanOfferCreated), LoanError>)
    ensures
        r is Ok <==> create_offer_outcome(old(counter).count, lender, args) is Ok,
        r is Ok ==> ({
            let (offer, event, next_count) = create_offer_outcome(
                old(counter).count,
                lender,
                args,
            )->Ok_0;
            r->Ok_0.0 == offer && r->Ok_0.1 == event && final(counter).count == next_count
        }),
        r is Err ==> r->Err_0 == create_offer_outcome(old(counter).count, lender, args)->Err_0
            && *final(counter) == *old(counter),
        r is Ok ==> r->Ok_0.0.wf() && r->Ok_0.0.status == LoanStatus::Proposed,
{
    if args.amount == 0 {
        return Err(LoanError::InvalidAmount);
    }
    if args.interest_rate == 0 {
        return Err(LoanError::InvalidInterestRate);
    }
    if args.term <= 0 {
        return Err(LoanError::InvalidTerm);
    }
    if args.required_collateral == 0 {
        return Err(LoanError::InvalidCollateralAmount);
    }
    let loan_offer_id = match counter.next() {
        Ok(id) => id,
        Err(e) => {
            return Err(e);
        },
    };
    let offer = LoanOffer {
        lender,
        amount: args.amount,
        interest_rate: args.interest_rate,
        term: args.term,
        status: LoanStatus::Proposed,
        required_collateral: args.required_collateral,
        loan_offer_id,
        guarantor: None,
    };
    let event = LoanOfferCreated {
        lender,
        amount: args.amount,
        interest_rate: args.interest_rate,
        term: args.term,
        required_collateral: args.required_collateral,
        loan_offer_id,
    };
    Ok((offer, event))
}

/// Cancels a proposed offer. Only the offer's lender may cancel
/// (`UnauthorizedLender` otherwise), and only while the offer is still
/// `Proposed` (`InvalidLoanStatus` otherwise); on success the status becomes
/// `Cancelled` and every other field is unchanged. Any transfer authority
/// delegated at creation is not revoked here; its cleanup is an external
/// responsibility.
pub fn cancel_loan_offer(offer: &mut LoanOffer, caller: u64) -> (r: Result<(), LoanError>)
    ensures
        r is Ok <==> old(offer).lender == caller && old(offer).status == LoanStatus::Proposed,
        r is Ok ==> *final(offer) == (LoanOffer { status: LoanStatus::Cancelled, ..*old(offer) }),
        r is Err ==> *final(offer) == *old(offer),
        r is Err && old(offer).lender != caller ==> r->Err_0 == LoanError::UnauthorizedLender,
        r is Err && old(offer).lender == caller ==> r->Err_0 == LoanError::InvalidLoanStatus,
{
    if offer.lender != caller {
        return Err(LoanError::UnauthorizedLender);
    }
    if !(offer.status == LoanStatus::Proposed) {
        return Err(LoanError::InvalidLoanStatus);
    }
    offer.status = LoanStatus::Cancelled;
    Ok(())
}

/// Law: successful offer creations draw strictly increasing IDs. If one
/// creation succeeds from some counter value and another succeeds from the
/// counter value the first one left behind, the second offer's ID is strictly
/// larger, whatever either call's lender or terms.
pub proof fn lemma_offer_ids_strictly_increase(
    count: u64,
    lender1: u64,
    args1: CreateLoanOfferArgs,
    lender2: u64,
    args2: CreateLoanOfferArgs,
)
    requires
        create_offer_outcome(count, lender1, args1) is Ok,
        create_offer_outcome(
            create_offer_outcome(count, lender1, args1)->Ok_0.2,
            lender2,
            args2,
        ) is Ok,
    ensures
        create_offer_outcome(count, lender1, args1)->Ok_0.0.loan_offer_id
            < create_offer_outcome(
            create_offer_outcome(count, lender1, args1)->Ok_0.2,
            lender2,
            args2,
        )->Ok_0.0.loan_offer_id,
{
}

} // verus!
