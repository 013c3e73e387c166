use vstd::prelude::*;
use crate::errors::LoanError;
use crate::sequence::counter_next;
use crate::states::GuarantorOffer;
use crate::states::GuarantorOfferCounter;

verus! {

/// Creates the guarantor-offer counter with its initial count of zero.
pub fn initialize_guarantor_offer_counter() -> (counter: GuarantorOfferCounter)
    ensures
        counter.count == 0,
{
    GuarantorOfferCounter { count: 0 }
}

/// What publishing a guarantor pledge yields: the persisted offer with an ID
/// drawn from the guarantor sequence, and the advanced counter value; or the
/// first validation error (amount, then interest rate, then expiry against
/// the current time), or `OverflowError` from the ID sequence.
pub open spec fn guarantor_offer_outcome(
    count: u64,
    guarantor: u64,
    amount: u64,
    interest_rate: u64,
    expiry_date: i64,
    now: i64,
) -> Result<(GuarantorOffer, u64), LoanError> {
    if amount == 0 {
        Err(LoanError::InvalidAmount)
    } else if interest_rate == 0 {
        Err(LoanError::InvalidInterestRate)
    } else if expiry_date <= now {
        Err(LoanError::InvalidExpiryDate)
    } else {
        match counter_next(count) {
            Ok((offer_id, next_count)) => Ok(
                (GuarantorOffer { guarantor, amount, interest_rate, expiry_date, offer_id }, next_count),
            ),
            Err(e) => Err(e),
        }
    }
}

/// Publishes a guarantor pledge: amount and interest rate must be strictly
/// positive and the expiry must lie strictly after `now` (the host's current
/// logical time). No funds are reserved: the pledged amount is advisory, and
/// the guarantor's actual liability is drawn from their collateral balance at
/// acceptance time. The counter advances only on success.
pub fn create_guarantor_offer(
    counter: &mut GuarantorOfferCounter,
    guarantor: u64,
    amount: u64,
    interest_rate: u64,
    expiry_date: i64,
    now: i64,
) -> (r: Result<GuarantorOffer, LoanError>)
    ensures
        r is Ok <==> guarantor_offer_outcome(
            old(counter).count,
            guarantor,
            amount,
            interest_rate,
            expiry_date,
            now,
        ) is Ok,
        r is Ok ==> ({
            let (offer, next_count) = guarantor_offer_outcome(
                old(counter).count,
                guarantor,
                amount,
                interest_rate,
                expiry_date,
                now,
            )->Ok_0;
            r->Ok_0 == offer && final(counter).count == next_count
        }),
        r is Err ==> r->Err_0 == guarantor_offer_outcome(
            old(counter).count,
            guarantor,
            amount,
            interest_rate,
            expiry_date,
            now,
        )->Err_0 && *final(counter) == *old(counter),
{
    if amount == 0 {
        return Err(LoanError::InvalidAmount);
    }
    if interest_rate == 0 {
        return Err(LoanError::InvalidInterestRate);
    }
    if expiry_date <= now {
        return Err(LoanError::InvalidExpiryDate);
    }
    let offer_id = match counter.next() {
        Ok(id) => id,
        Err(e) => {
            return Err(e);
        },
    };
    Ok(GuarantorOffer { guarantor, amount, interest_rate, expiry_date, offer_id })
}

/// Cancels a guarantor pledge by consuming its record: only the pledging
/// guarantor may cancel, failing with `InvalidGuarantorOffer` otherwise and
/// handing the record back untouched. On success the record is gone and the
/// host closes its storage slot.
pub fn cancel_guarantor_offer(offer: GuarantorOffer, caller: u64) -> (r: Result<
    (),
    (GuarantorOffer, LoanError),
>)
    ensures
        r is Ok <==> offer.guarantor == caller,
        r is Err ==> r->Err_0 == (offer, LoanError::InvalidGuarantorOffer),
{
    if offer.guarantor == caller {
        Ok(())
    } else {
        Err((offer, LoanError::InvalidGuarantorOffer))
    }
}

/// Looks a pledge record up by ID: succeeds exactly when the record carries
/// the requested ID, failing with `InvalidGuarantorOffer` on a mismatch.
pub fn get_guarantor_offer(offer: &GuarantorOffer, offer_id: u64) -> (r: Result<(), LoanError>)
    ensures
        r is Ok <==> offer.offer_id == offer_id,
        r is Err ==> r->Err_0 == LoanError::InvalidGuarantorOffer,
{
    if offer.offer_id == offer_id {
        Ok(())
    } else {
        Err(LoanError::InvalidGuarantorOffer)
    }
}

/// Law: two successful pledge creations in sequence from a fresh guarantor
/// counter receive the IDs 0 and then 1, whatever either pledge's terms and
/// whatever the loan-offer counter holds — the guarantor sequence is
/// independent of the loan-offer sequence, so the conclusion holds for every
/// value of `loan_offer_count`.
pub proof fn lemma_fresh_guarantor_offer_ids(
    loan_offer_count: u64,
    guarantor1: u64,
    amount1: u64,
    interest_rate1: u64,
    expiry_date1: i64,
    now1: i64,
    guarantor2: u64,
    amount2: u64,
    interest_rate2: u64,
    expiry_date2: i64,
    now2: i64,
)
    requires
        guarantor_offer_outcome(0, guarantor1, amount1, interest_rate1, expiry_date1, now1) is Ok,
        guarantor_offer_outcome(
            guarantor_offer_outcome(
                0,
                guarantor1,
                amount1,
                interest_rate1,
                expiry_date1,
                now1,
            )->Ok_0.1,
            guarantor2,
            amount2,
            interest_rate2,
            expiry_date2,
            now2,
        ) is Ok,
    ensures
        guarantor_offer_outcome(
            0,
            guarantor1,
            amount1,
            interest_rate1,
            expiry_date1,
            now1,
        )->Ok_0.0.offer_id == 0,
        guarantor_offer_outcome(
            guarantor_offer_outcome(
                0,
                guarantor1,
                amount1,
                interest_rate1,
                expiry_date1,
                now1,
            )->Ok_0.1,
            guarantor2,
            amount2,
            interest_rate2,
            expiry_date2,
            now2,
        )->Ok_0.0.offer_id == 1,
{
}

} // verus!
