use vstd::prelude::*;
use crate::errors::LoanError;
use crate::states::GuarantorOfferCounter;
use crate::states::LoanOfferCounter;

verus! {

/// One step of a monotonic sequence allocator: the issued ID is the current
/// count, and the count advances by one. On wraparound nothing is issued and
/// the count is unchanged.
pub open spec fn counter_next(count: u64) -> Result<(u64, u64), LoanError> {
    if count < u64::MAX {
        Ok((count, (count + 1) as u64))
    } else {
        Err(LoanError::OverflowError)
    }
}

impl LoanOfferCounter {
    /// Issues the next loan-offer ID: returns the current count and
    /// increments it by checked addition, failing with `OverflowError` on
    /// wraparound and leaving the count unchanged.
    pub fn next(&mut self) -> (r: Result<u64, LoanError>)
        ensures
            r is Ok <==> counter_next(old(self).count) is Ok,
            r is Ok ==> r->Ok_0 == counter_next(old(self).count)->Ok_0.0
                && final(self).count == counter_next(old(self).count)->Ok_0.1,
            r is Err ==> r->Err_0 == counter_next(old(self).count)->Err_0
                && *final(self) == *old(self),
    {
        match self.count.checked_add(1) {
            Some(next_count) => {
                let id = self.count;
                self.count = next_count;
                Ok(id)
            },
            None => Err(LoanError::OverflowError),
        }
    }
}

impl GuarantorOfferCounter {
    /// Issues the next guarantor-offer ID, from a sequence independent of the
    /// loan-offer counter's; same semantics as `LoanOfferCounter::next`.
    pub fn next(&mut self) -> (r: Result<u64, LoanError>)
        ensures
            r is Ok <==> counter_next(old(self).count) is Ok,
            r is Ok ==> r->Ok_0 == counter_next(old(self).count)->Ok_0.0
                && final(self).count == counter_next(old(self).count)->Ok_0.1,
            r is Err ==> r->Err_0 == counter_next(old(self).count)->Err_0
                && *final(self) == *old(self),
    {
        match self.count.checked_add(1) {
            Some(next_count) => {
                let id = self.count;
                self.count = next_count;
                Ok(id)
            },
            None => Err(LoanError::OverflowError),
        }
    }
}

/// Law: IDs issued by one counter strictly increase. If a step succeeds, a
/// succeeding later step (from the count the first one left behind) issues a
/// strictly larger ID, so no ID is ever issued twice.
pub proof fn lemma_counter_ids_strictly_increase(count: u64)
    requires
        counter_next(count) is Ok,
        counter_next(counter_next(count)->Ok_0.1) is Ok,
    ensures
        counter_next(count)->Ok_0.0 < counter_next(counter_next(count)->Ok_0.1)->Ok_0.0,
{
}

} // verus!
