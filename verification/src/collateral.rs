use vstd::prelude::*;
use crate::errors::LoanError;
use crate::states::UserCollateral;

verus! {

/// What depositing `amount` into a balance yields: the checked sum, or
/// `OverflowError` on wraparound.
pub open spec fn deposit_outcome(balance: u64, amount: u64) -> Result<u64, LoanError> {
    if balance + amount <= u64::MAX {
        Ok((balance + amount) as u64)
    } else {
        Err(LoanError::OverflowError)
    }
}

/// What withdrawing (or debiting) `amount` from a balance yields: the checked
/// difference, or `InsufficientCollateral` when the balance cannot cover it.
pub open spec fn withdraw_outcome(balance: u64, amount: u64) -> Result<u64, LoanError> {
    if amount <= balance {
        Ok((balance - amount) as u64)
    } else {
        Err(LoanError::InsufficientCollateral)
    }
}

/// Creates a user's collateral record lazily on first deposit, with an
/// initial balance of zero.
pub fn open_collateral_account(user: u64) -> (account: UserCollateral)
    ensures
        account.user == user,
        account.amount == 0,
{
    UserCollateral { user, amount: 0 }
}

/// Adds `amount` to the user's pooled collateral balance by checked addition.
/// The external asset-transfer service moves the same amount from the user's
/// balance into collateral custody; on failure nothing changes.
pub fn deposit_collateral(account: &mut UserCollateral, amount: u64) -> (r: Result<
    (),
    LoanError,
>)
    ensures
        final(account).user == old(account).user,
        r is Ok <==> deposit_outcome(old(account).amount, amount) is Ok,
        r is Ok ==> final(account).amount == deposit_outcome(old(account).amount, amount)->Ok_0,
        r is Err ==> r->Err_0 == deposit_outcome(old(account).amount, amount)->Err_0
            && *final(account) == *old(account),
{
    match account.amount.checked_add(amount) {
        Some(new_amount) => {
            account.amount = new_amount;
            Ok(())
        },
        None => Err(LoanError::OverflowError),
    }
}

/// Removes `amount` from the user's pooled collateral balance by checked
/// subtraction, failing with `InsufficientCollateral` when the balance cannot
/// cover it and leaving the balance unchanged. The external asset-transfer
/// service returns the same amount to the user's balance. Whether some of the
/// balance currently backs an active loan is not checked.
pub fn withdraw_collateral(account: &mut UserCollateral, amount: u64) -> (r: Result<
    (),
    LoanError,
>)
    ensures
        final(account).user == old(account).user,
        r is Ok <==> withdraw_outcome(old(account).amount, amount) is Ok,
        r is Ok ==> final(account).amount == withdraw_outcome(old(account).amount, amount)->Ok_0,
        r is Err ==> r->Err_0 == withdraw_outcome(old(account).amount, amount)->Err_0
            && *final(account) == *old(account),
{
    if amount <= account.amount {
        account.amount = account.amount - amount;
        Ok(())
    } else {
        Err(LoanError::InsufficientCollateral)
    }
}

/// Internal checked debit used by loan acceptance: same arithmetic and
/// failure semantics as a withdrawal, but no asset leaves custody — the
/// debited amount becomes committed loan collateral.
pub fn debit_for_loan(account: &mut UserCollateral, amount: u64) -> (r: Result<(), LoanError>)
    ensures
        final(account).user == old(account).user,
        r is Ok <==> withdraw_outcome(old(account).amount, amount) is Ok,
        r is Ok ==> final(account).amount == withdraw_outcome(old(account).amount, amount)->Ok_0,
        r is Err ==> r->Err_0 == withdraw_outcome(old(account).amount, amount)->Err_0
            && *final(account) == *old(account),
{
    match account.amount.checked_sub(amount) {
        Some(new_amount) => {
            account.amount = new_amount;
            Ok(())
        },
        None => Err(LoanError::InsufficientCollateral),
    }
}

/// Law: a deposit followed by a withdrawal of the same amount returns the
/// balance to its value before the deposit.
pub proof fn lemma_deposit_withdraw_round_trip(balance: u64, amount: u64)
    requires
        balance + amount <= u64::MAX,
    ensures
        deposit_outcome(balance, amount) is Ok,
        withdraw_outcome(deposit_outcome(balance, amount)->Ok_0, amount) == Ok::<
            u64,
            LoanError,
        >(balance),
{
}

/// Law: a withdrawal of more than the balance fails with
/// `InsufficientCollateral`; together with `withdraw_collateral`'s contract,
/// such a call leaves the balance unchanged.
pub proof fn lemma_overdraw_rejected(balance: u64, amount: u64)
    requires
        amount > balance,
    ensures
        withdraw_outcome(balance, amount) == Err::<u64, LoanError>(
            LoanError::InsufficientCollateral,
        ),
{
}

} // verus!
