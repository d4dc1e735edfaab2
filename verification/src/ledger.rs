use vstd::prelude::*;
use crate::account::AccountId;
use crate::account::TokenAccount;

verus! {

/// Every way the asset ledger refuses a transfer.
#[derive(Clone, Copy, Debug, PartialEq, Eq, Structural)]
pub enum LedgerError {
    /// The presented authority is not the recorded controller of the source
    /// account.
    WrongAuthority,
    /// The source account holds less than the requested amount.
    InsufficientFunds,
}

/// Whether the ledger accepts a transfer of `amount` out of `from` on the
/// strength of `authority`.
pub open spec fn spec_transfer_allowed(from: TokenAccount, authority: AccountId, amount: u64) -> bool {
    &&& from.authority == authority
    &&& from.amount >= amount
}

/// The asset ledger's transfer primitive: debit `from` and credit `to` by
/// `amount`, authorized by `authority`.  It succeeds exactly when `authority`
/// is the recorded controller of `from` and `from` holds at least `amount`;
/// a refused transfer changes nothing.
pub fn transfer(
    from: &mut TokenAccount,
    authority: &AccountId,
    to: &mut TokenAccount,
    amount: u64,
) -> (r: Result<(), LedgerError>)
    requires
        old(to).amount + amount <= u64::MAX,
    ensures
        r is Ok <==> spec_transfer_allowed(*old(from), *authority, amount),
        r is Ok ==> *final(from) == (TokenAccount { amount: (old(from).amount - amount) as u64, ..*old(from) }),
        r is Ok ==> *final(to) == (TokenAccount { amount: (old(to).amount + amount) as u64, ..*old(to) }),
        r is Err ==> *final(from) == *old(from) && *final(to) == *old(to),
        r == Err::<(), LedgerError>(LedgerError::WrongAuthority) <==> old(from).authority != *authority,
        r == Err::<(), LedgerError>(LedgerError::InsufficientFunds)
            <==> old(from).authority == *authority && old(from).amount < amount,
{
    if from.authority != *authority {
        return Err(LedgerError::WrongAuthority);
    }
    if from.amount < amount {
        return Err(LedgerError::InsufficientFunds);
    }
    from.amount = from.amount - amount;
    to.amount = to.amount + amount;
    Ok(())
}

} // verus!
