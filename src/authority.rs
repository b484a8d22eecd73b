use vstd::prelude::*;

use crate::checked::{checked_debit, fit_u64};
use crate::error::{AuthorizationError, CustomError};
use crate::identity::Identity;

verus! {

/// A principal as presented with a request: who it claims to be and whether it signed.
#[derive(Clone, Copy, Debug)]
pub struct AuthenticatedCaller {
    pub identity: Identity,
    pub is_signer: bool,
}

/// A persisted balance record tied to one owning identity.
#[derive(Clone, Copy, Debug)]
pub struct UserAccount {
    pub owner: Identity,
    pub balance: u64,
}

/// The same record, as kept for a depositor of a pool.
pub type UserDeposit = UserAccount;

/// The caller signed and is the account's recorded owner.
pub open spec fn authorized(caller: AuthenticatedCaller, account: UserAccount) -> bool {
    caller.is_signer && caller.identity@ == account.owner@
}

pub open spec fn verify_outcome(caller: AuthenticatedCaller, account: UserAccount) -> Result<(), AuthorizationError> {
    if !caller.is_signer {
        Err(AuthorizationError::MissingAuthentication)
    } else if caller.identity@ != account.owner@ {
        Err(AuthorizationError::OwnerMismatch)
    } else {
        Ok(())
    }
}

/// The account after a checked debit of `amount`, and what the debit reports.
pub open spec fn debit_account(account: UserAccount, amount: u64) -> (UserAccount, Result<(), CustomError>) {
    match fit_u64(account.balance - amount) {
        Ok(b) => (UserAccount { balance: b, ..account }, Ok(())),
        Err(e) => (account, Err(CustomError::Arithmetic(e))),
    }
}

/// The account and the result that an owner-checked withdrawal produces.
pub open spec fn withdraw_outcome(
    account: UserAccount,
    caller: AuthenticatedCaller,
    amount: u64,
) -> (UserAccount, Result<(), CustomError>) {
    match verify_outcome(caller, account) {
        Err(e) => (account, Err(CustomError::Authorization(e))),
        Ok(_) => debit_account(account, amount),
    }
}

/// Confirms that `caller` signed and owns `account`; changes nothing.
pub fn verify(caller: &AuthenticatedCaller, account: &UserAccount) -> (r: Result<(), AuthorizationError>)
    ensures
        r == verify_outcome(*caller, *account),
        r is Ok <==> authorized(*caller, *account),
{
    if !caller.is_signer {
        return Err(AuthorizationError::MissingAuthentication);
    }
    if !caller.identity.same_as(&account.owner) {
        return Err(AuthorizationError::OwnerMismatch);
    }
    Ok(())
}

/// Creates an account owned by the signing caller, holding `initial_amount`.
pub fn initialize_safe(caller: &AuthenticatedCaller, initial_amount: u64) -> (r: Result<UserAccount, AuthorizationError>)
    ensures
        caller.is_signer ==> r == Ok::<UserAccount, AuthorizationError>(
            UserAccount { owner: caller.identity, balance: initial_amount },
        ),
        !caller.is_signer ==> r == Err::<UserAccount, AuthorizationError>(
            AuthorizationError::MissingAuthentication,
        ),
{
    if !caller.is_signer {
        return Err(AuthorizationError::MissingAuthentication);
    }
    Ok(UserAccount { owner: caller.identity, balance: initial_amount })
}

/// Debits `amount` from `account` when the signing caller owns it.
pub fn withdraw_safe(account: &mut UserAccount, caller: &AuthenticatedCaller, amount: u64) -> (r: Result<(), CustomError>)
    ensures
        (*final(account), r) == withdraw_outcome(*old(account), *caller, amount),
{
    match verify(caller, account) {
        Err(e) => return Err(CustomError::Authorization(e)),
        Ok(()) => {},
    }
    match checked_debit(account.balance, amount) {
        Err(e) => Err(CustomError::Arithmetic(e)),
        Ok(b) => {
            account.balance = b;
            Ok(())
        },
    }
}

} // verus!
