use vstd::prelude::*;

use crate::authority::{authorized, verify, verify_outcome, AuthenticatedCaller, UserAccount};
use crate::checked::{checked_credit, checked_debit};
use crate::error::{ArithmeticError, CustomError, TrustError};
use crate::pool::{overflow, underflow, Pool};
use crate::trust::settle_delegated_call;

verus! {

/// The pool once the guard is dropped: every total kept, the flag cleared.
pub open spec fn unlocked(pool: Pool) -> Pool {
    Pool { locked: false, ..pool }
}

/// What the host must hear once the delegated call has returned.
pub open spec fn call_outcome(succeeded: bool) -> Result<(), CustomError> {
    if succeeded {
        Ok(())
    } else {
        Err(CustomError::Trust(TrustError::DelegatedCallFailed))
    }
}

/// Checks, effects and lock of a withdrawal; `Ok` holds the amount the transfer must move.
pub open spec fn guarded_withdraw_outcome(
    pool: Pool,
    user: UserAccount,
    caller: AuthenticatedCaller,
    amount: u64,
) -> (Pool, UserAccount, Result<u64, CustomError>) {
    match verify_outcome(caller, user) {
        Err(e) => (pool, user, Err(CustomError::Authorization(e))),
        Ok(_) => if pool.locked {
            (pool, user, Err(CustomError::ReentrantCall))
        } else if user.balance < amount || pool.total_available < amount || pool.total_deposited
            < amount {
            (pool, user, Err(underflow()))
        } else {
            (
                Pool {
                    total_deposited: (pool.total_deposited - amount) as u64,
                    total_available: (pool.total_available - amount) as u64,
                    locked: true,
                    ..pool
                },
                UserAccount { balance: (user.balance - amount) as u64, ..user },
                Ok(amount),
            )
        },
    }
}

/// Checks, effects and lock of a deposit paid from a token balance of `source_balance`.
pub open spec fn guarded_deposit_outcome(
    pool: Pool,
    user: UserAccount,
    caller: AuthenticatedCaller,
    source_balance: u64,
    amount: u64,
) -> (Pool, UserAccount, Result<u64, CustomError>) {
    match verify_outcome(caller, user) {
        Err(e) => (pool, user, Err(CustomError::Authorization(e))),
        Ok(_) => if pool.locked {
            (pool, user, Err(CustomError::ReentrantCall))
        } else if amount == 0 {
            (pool, user, Err(CustomError::InvalidAmount))
        } else if source_balance < amount {
            (pool, user, Err(underflow()))
        } else if user.balance + amount > u64::MAX || pool.total_deposited + amount > u64::MAX
            || pool.total_available + amount > u64::MAX {
            (pool, user, Err(overflow()))
        } else {
            (
                Pool {
                    total_deposited: (pool.total_deposited + amount) as u64,
                    total_available: (pool.total_available + amount) as u64,
                    locked: true,
                    ..pool
                },
                UserAccount { balance: (user.balance + amount) as u64, ..user },
                Ok(amount),
            )
        },
    }
}

/// An operation on an account succeeds only for its signing owner; for any other
/// caller it fails with an authorization error and leaves the account and the pool as
/// they were.
pub proof fn lemma_mutation_requires_owner(
    pool: Pool,
    account: UserAccount,
    caller: AuthenticatedCaller,
    source_balance: u64,
    amount: u64,
)
    ensures
        crate::authority::withdraw_outcome(account, caller, amount).1 is Ok ==> authorized(caller, account),
        guarded_withdraw_outcome(pool, account, caller, amount).2 is Ok ==> authorized(caller, account),
        guarded_deposit_outcome(pool, account, caller, source_balance, amount).2 is Ok ==> authorized(
            caller,
            account,
        ),
        !authorized(caller, account) ==> {
            &&& crate::authority::withdraw_outcome(account, caller, amount).0 == account
            &&& crate::authority::withdraw_outcome(account, caller, amount).1 matches Err(
                CustomError::Authorization(_),
            )
            &&& guarded_withdraw_outcome(pool, account, caller, amount).0 == pool
            &&& guarded_withdraw_outcome(pool, account, caller, amount).1 == account
            &&& guarded_withdraw_outcome(pool, account, caller, amount).2 matches Err(
                CustomError::Authorization(_),
            )
            &&& guarded_deposit_outcome(pool, account, caller, source_balance, amount).0 == pool
            &&& guarded_deposit_outcome(pool, account, caller, source_balance, amount).1 == account
            &&& guarded_deposit_outcome(pool, account, caller, source_balance, amount).2 matches Err(
                CustomError::Authorization(_),
            )
        },
{
}

/// No operation applies in part: whenever one fails, the account and the pool are
/// exactly as they were before it.
pub proof fn lemma_failure_changes_nothing(
    pool: Pool,
    account: UserAccount,
    caller: AuthenticatedCaller,
    source_balance: u64,
    amount: u64,
    rate: u64,
)
    ensures
        crate::authority::withdraw_outcome(account, caller, amount).1 is Err
            ==> crate::authority::withdraw_outcome(account, caller, amount).0 == account,
        guarded_withdraw_outcome(pool, account, caller, amount).2 is Err ==> guarded_withdraw_outcome(
            pool,
            account,
            caller,
            amount,
        ).0 == pool && guarded_withdraw_outcome(pool, account, caller, amount).1 == account,
        guarded_deposit_outcome(pool, account, caller, source_balance, amount).2 is Err
            ==> guarded_deposit_outcome(pool, account, caller, source_balance, amount).0 == pool
            && guarded_deposit_outcome(pool, account, caller, source_balance, amount).1 == account,
        crate::pool::deposit_outcome(pool, amount).1 is Err ==> crate::pool::deposit_outcome(pool, amount).0
            == pool,
        crate::pool::withdraw_outcome(pool, amount).1 is Err ==> crate::pool::withdraw_outcome(pool, amount).0
            == pool,
        crate::pool::mint_interest_outcome(pool, amount, rate).1 is Err
            ==> crate::pool::mint_interest_outcome(pool, amount, rate).0 == pool,
{
}

/// A successful withdrawal starts from an idle pool and hands the transfer a pool that
/// is locked, with the debits of the account and of the pool already committed.
pub proof fn lemma_withdraw_holds_lock_across_transfer(
    pool: Pool,
    user: UserAccount,
    caller: AuthenticatedCaller,
    amount: u64,
)
    requires
        guarded_withdraw_outcome(pool, user, caller, amount).2 is Ok,
    ensures
        !pool.locked,
        guarded_withdraw_outcome(pool, user, caller, amount).0.locked,
        guarded_withdraw_outcome(pool, user, caller, amount).0.total_deposited == pool.total_deposited - amount,
        guarded_withdraw_outcome(pool, user, caller, amount).0.total_available == pool.total_available - amount,
        guarded_withdraw_outcome(pool, user, caller, amount).1.balance == user.balance - amount,
{
}

/// While a pool is in flight, a withdrawal by the account's owner fails with
/// `ReentrantCall` and changes neither the pool nor the account; so do the pool's own
/// operations.
pub proof fn lemma_locked_pool_refuses_entry(
    pool: Pool,
    user: UserAccount,
    caller: AuthenticatedCaller,
    source_balance: u64,
    amount: u64,
    rate: u64,
)
    requires
        pool.locked,
        authorized(caller, user),
    ensures
        guarded_withdraw_outcome(pool, user, caller, amount) == (pool, user, Err::<u64, CustomError>(
            CustomError::ReentrantCall,
        )),
        guarded_deposit_outcome(pool, user, caller, source_balance, amount) == (pool, user, Err::<
            u64,
            CustomError,
        >(CustomError::ReentrantCall)),
        crate::pool::deposit_outcome(pool, amount) == (pool, Err::<(), CustomError>(CustomError::ReentrantCall)),
        crate::pool::withdraw_outcome(pool, amount) == (pool, Err::<(), CustomError>(CustomError::ReentrantCall)),
        crate::pool::mint_interest_outcome(pool, amount, rate) == (pool, Err::<(), CustomError>(
            CustomError::ReentrantCall,
        )),
{
}

/// A withdrawal nested inside another on the same pool is refused, so when the outer
/// transfer returns the pool and the account carry exactly the outer debit.
pub proof fn lemma_nested_withdraw_debits_once(
    pool: Pool,
    user: UserAccount,
    caller: AuthenticatedCaller,
    outer: u64,
    inner: u64,
)
    requires
        guarded_withdraw_outcome(pool, user, caller, outer).2 is Ok,
    ensures
        ({
            let (p1, u1, _) = guarded_withdraw_outcome(pool, user, caller, outer);
            let (p2, u2, r2) = guarded_withdraw_outcome(p1, u1, caller, inner);
            &&& r2 == Err::<u64, CustomError>(CustomError::ReentrantCall)
            &&& p2 == p1
            &&& u2 == u1
            &&& unlocked(p2).total_available == pool.total_available - outer
            &&& unlocked(p2).total_deposited == pool.total_deposited - outer
            &&& u2.balance == user.balance - outer
        }),
{
}

/// Moves the pool from idle to in flight; refuses when it is already in flight.
pub fn acquire(pool: &mut Pool) -> (r: Result<(), CustomError>)
    ensures
        old(pool).locked ==> r == Err::<(), CustomError>(CustomError::ReentrantCall)
            && *final(pool) == *old(pool),
        !old(pool).locked ==> r is Ok && *final(pool) == (Pool { locked: true, ..*old(pool) }),
{
    if pool.locked {
        return Err(CustomError::ReentrantCall);
    }
    pool.locked = true;
    Ok(())
}

/// Moves the pool back to idle, whatever state it was in.
pub fn release(pool: &mut Pool)
    ensures
        *final(pool) == unlocked(*old(pool)),
{
    pool.locked = false;
}

/// Debits the owner's deposit and the pool, then locks the pool for the transfer out.
///
/// On `Ok(amount)` the host issues the transfer of `amount` and hands its result to
/// `finish_interaction`; on `Err` nothing was changed and no transfer may be issued.
pub fn withdraw_safe(
    pool: &mut Pool,
    user: &mut UserAccount,
    caller: &AuthenticatedCaller,
    amount: u64,
) -> (r: Result<u64, CustomError>)
    ensures
        (*final(pool), *final(user), r) == guarded_withdraw_outcome(*old(pool), *old(user), *caller, amount),
        old(pool).wf() ==> final(pool).wf(),
{
    match verify(caller, user) {
        Err(e) => return Err(CustomError::Authorization(e)),
        Ok(()) => {},
    }
    if pool.locked {
        return Err(CustomError::ReentrantCall);
    }
    let balance = match checked_debit(user.balance, amount) {
        Ok(v) => v,
        Err(e) => return Err(CustomError::Arithmetic(e)),
    };
    let available = match checked_debit(pool.total_available, amount) {
        Ok(v) => v,
        Err(e) => return Err(CustomError::Arithmetic(e)),
    };
    let deposited = match checked_debit(pool.total_deposited, amount) {
        Ok(v) => v,
        Err(e) => return Err(CustomError::Arithmetic(e)),
    };
    user.balance = balance;
    pool.total_available = available;
    pool.total_deposited = deposited;
    let locked = acquire(pool);
    assert(locked is Ok);
    Ok(amount)
}

/// Credits the owner's deposit and the pool, then locks the pool for the transfer in.
///
/// `source_balance` is what the depositor's token account holds.
pub fn deposit_safe(
    pool: &mut Pool,
    user: &mut UserAccount,
    caller: &AuthenticatedCaller,
    source_balance: u64,
    amount: u64,
) -> (r: Result<u64, CustomError>)
    ensures
        (*final(pool), *final(user), r) == guarded_deposit_outcome(
            *old(pool),
            *old(user),
            *caller,
            source_balance,
            amount,
        ),
        old(pool).wf() ==> final(pool).wf(),
{
    match verify(caller, user) {
        Err(e) => return Err(CustomError::Authorization(e)),
        Ok(()) => {},
    }
    if pool.locked {
        return Err(CustomError::ReentrantCall);
    }
    if amount == 0 {
        return Err(CustomError::InvalidAmount);
    }
    if source_balance < amount {
        return Err(CustomError::Arithmetic(ArithmeticError::Underflow));
    }
    let balance = match checked_credit(user.balance, amount) {
        Ok(v) => v,
        Err(e) => return Err(CustomError::Arithmetic(e)),
    };
    let deposited = match checked_credit(pool.total_deposited, amount) {
        Ok(v) => v,
        Err(e) => return Err(CustomError::Arithmetic(e)),
    };
    let available = match checked_credit(pool.total_available, amount) {
        Ok(v) => v,
        Err(e) => return Err(CustomError::Arithmetic(e)),
    };
    user.balance = balance;
    pool.total_deposited = deposited;
    pool.total_available = available;
    let locked = acquire(pool);
    assert(locked is Ok);
    Ok(amount)
}

/// Drops the guard after the delegated call returned, and reports its result.
///
/// The flag is cleared on both paths, so a failed call never leaves the pool locked.
pub fn finish_interaction<E>(pool: &mut Pool, outcome: Result<(), E>) -> (r: Result<(), CustomError>)
    ensures
        *final(pool) == unlocked(*old(pool)),
        r == call_outcome(outcome is Ok),
{
    release(pool);
    match settle_delegated_call(outcome) {
        Ok(()) => Ok(()),
        Err(e) => Err(CustomError::Trust(e)),
    }
}

} // verus!
