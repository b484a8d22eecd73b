use vstd::prelude::*;

use crate::checked::{checked_credit, checked_debit, checked_product, checked_scaled, scaled_outcome};
use crate::error::{ArithmeticError, CustomError};

verus! {

/// Rewards credited per unit deposited.
pub const REWARD_RATE: u64 = 100;

/// Interest is `base * rate / INTEREST_DIVISOR`.
pub const INTEREST_DIVISOR: u64 = 100;

/// An aggregate account: running totals and the reentrancy flag.
#[derive(Clone, Copy, Debug, PartialEq, Eq, Structural)]
pub struct Pool {
    pub total_deposited: u64,
    pub total_available: u64,
    pub total_rewards: u64,
    pub total_minted: u64,
    pub locked: bool,
}

/// The same record, under the name used where the guard protects it.
pub type PoolSafe = Pool;

impl Pool {
    /// What may be withdrawn never exceeds what was deposited.
    pub open spec fn wf(self) -> bool {
        self.total_available <= self.total_deposited
    }
}

pub open spec fn overflow() -> CustomError {
    CustomError::Arithmetic(ArithmeticError::Overflow)
}

pub open spec fn underflow() -> CustomError {
    CustomError::Arithmetic(ArithmeticError::Underflow)
}

pub open spec fn deposit_outcome(pool: Pool, amount: u64) -> (Pool, Result<(), CustomError>) {
    if pool.locked {
        (pool, Err(CustomError::ReentrantCall))
    } else if pool.total_deposited + amount > u64::MAX
        || pool.total_rewards + amount * REWARD_RATE > u64::MAX {
        (pool, Err(overflow()))
    } else {
        (
            Pool {
                total_deposited: (pool.total_deposited + amount) as u64,
                total_rewards: (pool.total_rewards + amount * REWARD_RATE) as u64,
                ..pool
            },
            Ok(()),
        )
    }
}

pub open spec fn withdraw_outcome(pool: Pool, amount: u64) -> (Pool, Result<(), CustomError>) {
    if pool.locked {
        (pool, Err(CustomError::ReentrantCall))
    } else if pool.total_available < amount {
        (pool, Err(underflow()))
    } else {
        (Pool { total_available: (pool.total_available - amount) as u64, ..pool }, Ok(()))
    }
}

pub open spec fn mint_interest_outcome(pool: Pool, base_amount: u64, interest_rate: u64) -> (Pool, Result<(), CustomError>) {
    if pool.locked {
        (pool, Err(CustomError::ReentrantCall))
    } else {
        match scaled_outcome(base_amount, interest_rate, INTEREST_DIVISOR) {
            Err(e) => (pool, Err(CustomError::Arithmetic(e))),
            Ok(interest) => if pool.total_minted + interest > u64::MAX {
                (pool, Err(overflow()))
            } else {
                (Pool { total_minted: (pool.total_minted + interest) as u64, ..pool }, Ok(()))
            },
        }
    }
}

/// A fresh pool: every total zero, not locked.
pub fn initialize_pool_safe() -> (r: Pool)
    ensures
        r == (Pool {
            total_deposited: 0,
            total_available: 0,
            total_rewards: 0,
            total_minted: 0,
            locked: false,
        }),
        r.wf(),
{
    Pool { total_deposited: 0, total_available: 0, total_rewards: 0, total_minted: 0, locked: false }
}

/// Records a deposit and the rewards it earns; all or nothing.
pub fn deposit_safe(pool: &mut Pool, amount: u64) -> (r: Result<(), CustomError>)
    ensures
        (*final(pool), r) == deposit_outcome(*old(pool), amount),
        old(pool).wf() ==> final(pool).wf(),
{
    if pool.locked {
        return Err(CustomError::ReentrantCall);
    }
    let deposited = match checked_credit(pool.total_deposited, amount) {
        Ok(v) => v,
        Err(e) => return Err(CustomError::Arithmetic(e)),
    };
    let rewards = match checked_product(amount, REWARD_RATE) {
        Ok(v) => v,
        Err(e) => return Err(CustomError::Arithmetic(e)),
    };
    let total_rewards = match checked_credit(pool.total_rewards, rewards) {
        Ok(v) => v,
        Err(e) => return Err(CustomError::Arithmetic(e)),
    };
    pool.total_deposited = deposited;
    pool.total_rewards = total_rewards;
    Ok(())
}

/// Takes `amount` out of what is available.
pub fn withdraw_safe(pool: &mut Pool, amount: u64) -> (r: Result<(), CustomError>)
    ensures
        (*final(pool), r) == withdraw_outcome(*old(pool), amount),
        old(pool).wf() ==> final(pool).wf(),
{
    if pool.locked {
        return Err(CustomError::ReentrantCall);
    }
    match checked_debit(pool.total_available, amount) {
        Ok(v) => {
            pool.total_available = v;
            Ok(())
        },
        Err(e) => Err(CustomError::Arithmetic(e)),
    }
}

/// Mints `base_amount * interest_rate / 100` after validating the rate.
pub fn mint_interest_safe(pool: &mut Pool, base_amount: u64, interest_rate: u64) -> (r: Result<(), CustomError>)
    ensures
        (*final(pool), r) == mint_interest_outcome(*old(pool), base_amount, interest_rate),
        old(pool).wf() ==> final(pool).wf(),
{
    if pool.locked {
        return Err(CustomError::ReentrantCall);
    }
    let interest = match checked_scaled(base_amount, interest_rate, INTEREST_DIVISOR) {
        Ok(v) => v,
        Err(e) => return Err(CustomError::Arithmetic(e)),
    };
    match checked_credit(pool.total_minted, interest) {
        Ok(v) => {
            pool.total_minted = v;
            Ok(())
        },
        Err(e) => Err(CustomError::Arithmetic(e)),
    }
}

} // verus!
