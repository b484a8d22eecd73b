use vstd::prelude::*;

use crate::error::ArithmeticError;

verus! {

/// Whether a delta is added to or subtracted from the current value.
#[derive(Clone, Copy, Debug, PartialEq, Eq, Structural)]
pub enum DeltaKind {
    Add,
    Sub,
}

/// The largest rate, in basis points, that a rate-scaled quantity accepts.
pub const MAX_RATE_BPS: u64 = 10000;

/// The exact value that applying `delta` to `current` should produce.
pub open spec fn delta_target(current: u64, delta: i128, kind: DeltaKind) -> int {
    match kind {
        DeltaKind::Add => current + delta,
        DeltaKind::Sub => current - delta,
    }
}

/// A value fitted into `u64`, or the side on which it leaves the range.
pub open spec fn fit_u64(v: int) -> Result<u64, ArithmeticError> {
    if v > u64::MAX {
        Err(ArithmeticError::Overflow)
    } else if v < 0 {
        Err(ArithmeticError::Underflow)
    } else {
        Ok(v as u64)
    }
}

pub open spec fn delta_outcome(current: u64, delta: i128, kind: DeltaKind) -> Result<u64, ArithmeticError> {
    fit_u64(delta_target(current, delta, kind))
}

/// `value * rate / divisor`, refused when the divisor is zero or the rate is out of bounds.
pub open spec fn scaled_outcome(value: u64, rate: u64, divisor: u64) -> Result<u64, ArithmeticError> {
    if divisor == 0 || rate > MAX_RATE_BPS {
        Err(ArithmeticError::InvalidRate)
    } else {
        fit_u64((value * rate) / (divisor as int))
    }
}

/// A checked delta never leaves the `u64` range: it yields the exact value when that
/// value fits, `Overflow` when it lies above the range and `Underflow` when below.
pub proof fn lemma_delta_stays_in_range(current: u64, delta: i128, kind: DeltaKind)
    ensures
        0 <= delta_target(current, delta, kind) <= u64::MAX ==> delta_outcome(current, delta, kind)
            == Ok::<u64, ArithmeticError>(delta_target(current, delta, kind) as u64),
        delta_target(current, delta, kind) > u64::MAX ==> delta_outcome(current, delta, kind)
            == Err::<u64, ArithmeticError>(ArithmeticError::Overflow),
        delta_target(current, delta, kind) < 0 ==> delta_outcome(current, delta, kind)
            == Err::<u64, ArithmeticError>(ArithmeticError::Underflow),
        delta_outcome(current, delta, kind) matches Ok(v) ==> v == delta_target(current, delta, kind),
{
}

/// Applies a signed delta to a balance, failing instead of wrapping.
pub fn apply_delta(current: u64, delta: i128, kind: DeltaKind) -> (r: Result<u64, ArithmeticError>)
    ensures
        r == delta_outcome(current, delta, kind),
{
    let headroom: i128 = (u64::MAX - current) as i128;
    let floor: i128 = current as i128;
    // `raise` is true when the value moves up by `delta.abs()`.
    let raise: bool = match kind {
        DeltaKind::Add => delta >= 0,
        DeltaKind::Sub => delta < 0,
    };
    if raise {
        if delta > headroom || delta < -headroom {
            return Err(ArithmeticError::Overflow);
        }
        let step: u64 = if delta >= 0 { delta as u64 } else { (-delta) as u64 };
        Ok(current + step)
    } else {
        if delta > floor || delta < -floor {
            return Err(ArithmeticError::Underflow);
        }
        let step: u64 = if delta >= 0 { delta as u64 } else { (-delta) as u64 };
        Ok(current - step)
    }
}

/// Adds `amount` to `current` through the checked engine.
pub fn checked_credit(current: u64, amount: u64) -> (r: Result<u64, ArithmeticError>)
    ensures
        r == fit_u64(current + amount),
{
    apply_delta(current, amount as i128, DeltaKind::Add)
}

/// Subtracts `amount` from `current` through the checked engine.
pub fn checked_debit(current: u64, amount: u64) -> (r: Result<u64, ArithmeticError>)
    ensures
        r == fit_u64(current - amount),
{
    apply_delta(current, amount as i128, DeltaKind::Sub)
}

/// `amount * rate`, computed wide and narrowed only when it fits.
pub fn checked_product(amount: u64, rate: u64) -> (r: Result<u64, ArithmeticError>)
    ensures
        r == fit_u64(amount * rate),
{
    assert((amount as int) * (rate as int) <= (u64::MAX as int) * (u64::MAX as int)) by (nonlinear_arith)
        requires amount <= u64::MAX, rate <= u64::MAX;
    assert((amount as int) * (rate as int) >= 0) by (nonlinear_arith);
    let wide: u128 = (amount as u128) * (rate as u128);
    if wide > u64::MAX as u128 {
        Err(ArithmeticError::Overflow)
    } else {
        Ok(wide as u64)
    }
}

/// `value * rate / divisor` with the divisor and the rate validated first.
pub fn checked_scaled(value: u64, rate: u64, divisor: u64) -> (r: Result<u64, ArithmeticError>)
    ensures
        r == scaled_outcome(value, rate, divisor),
{
    if divisor == 0 || rate > MAX_RATE_BPS {
        return Err(ArithmeticError::InvalidRate);
    }
    assert((value as int) * (rate as int) <= (u64::MAX as int) * (u64::MAX as int)) by (nonlinear_arith)
        requires value <= u64::MAX, rate <= u64::MAX;
    assert((value as int) * (rate as int) >= 0) by (nonlinear_arith);
    let wide: u128 = (value as u128) * (rate as u128);
    let quotient: u128 = wide / (divisor as u128);
    if quotient > u64::MAX as u128 {
        Err(ArithmeticError::Overflow)
    } else {
        Ok(quotient as u64)
    }
}

} // verus!
