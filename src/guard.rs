//! The checks that open every value-moving operation.
use vstd::prelude::*;
use crate::error::AMMErrorCode;

verus! {

/// Refuses work on a locked pool.
pub fn assert_not_locked(locked: bool) -> (r: Result<(), AMMErrorCode>)
    ensures
        r == (if locked {
            Err(AMMErrorCode::PoolLocked)
        } else {
            Ok(())
        }),
{
    if locked {
        Err(AMMErrorCode::PoolLocked)
    } else {
        Ok(())
    }
}

/// Whether a deadline has passed at time `now`.
pub open spec fn is_expired(now: i64, expiration: i64) -> bool {
    now > expiration
}

/// Refuses work once the caller's deadline has passed.
pub fn assert_not_expired(now: i64, expiration: i64) -> (r: Result<(), AMMErrorCode>)
    ensures
        r == (if is_expired(now, expiration) {
            Err(AMMErrorCode::OfferExpired)
        } else {
            Ok(())
        }),
{
    if now > expiration {
        Err(AMMErrorCode::OfferExpired)
    } else {
        Ok(())
    }
}

/// Refuses work when any of `amounts` is zero.
pub fn assert_non_zero(amounts: &[u64]) -> (r: Result<(), AMMErrorCode>)
    ensures
        r == (if amounts@.contains(0u64) {
            Err(AMMErrorCode::ZeroBalance)
        } else {
            Ok(())
        }),
{
    let mut i: usize = 0;
    while i < amounts.len()
        invariant
            0 <= i <= amounts@.len(),
            forall|j: int| 0 <= j < i ==> amounts@[j] != 0u64,
        decreases amounts@.len() - i,
    {
        if amounts[i] == 0 {
            return Err(AMMErrorCode::ZeroBalance);
        }
        i = i + 1;
    }
    Ok(())
}

} // verus!
