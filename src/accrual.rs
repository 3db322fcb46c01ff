use vstd::prelude::*;

use crate::error::StreamError;

verus! {

/// Whether `x` is a value of `i128`.
pub open spec fn fits_i128(x: int) -> bool {
    i128::MIN <= x <= i128::MAX
}

/// What accrues at `rate` per second from `last` to `now`, with no cap.
pub open spec fn accrued(rate: int, last: u64, now: u64) -> int {
    if now <= last {
        0
    } else {
        rate * (now - last)
    }
}

/// The amount claimable at `now`: what accrued since `last`, capped by what
/// is still in escrow, and nothing at all when `now` is not after `last`.
/// `Err` where the accrual or the escrow left over does not fit in `i128`.
pub open spec fn claimable_spec(
    rate: i128,
    deposited: i128,
    withdrawn: i128,
    last: u64,
    now: u64,
) -> Result<i128, StreamError> {
    if now <= last {
        Ok(0i128)
    } else if !fits_i128(rate * (now - last)) || !fits_i128(deposited - withdrawn) {
        Err(StreamError::ArithmeticOverflow)
    } else if rate * (now - last) <= deposited - withdrawn {
        Ok((rate * (now - last)) as i128)
    } else {
        Ok((deposited - withdrawn) as i128)
    }
}

/// The amount a stream with these figures makes claimable at `now`.
pub fn claimable(rate: i128, deposited: i128, withdrawn: i128, last: u64, now: u64) -> (r: Result<
    i128,
    StreamError,
>)
    ensures
        r == claimable_spec(rate, deposited, withdrawn, last, now),
{
    if now <= last {
        return Ok(0);
    }
    let elapsed: i128 = (now - last) as i128;
    let accrual = match rate.checked_mul(elapsed) {
        Some(a) => a,
        None => return Err(StreamError::ArithmeticOverflow),
    };
    let remaining = match deposited.checked_sub(withdrawn) {
        Some(m) => m,
        None => return Err(StreamError::ArithmeticOverflow),
    };
    if accrual <= remaining {
        Ok(accrual)
    } else {
        Ok(remaining)
    }
}

} // verus!
