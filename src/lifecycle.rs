use vstd::prelude::*;

use crate::accrual::fits_i128;
use crate::error::StreamError;
use crate::principal::Principal;
use crate::stream::{outcome_view, view_of, Stream, StreamView};

verus! {

/// The id after the stored counter (zero where none is stored yet).
pub open spec fn next_id_spec(counter: Option<u64>) -> Result<u64, StreamError> {
    let c: int = match counter {
        Some(c) => c as int,
        None => 0,
    };
    if c + 1 <= u64::MAX {
        Ok((c + 1) as u64)
    } else {
        Err(StreamError::ArithmeticOverflow)
    }
}

/// The decision on a top-up of `amount` by `sender` at `now` of the stream
/// stored under the id, if any. The last update moves to `now`, never back.
pub open spec fn top_up_spec(
    stored: Option<StreamView>,
    sender: Seq<u8>,
    amount: i128,
    now: u64,
) -> Result<StreamView, StreamError> {
    if amount <= 0 {
        Err(StreamError::InvalidAmount)
    } else {
        match stored {
            None => Err(StreamError::StreamNotFound),
            Some(s) => if s.sender != sender {
                Err(StreamError::Unauthorized)
            } else if !s.is_active {
                Err(StreamError::StreamInactive)
            } else if !fits_i128(s.deposited_amount + amount) {
                Err(StreamError::ArithmeticOverflow)
            } else {
                Ok(
                    StreamView {
                        deposited_amount: (s.deposited_amount + amount) as i128,
                        last_update_time: if now < s.last_update_time {
                            s.last_update_time
                        } else {
                            now
                        },
                        ..s
                    },
                )
            },
        }
    }
}

/// The decision on a claim by `recipient` at `now`: the amount to pay out and
/// the record after it.
pub open spec fn withdraw_spec(stored: Option<StreamView>, recipient: Seq<u8>, now: u64) -> Result<
    (i128, StreamView),
    StreamError,
> {
    match stored {
        None => Err(StreamError::StreamNotFound),
        Some(s) => if s.recipient != recipient {
            Err(StreamError::Unauthorized)
        } else {
            match s.claimable_at(now) {
                Err(e) => Err(e),
                Ok(a) => if a == 0 {
                    if s.is_active {
                        Ok((0i128, s))
                    } else {
                        Err(StreamError::StreamInactive)
                    }
                } else if !fits_i128(s.withdrawn_amount + a) {
                    Err(StreamError::ArithmeticOverflow)
                } else {
                    Ok(
                        (
                            a,
                            StreamView {
                                withdrawn_amount: (s.withdrawn_amount + a) as i128,
                                last_update_time: now,
                                ..s
                            },
                        ),
                    )
                },
            }
        },
    }
}

/// The decision on a cancellation by `sender` at `now`: the record to store,
/// or none where nothing changes. A second cancellation keeps the first time.
pub open spec fn cancel_spec(stored: Option<StreamView>, sender: Seq<u8>, now: u64) -> Option<
    StreamView,
> {
    match stored {
        None => None,
        Some(s) => if s.sender != sender {
            None
        } else {
            Some(
                StreamView {
                    is_active: false,
                    cancel_time: if s.is_active {
                        now
                    } else {
                        s.cancel_time
                    },
                    ..s
                },
            )
        },
    }
}

/// A claim's outcome by the value of the record it yields.
pub open spec fn claim_view(r: Result<Claim, StreamError>) -> Result<(i128, StreamView), StreamError> {
    match r {
        Ok(c) => Ok((c.amount, c.stream@)),
        Err(e) => Err(e),
    }
}

/// What a claim decides: the amount to pay the recipient and the record to
/// store once the payment went through.
#[derive(Debug)]
pub struct Claim {
    pub amount: i128,
    pub stream: Stream,
}

/// Issues the id after the stored counter; the caller stores the id as the
/// new counter.
pub fn next_stream_id(counter: Option<u64>) -> (r: Result<u64, StreamError>)
    ensures
        r == next_id_spec(counter),
{
    let c: u64 = match counter {
        Some(c) => c,
        None => 0,
    };
    match c.checked_add(1) {
        Some(n) => Ok(n),
        None => Err(StreamError::ArithmeticOverflow),
    }
}

/// Decides a top-up of `amount` by `sender` at `now` of the stored record.
/// Nothing is to be transferred or stored on `Err`.
pub fn top_up_step(stored: Option<Stream>, sender: &Principal, amount: i128, now: u64) -> (r: Result<
    Stream,
    StreamError,
>)
    ensures
        outcome_view(r) == top_up_spec(view_of(stored), sender@, amount, now),
{
    if amount <= 0 {
        return Err(StreamError::InvalidAmount);
    }
    let mut s = match stored {
        Some(s) => s,
        None => return Err(StreamError::StreamNotFound),
    };
    if !s.sender.same_as(sender) {
        return Err(StreamError::Unauthorized);
    }
    if !s.is_active {
        return Err(StreamError::StreamInactive);
    }
    s.deposited_amount = match s.deposited_amount.checked_add(amount) {
        Some(d) => d,
        None => return Err(StreamError::ArithmeticOverflow),
    };
    if now >= s.last_update_time {
        s.last_update_time = now;
    }
    Ok(s)
}

/// Decides a claim by `recipient` at `now` on the stored record. Nothing is
/// to be transferred or stored on `Err`; on `Ok` the amount is paid first and
/// the record stored after.
pub fn withdraw_step(stored: Option<Stream>, recipient: &Principal, now: u64) -> (r: Result<
    Claim,
    StreamError,
>)
    ensures
        claim_view(r) == withdraw_spec(view_of(stored), recipient@, now),
{
    let mut s = match stored {
        Some(s) => s,
        None => return Err(StreamError::StreamNotFound),
    };
    if !s.recipient.same_as(recipient) {
        return Err(StreamError::Unauthorized);
    }
    let amount = match s.claimable_at(now) {
        Ok(a) => a,
        Err(e) => return Err(e),
    };
    if amount == 0 {
        if s.is_active {
            return Ok(Claim { amount: 0, stream: s });
        } else {
            return Err(StreamError::StreamInactive);
        }
    }
    s.withdrawn_amount = match s.withdrawn_amount.checked_add(amount) {
        Some(w) => w,
        None => return Err(StreamError::ArithmeticOverflow),
    };
    s.last_update_time = now;
    Ok(Claim { amount, stream: s })
}

/// Decides a cancellation by `sender` at `now`: the record to store, or
/// `None` where the id is unknown or the caller is not the sender.
pub fn cancel_step(stored: Option<Stream>, sender: &Principal, now: u64) -> (r: Option<Stream>)
    ensures
        view_of(r) == cancel_spec(view_of(stored), sender@, now),
{
    let mut s = match stored {
        Some(s) => s,
        None => return None,
    };
    if !s.sender.same_as(sender) {
        return None;
    }
    if s.is_active {
        s.cancel_time = now;
        s.is_active = false;
    }
    Some(s)
}

} // verus!
