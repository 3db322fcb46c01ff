use vstd::prelude::*;

use crate::accrual::{claimable, claimable_spec, fits_i128};
use crate::error::StreamError;
use crate::principal::Principal;

verus! {

/// One stream record: who pays whom, in which token, at what rate, and how
/// much has gone in and out of escrow so far.
#[derive(Debug)]
pub struct Stream {
    pub sender: Principal,
    pub recipient: Principal,
    pub token_address: Principal,
    /// Amount that accrues per second; fixed when the stream is opened.
    pub rate_per_second: i128,
    /// Everything ever escrowed: the opening amount and every top-up.
    pub deposited_amount: i128,
    /// Everything ever claimed by the recipient.
    pub withdrawn_amount: i128,
    pub start_time: u64,
    /// The last time a top-up or a claim touched the stream.
    pub last_update_time: u64,
    /// False once the sender cancelled; never true again.
    pub is_active: bool,
    /// When the stream was cancelled: accrual stops there. Zero while active.
    pub cancel_time: u64,
}

/// The mathematical value of a stream: the parties by their address bytes.
pub struct StreamView {
    pub sender: Seq<u8>,
    pub recipient: Seq<u8>,
    pub token_address: Seq<u8>,
    pub rate_per_second: i128,
    pub deposited_amount: i128,
    pub withdrawn_amount: i128,
    pub start_time: u64,
    pub last_update_time: u64,
    pub is_active: bool,
    pub cancel_time: u64,
}

impl View for Stream {
    type V = StreamView;

    open spec fn view(&self) -> StreamView {
        StreamView {
            sender: self.sender@,
            recipient: self.recipient@,
            token_address: self.token_address@,
            rate_per_second: self.rate_per_second,
            deposited_amount: self.deposited_amount,
            withdrawn_amount: self.withdrawn_amount,
            start_time: self.start_time,
            last_update_time: self.last_update_time,
            is_active: self.is_active,
            cancel_time: self.cancel_time,
        }
    }
}

impl StreamView {
    /// The record invariant: claims never exceed the escrow, the rate is not
    /// negative, and the last update is not before the start.
    pub open spec fn wf(self) -> bool {
        &&& 0 <= self.withdrawn_amount <= self.deposited_amount
        &&& self.rate_per_second >= 0
        &&& self.start_time <= self.last_update_time
    }

    /// The time up to which the stream accrues, seen at `now`: `now` while it
    /// is active, never later than the cancellation once it is not.
    pub open spec fn accrual_end(self, now: u64) -> u64 {
        if self.is_active || now <= self.cancel_time {
            now
        } else {
            self.cancel_time
        }
    }

    /// What the recipient can claim at `now`.
    pub open spec fn claimable_at(self, now: u64) -> Result<i128, StreamError> {
        claimable_spec(
            self.rate_per_second,
            self.deposited_amount,
            self.withdrawn_amount,
            self.last_update_time,
            self.accrual_end(now),
        )
    }
}

/// The rate of a stream of `amount` over `duration` seconds: the whole amount
/// at once when the duration is zero, else the quotient, truncated.
pub open spec fn rate_of(amount: i128, duration: u64) -> int {
    if duration == 0 {
        amount as int
    } else {
        amount as int / duration as int
    }
}

/// The stream opened at `now`: nothing claimed yet, active.
pub open spec fn opened(
    sender: Seq<u8>,
    recipient: Seq<u8>,
    token_address: Seq<u8>,
    amount: i128,
    duration: u64,
    now: u64,
) -> StreamView {
    StreamView {
        sender,
        recipient,
        token_address,
        rate_per_second: rate_of(amount, duration) as i128,
        deposited_amount: amount,
        withdrawn_amount: 0,
        start_time: now,
        last_update_time: now,
        is_active: true,
        cancel_time: 0,
    }
}

/// A stored record, or none, by its value.
pub open spec fn view_of(stored: Option<Stream>) -> Option<StreamView> {
    match stored {
        Some(s) => Some(s@),
        None => None,
    }
}

/// A step's outcome by the value of the record it yields.
pub open spec fn outcome_view(r: Result<Stream, StreamError>) -> Result<StreamView, StreamError> {
    match r {
        Ok(s) => Ok(s@),
        Err(e) => Err(e),
    }
}

impl Clone for Stream {
    fn clone(&self) -> (r: Self)
        ensures
            r@ == self@,
    {
        Stream {
            sender: self.sender.clone(),
            recipient: self.recipient.clone(),
            token_address: self.token_address.clone(),
            rate_per_second: self.rate_per_second,
            deposited_amount: self.deposited_amount,
            withdrawn_amount: self.withdrawn_amount,
            start_time: self.start_time,
            last_update_time: self.last_update_time,
            is_active: self.is_active,
            cancel_time: self.cancel_time,
        }
    }
}

impl Stream {
    /// Opens a stream of `amount` over `duration` seconds, starting at `now`.
    pub fn new(
        sender: Principal,
        recipient: Principal,
        token_address: Principal,
        amount: i128,
        duration: u64,
        now: u64,
    ) -> (r: Stream)
        requires
            amount > 0,
        ensures
            r@ == opened(sender@, recipient@, token_address@, amount, duration, now),
            r@.wf(),
    {
        let rate_per_second: i128 = if duration == 0 {
            amount
        } else {
            amount / (duration as i128)
        };
        Stream {
            sender,
            recipient,
            token_address,
            rate_per_second,
            deposited_amount: amount,
            withdrawn_amount: 0,
            start_time: now,
            last_update_time: now,
            is_active: true,
            cancel_time: 0,
        }
    }

    /// What the recipient can claim at `now`, accrual stopping at the
    /// cancellation if there was one.
    pub fn claimable_at(&self, now: u64) -> (r: Result<i128, StreamError>)
        ensures
            r == self@.claimable_at(now),
    {
        let end: u64 = if self.is_active || now <= self.cancel_time {
            now
        } else {
            self.cancel_time
        };
        claimable(
            self.rate_per_second,
            self.deposited_amount,
            self.withdrawn_amount,
            self.last_update_time,
            end,
        )
    }
}

} // verus!
