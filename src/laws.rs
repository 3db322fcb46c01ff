use vstd::prelude::*;

use crate::accrual::accrued;
use crate::contract::{lookup, store};
use crate::error::StreamError;
use crate::lifecycle::{cancel_spec, top_up_spec, withdraw_spec};
use crate::stream::StreamView;

verus! {

/// What a cancelled stream can still pay out: the accrual from its last
/// update up to the cancellation.
pub open spec fn frozen_balance(s: StreamView) -> int {
    accrued(s.rate_per_second as int, s.last_update_time, s.cancel_time)
}

/// A claim never takes the recipient past the escrow: on a well-formed
/// record it pays a non-negative amount, adds exactly that to what was
/// withdrawn, and leaves a well-formed record.
pub proof fn withdraw_within_escrow(s: StreamView, recipient: Seq<u8>, now: u64)
    requires
        s.wf(),
    ensures
        withdraw_spec(Some(s), recipient, now) matches Ok((a, t)) ==> {
            &&& 0 <= a
            &&& t.withdrawn_amount == s.withdrawn_amount + a
            &&& t.withdrawn_amount <= t.deposited_amount
            &&& t.deposited_amount == s.deposited_amount
            &&& t.wf()
        },
{
    if s.accrual_end(now) > s.last_update_time {
        let d = s.accrual_end(now) - s.last_update_time;
        assert(s.rate_per_second * d >= 0) by (nonlinear_arith)
            requires
                s.rate_per_second >= 0,
                d > 0,
        ;
    }
}

/// A second claim at the same time on an active stream pays nothing, fails
/// not, and changes nothing.
pub proof fn withdraw_twice_same_time(
    reg: Seq<StreamView>,
    id: u64,
    recipient: Seq<u8>,
    now: u64,
)
    requires
        lookup(reg, id) matches Some(s) && s.wf() && s.is_active,
    ensures
        withdraw_spec(lookup(reg, id), recipient, now) matches Ok((a, t)) ==> withdraw_spec(
            lookup(store(reg, id, t), id),
            recipient,
            now,
        ) == Ok::<(i128, StreamView), StreamError>((0i128, t)),
{
    let s = lookup(reg, id)->Some_0;
    withdraw_within_escrow(s, recipient, now);
    if let Ok((a, t)) = withdraw_spec(lookup(reg, id), recipient, now) {
        assert(lookup(store(reg, id, t), id) == Some(t));
    }
}

/// Each refusal of a top-up: a non-positive amount, an unknown id, a caller
/// who is not the sender, a cancelled stream; the registry then keeps every
/// record, since a refused top-up stores nothing.
pub proof fn top_up_refusals(
    reg: Seq<StreamView>,
    id: u64,
    sender: Seq<u8>,
    amount: i128,
    now: u64,
)
    ensures
        amount <= 0 ==> top_up_spec(lookup(reg, id), sender, amount, now) == Err::<
            StreamView,
            StreamError,
        >(StreamError::InvalidAmount),
        amount > 0 && lookup(reg, id) is None ==> top_up_spec(lookup(reg, id), sender, amount, now)
            == Err::<StreamView, StreamError>(StreamError::StreamNotFound),
        lookup(reg, id) matches Some(s) ==> (amount > 0 && s.sender != sender ==> top_up_spec(
            lookup(reg, id),
            sender,
            amount,
            now,
        ) == Err::<StreamView, StreamError>(StreamError::Unauthorized)),
        lookup(reg, id) matches Some(s) ==> (amount > 0 && s.sender == sender && !s.is_active
            ==> top_up_spec(lookup(reg, id), sender, amount, now) == Err::<
            StreamView,
            StreamError,
        >(StreamError::StreamInactive)),
{
}

/// Cancellation is final. On a cancelled stream every top-up fails; a claim
/// leaves it cancelled at the same time and pays out of the frozen balance
/// only, which shrinks by at least what was paid; cancelling again changes
/// nothing but the record's activity, which stays off.
pub proof fn cancelled_stream_is_frozen(
    s: StreamView,
    party: Seq<u8>,
    amount: i128,
    now: u64,
)
    requires
        s.wf(),
        !s.is_active,
    ensures
        top_up_spec(Some(s), party, amount, now) is Err,
        withdraw_spec(Some(s), party, now) matches Ok((a, t)) ==> {
            &&& !t.is_active
            &&& t.cancel_time == s.cancel_time
            &&& a + frozen_balance(t) <= frozen_balance(s)
        },
        cancel_spec(Some(s), party, now) matches Some(t) ==> !t.is_active && t.cancel_time
            == s.cancel_time,
{
    withdraw_within_escrow(s, party, now);
    if let Ok((a, t)) = withdraw_spec(Some(s), party, now) {
        let r = s.rate_per_second as int;
        let last = s.last_update_time as int;
        let ct = s.cancel_time as int;
        let n = now as int;
        if n < ct {
            assert(r * (n - last) + r * (ct - n) == r * (ct - last)) by (nonlinear_arith);
        } else {
            assert(frozen_balance(t) == 0);
        }
    }
}

} // verus!
