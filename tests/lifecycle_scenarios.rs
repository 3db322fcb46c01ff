use stream_contract::{
    cancel_step, claimable, next_stream_id, top_up_step, withdraw_step, Principal, Stream,
    StreamContract, StreamError,
};

fn party(tag: u8) -> Principal {
    Principal::new(vec![b'G', tag, tag, tag])
}

fn opened_at_zero() -> (StreamContract, Principal, Principal) {
    let mut c = StreamContract::new();
    let s = party(1);
    let r = party(2);
    let id = c.create_stream(s.clone(), r.clone(), party(9), 1000, 100, 0).unwrap();
    assert_eq!(id, 1);
    (c, s, r)
}

#[test]
fn scenario_create_then_read() {
    let (c, _, _) = opened_at_zero();
    let st = c.get_stream(1).unwrap();
    assert_eq!(st.rate_per_second, 10);
    assert_eq!(st.deposited_amount, 1000);
    assert_eq!(st.withdrawn_amount, 0);
    assert!(st.is_active);
    assert_eq!(st.start_time, 0);
    assert_eq!(st.last_update_time, 0);
}

#[test]
fn scenario_withdraw_after_fifty_seconds() {
    let (mut c, _, r) = opened_at_zero();
    assert_eq!(c.withdraw(&r, 1, 50), Ok(500));
    let st = c.get_stream(1).unwrap();
    assert_eq!(st.withdrawn_amount, 500);
    assert_eq!(st.last_update_time, 50);
}

#[test]
fn scenario_top_up_adds_to_deposit() {
    let (mut c, s, r) = opened_at_zero();
    assert_eq!(c.withdraw(&r, 1, 50), Ok(500));
    assert_eq!(c.top_up_stream(&s, 1, 500, 50), Ok(()));
    assert_eq!(c.get_stream(1).unwrap().deposited_amount, 1500);
}

#[test]
fn scenario_cancel_then_top_up_is_inactive() {
    let (mut c, s, _) = opened_at_zero();
    c.cancel_stream(&s, 1, 60);
    assert!(!c.get_stream(1).unwrap().is_active);
    assert_eq!(c.top_up_stream(&s, 1, 1, 61), Err(StreamError::StreamInactive));
}

#[test]
fn scenario_negative_top_up_changes_nothing() {
    let (mut c, s, _) = opened_at_zero();
    assert_eq!(c.top_up_stream(&s, 1, -5, 10), Err(StreamError::InvalidAmount));
    let st = c.get_stream(1).unwrap();
    assert_eq!(st.deposited_amount, 1000);
    assert_eq!(st.last_update_time, 0);
}

#[test]
fn scenario_unknown_id_reads_none() {
    let (c, _, _) = opened_at_zero();
    assert!(c.get_stream(999).is_none());
    assert!(c.get_stream(0).is_none());
}

#[test]
fn zero_duration_makes_everything_claimable() {
    let mut c = StreamContract::new();
    let r = party(2);
    c.create_stream(party(1), r.clone(), party(9), 750, 0, 5).unwrap();
    assert_eq!(c.get_stream(1).unwrap().rate_per_second, 750);
    assert_eq!(c.withdraw(&r, 1, 6), Ok(750));
    assert_eq!(c.withdraw(&r, 1, 1000), Ok(0));
}

#[test]
fn rate_truncates() {
    let mut c = StreamContract::new();
    c.create_stream(party(1), party(2), party(9), 1000, 300, 0).unwrap();
    assert_eq!(c.get_stream(1).unwrap().rate_per_second, 3);
}

#[test]
fn withdraw_is_capped_by_escrow() {
    let (mut c, _, r) = opened_at_zero();
    assert_eq!(c.withdraw(&r, 1, 5000), Ok(1000));
    let st = c.get_stream(1).unwrap();
    assert_eq!(st.withdrawn_amount, 1000);
    assert!(st.withdrawn_amount <= st.deposited_amount);
    assert_eq!(c.withdraw(&r, 1, 9000), Ok(0));
}

#[test]
fn second_withdraw_at_same_time_pays_nothing() {
    let (mut c, _, r) = opened_at_zero();
    assert_eq!(c.withdraw(&r, 1, 30), Ok(300));
    assert_eq!(c.withdraw(&r, 1, 30), Ok(0));
    assert_eq!(c.get_stream(1).unwrap().withdrawn_amount, 300);
}

#[test]
fn withdraw_refusals() {
    let (mut c, _, _) = opened_at_zero();
    assert_eq!(c.withdraw(&party(7), 1, 10), Err(StreamError::Unauthorized));
    assert_eq!(c.withdraw(&party(2), 3, 10), Err(StreamError::StreamNotFound));
}

#[test]
fn cancelled_stream_pays_only_up_to_cancellation() {
    let (mut c, s, r) = opened_at_zero();
    c.cancel_stream(&s, 1, 40);
    assert_eq!(c.withdraw(&r, 1, 90), Ok(400));
    assert_eq!(c.withdraw(&r, 1, 95), Err(StreamError::StreamInactive));
    let st = c.get_stream(1).unwrap();
    assert_eq!(st.withdrawn_amount, 400);
    assert!(!st.is_active);
}

#[test]
fn cancel_by_another_party_or_unknown_id_is_ignored() {
    let (mut c, s, _) = opened_at_zero();
    c.cancel_stream(&party(7), 1, 10);
    assert!(c.get_stream(1).unwrap().is_active);
    c.cancel_stream(&s, 42, 10);
    assert!(c.get_stream(1).unwrap().is_active);
}

#[test]
fn second_cancel_keeps_first_time() {
    let (mut c, s, r) = opened_at_zero();
    c.cancel_stream(&s, 1, 20);
    c.cancel_stream(&s, 1, 80);
    assert_eq!(c.get_stream(1).unwrap().cancel_time, 20);
    assert_eq!(c.withdraw(&r, 1, 90), Ok(200));
}

#[test]
fn top_up_overflow_is_refused() {
    let s = party(1);
    let st = Stream {
        sender: s.clone(),
        recipient: party(2),
        token_address: party(9),
        rate_per_second: 1,
        deposited_amount: i128::MAX,
        withdrawn_amount: 0,
        start_time: 0,
        last_update_time: 0,
        is_active: true,
        cancel_time: 0,
    };
    assert_eq!(top_up_step(Some(st), &s, 1, 0).err(), Some(StreamError::ArithmeticOverflow));
    assert_eq!(top_up_step(None, &s, 1, 0).err(), Some(StreamError::StreamNotFound));
}

#[test]
fn claimable_formula() {
    assert_eq!(claimable(10, 1000, 0, 0, 50), Ok(500));
    assert_eq!(claimable(10, 1000, 900, 0, 50), Ok(100));
    assert_eq!(claimable(10, 1000, 0, 50, 50), Ok(0));
    assert_eq!(claimable(10, 1000, 0, 60, 50), Ok(0));
    assert_eq!(claimable(i128::MAX, i128::MAX, 0, 0, 2), Err(StreamError::ArithmeticOverflow));
}

#[test]
fn ids_come_from_the_counter() {
    assert_eq!(next_stream_id(None), Ok(1));
    assert_eq!(next_stream_id(Some(41)), Ok(42));
    assert_eq!(next_stream_id(Some(u64::MAX)), Err(StreamError::ArithmeticOverflow));
}

#[test]
fn claim_and_cancel_steps() {
    let s = party(1);
    let r = party(2);
    let st = Stream::new(s.clone(), r.clone(), party(9), 1000, 100, 0);
    let claim = withdraw_step(Some(st.clone()), &r, 25).unwrap();
    assert_eq!(claim.amount, 250);
    assert_eq!(claim.stream.withdrawn_amount, 250);
    assert_eq!(claim.stream.last_update_time, 25);
    let cancelled = cancel_step(Some(claim.stream), &s, 30).unwrap();
    assert!(!cancelled.is_active);
    assert_eq!(cancelled.cancel_time, 30);
    assert!(cancel_step(Some(st), &r, 30).is_none());
    assert!(cancel_step(None, &s, 30).is_none());
}
