use stream_contract::{top_up_step, Principal, Stream, StreamContract, StreamError};

fn party(tag: u8) -> Principal {
    Principal::new(vec![b'G', tag, tag, tag])
}

fn stored_stream(sender: &Principal, rate: i128, deposited: i128, active: bool) -> Stream {
    Stream {
        sender: sender.clone(),
        recipient: party(2),
        token_address: party(9),
        rate_per_second: rate,
        deposited_amount: deposited,
        withdrawn_amount: 0,
        start_time: 0,
        last_update_time: 0,
        is_active: active,
        cancel_time: 0,
    }
}

#[test]
fn test_create_stream() {
    let mut c = StreamContract::new();
    let sender = party(1);
    let recipient = party(2);
    let token_address = party(9);
    let amount: i128 = 500;
    let duration: u64 = 100;

    let stream_id = c
        .create_stream(sender.clone(), recipient.clone(), token_address.clone(), amount, duration, 0)
        .unwrap();
    assert_eq!(stream_id, 1);

    let stream = c.get_stream(stream_id).unwrap();
    assert_eq!(stream.sender, sender);
    assert_eq!(stream.recipient, recipient);
    assert_eq!(stream.token_address, token_address);
    assert_eq!(stream.rate_per_second, amount / duration as i128);
    assert_eq!(stream.deposited_amount, amount);
    assert_eq!(stream.withdrawn_amount, 0);
    assert!(stream.is_active);
}

#[test]
fn test_create_multiple_streams() {
    let mut c = StreamContract::new();
    let sender = party(1);
    let token_address = party(9);

    let stream_id1 = c.create_stream(sender.clone(), party(2), token_address.clone(), 500, 100, 0);
    let stream_id2 = c.create_stream(sender.clone(), party(3), token_address.clone(), 500, 100, 0);

    assert_eq!(stream_id1, Ok(1));
    assert_eq!(stream_id2, Ok(2));
}

#[test]
fn test_top_up_stream_success() {
    let sender = party(1);
    let stream = stored_stream(&sender, 100, 10_000, true);

    let top_up_amount = 5_000i128;
    let result = top_up_step(Some(stream), &sender, top_up_amount, 0);
    assert!(result.is_ok());

    let updated_stream = result.unwrap();
    assert_eq!(updated_stream.deposited_amount, 15_000);
}

#[test]
fn test_top_up_stream_invalid_amount() {
    let mut c = StreamContract::new();
    let sender = party(1);
    let stream_id = 1u64;

    let result = c.top_up_stream(&sender, stream_id, -100i128, 0);
    assert_eq!(result, Err(StreamError::InvalidAmount));

    let result = c.top_up_stream(&sender, stream_id, 0i128, 0);
    assert_eq!(result, Err(StreamError::InvalidAmount));
}

#[test]
fn test_top_up_stream_not_found() {
    let mut c = StreamContract::new();
    let sender = party(1);
    let stream_id = 999u64;

    let result = c.top_up_stream(&sender, stream_id, 1_000i128, 0);
    assert_eq!(result, Err(StreamError::StreamNotFound));
}

#[test]
fn test_top_up_stream_unauthorized() {
    let sender = party(1);
    let different_sender = party(5);
    let stream = stored_stream(&sender, 100, 10_000, true);

    let result = top_up_step(Some(stream), &different_sender, 1_000i128, 0);
    assert_eq!(result.err(), Some(StreamError::Unauthorized));
}

#[test]
fn test_top_up_stream_inactive() {
    let sender = party(1);
    let stream = stored_stream(&sender, 100, 10_000, false);

    let result = top_up_step(Some(stream), &sender, 1_000i128, 0);
    assert_eq!(result.err(), Some(StreamError::StreamInactive));
}
