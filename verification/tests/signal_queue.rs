use triangle_core::queue::{
    decode_message, drain_signals, message_code, new_signal_queue, producer_tick, Message,
    SendOutcome, HELLO_CODE,
};

#[test]
fn full_queue_drops_instead_of_blocking() {
    let (mut producer, _consumer) = new_signal_queue(128);
    for tick in 0..128 {
        assert_eq!(producer_tick(&mut producer), SendOutcome::Sent, "tick {}", tick);
    }
    // The 129th send finds every slot taken: it must come back at once,
    // reporting a drop rather than blocking or panicking.
    assert_eq!(producer_tick(&mut producer), SendOutcome::Dropped);
    // And the producer keeps running unaffected.
    assert_eq!(producer_tick(&mut producer), SendOutcome::Dropped);
}

#[test]
fn drained_slots_can_be_refilled() {
    let (mut producer, mut consumer) = new_signal_queue(2);
    assert_eq!(producer_tick(&mut producer), SendOutcome::Sent);
    assert_eq!(producer_tick(&mut producer), SendOutcome::Sent);
    assert_eq!(producer_tick(&mut producer), SendOutcome::Dropped);

    let received = drain_signals(&mut consumer, 16);
    assert_eq!(received, vec![HELLO_CODE, HELLO_CODE]);

    assert_eq!(producer_tick(&mut producer), SendOutcome::Sent);
}

#[test]
fn drain_is_bounded_and_orderly() {
    let (mut producer, mut consumer) = new_signal_queue(8);
    for _ in 0..5 {
        assert_eq!(producer_tick(&mut producer), SendOutcome::Sent);
    }
    let first = drain_signals(&mut consumer, 3);
    assert_eq!(first, vec![HELLO_CODE, HELLO_CODE, HELLO_CODE]);
    let rest = drain_signals(&mut consumer, 16);
    assert_eq!(rest, vec![HELLO_CODE, HELLO_CODE]);
    let empty = drain_signals(&mut consumer, 16);
    assert!(empty.is_empty());
}

#[test]
fn message_codes_round_trip() {
    let code = message_code(&Message::Hello);
    assert_eq!(code, HELLO_CODE);
    assert_eq!(decode_message(code), Some(Message::Hello));
    assert_eq!(decode_message(HELLO_CODE + 1), None);
}

#[test]
fn zero_capacity_queue_always_drops() {
    let (mut producer, mut consumer) = new_signal_queue(0);
    assert_eq!(producer_tick(&mut producer), SendOutcome::Dropped);
    assert!(drain_signals(&mut consumer, 4).is_empty());
}
