//! The bounded signal queue between the timer thread and the render loop: a
//! single-producer single-consumer ring buffer of fixed capacity, a producer
//! that never blocks and drops on overflow, and an opportunistic per-frame
//! drain on the consumer side.

use vstd::prelude::*;

verus! {

/// The ring buffer's producer half (an outside type, opaque here).
#[verifier::external_type_specification]
#[verifier::external_body]
#[verifier::reject_recursive_types(T)]
pub struct ExProducer<T>(rtrb::Producer<T>);

/// The ring buffer's consumer half (an outside type, opaque here).
#[verifier::external_type_specification]
#[verifier::external_body]
#[verifier::reject_recursive_types(T)]
pub struct ExConsumer<T>(rtrb::Consumer<T>);

/// Everything successfully pushed through a producer since its ring buffer
/// was created, oldest first. The consumer on the other thread removes
/// values from the shared buffer but never from this history.
pub uninterp spec fn pushed_history(producer: rtrb::Producer<u64>) -> Seq<u64>;

/// The fixed number of slots the producer's ring buffer was created with.
pub uninterp spec fn producer_capacity(producer: rtrb::Producer<u64>) -> nat;

/// Everything successfully popped through a consumer since its ring buffer
/// was created, oldest first.
pub uninterp spec fn popped_history(consumer: rtrb::Consumer<u64>) -> Seq<u64>;

/// The code pushed through the queue for the one signal the timer thread
/// sends; the queue carries no other payload.
pub const HELLO_CODE: u64 = 0;

/// The one message the timer thread sends: a unit signal without payload.
#[derive(Clone, Copy, PartialEq, Eq, Structural, Debug)]
pub enum Message {
    /// The periodic no-op signal.
    Hello,
}

/// The wire code of a message, as it travels through the queue.
pub fn message_code(message: &Message) -> (code: u64)
    ensures
        message is Hello ==> code == HELLO_CODE,
{
    match message {
        Message::Hello => HELLO_CODE,
    }
}

/// Reads a code drained from the queue back into a message; an unknown code
/// yields nothing.
pub fn decode_message(code: u64) -> (message: Option<Message>)
    ensures
        message is Some <==> code == HELLO_CODE,
        message matches Some(m) ==> m is Hello,
{
    if code == HELLO_CODE {
        Some(Message::Hello)
    } else {
        None
    }
}

/// Relies on rtrb::RingBuffer::new: it returns the two halves of a fresh,
/// empty ring buffer that holds at most `capacity` elements.
#[verifier::external_body]
pub fn new_signal_queue(capacity: usize) -> (halves: (rtrb::Producer<u64>, rtrb::Consumer<u64>))
    ensures
        pushed_history(halves.0) == Seq::<u64>::empty(),
        popped_history(halves.1) == Seq::<u64>::empty(),
        producer_capacity(halves.0) == capacity as nat,
{
    rtrb::RingBuffer::new(capacity)
}

/// Relies on rtrb::Producer::push: a non-blocking send that fails only with
/// `PushError::Full`, handing the rejected value back. The consumer side
/// only ever frees slots, so while fewer values have been pushed than the
/// buffer's capacity a push cannot find the buffer full.
#[verifier::external_body]
fn try_send(producer: &mut rtrb::Producer<u64>, value: u64) -> (sent: bool)
    ensures
        producer_capacity(*final(producer)) == producer_capacity(*old(producer)),
        sent ==> pushed_history(*final(producer)) == pushed_history(*old(producer)).push(value),
        !sent ==> pushed_history(*final(producer)) == pushed_history(*old(producer)),
        pushed_history(*old(producer)).len() < producer_capacity(*old(producer)) ==> sent,
{
    match producer.push(value) {
        Ok(()) => true,
        Err(rtrb::PushError::Full(_)) => false,
    }
}

/// Relies on rtrb::Consumer::pop: a non-blocking receive that fails only
/// with `PopError::Empty`. What it yields depends on the producer thread, so
/// nothing is promised of when a value is there.
#[verifier::external_body]
fn try_receive(consumer: &mut rtrb::Consumer<u64>) -> (received: Option<u64>)
    ensures
        received matches Some(value) ==> popped_history(*final(consumer)) == popped_history(
            *old(consumer),
        ).push(value),
        received is None ==> popped_history(*final(consumer)) == popped_history(*old(consumer)),
{
    match consumer.pop() {
        Ok(value) => Some(value),
        Err(rtrb::PopError::Empty) => None,
    }
}

/// What one producer tick did with its signal.
#[derive(Clone, Copy, PartialEq, Eq, Structural, Debug)]
pub enum SendOutcome {
    /// The signal was placed in the queue.
    Sent,
    /// The queue was full; the signal was dropped, never blocking the
    /// producer.
    Dropped,
}

/// One tick of the timer thread: it attempts a non-blocking send of the
/// periodic signal and reports a drop instead of blocking or retrying when
/// the queue is full. While fewer signals have been sent than the queue's
/// capacity, the send is guaranteed to go through.
pub fn producer_tick(producer: &mut rtrb::Producer<u64>) -> (outcome: SendOutcome)
    ensures
        producer_capacity(*final(producer)) == producer_capacity(*old(producer)),
        outcome is Sent ==> pushed_history(*final(producer)) == pushed_history(
            *old(producer),
        ).push(HELLO_CODE),
        outcome is Dropped ==> pushed_history(*final(producer)) == pushed_history(*old(producer)),
        pushed_history(*old(producer)).len() < producer_capacity(*old(producer))
            ==> outcome is Sent,
{
    let hello = Message::Hello;
    let code = message_code(&hello);
    if try_send(producer, code) {
        SendOutcome::Sent
    } else {
        SendOutcome::Dropped
    }
}

/// The render loop's opportunistic drain: it pops waiting signal codes, at
/// most `max` of them and without ever blocking, and returns them oldest
/// first. Everything returned is exactly what was newly popped.
pub fn drain_signals(consumer: &mut rtrb::Consumer<u64>, max: usize) -> (received: Vec<u64>)
    ensures
        received@.len() <= max,
        popped_history(*final(consumer)) == popped_history(*old(consumer)) + received@,
{
    let mut received: Vec<u64> = Vec::new();
    let mut index: usize = 0;
    while index < max
        invariant
            index <= max,
            received@.len() <= index,
            popped_history(*consumer) == popped_history(*old(consumer)) + received@,
        decreases max - index,
    {
        match try_receive(consumer) {
            Some(code) => {
                received.push(code);
            },
            None => {
                return received;
            },
        }
        index = index + 1;
    }
    received
}

} // verus!
