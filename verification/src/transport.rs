//! Lock-free control/event transport between the control side and the audio
//! thread: two bounded single-producer single-consumer ring buffers, one per
//! direction.
//!
//! The ring buffers come from the `rtrb` crate.  Each endpoint is modelled by
//! the append-only history of messages that ever crossed it: `*_pushed` for a
//! producer and `*_popped` for a consumer.  That the consumer pops exactly
//! the messages the producer pushed, in push order, is `rtrb`'s FIFO
//! guarantee and is not restated here; within each endpoint the wrappers say
//! exactly how one call extends its history.

use vstd::prelude::*;

use crate::messages::AudioMessage;
use crate::messages::ControlMessage;

verus! {

#[verifier::external_type_specification]
#[verifier::external_body]
#[verifier::reject_recursive_types(T)]
pub struct ExProducer<T>(rtrb::Producer<T>);

#[verifier::external_type_specification]
#[verifier::external_body]
#[verifier::reject_recursive_types(T)]
pub struct ExConsumer<T>(rtrb::Consumer<T>);

/// All control messages ever pushed into this producer endpoint, oldest first.
pub uninterp spec fn control_pushed(p: rtrb::Producer<ControlMessage>) -> Seq<ControlMessage>;

/// All control messages ever popped from this consumer endpoint, oldest first.
pub uninterp spec fn control_popped(c: rtrb::Consumer<ControlMessage>) -> Seq<ControlMessage>;

/// All audio messages ever pushed into this producer endpoint, oldest first.
pub uninterp spec fn audio_pushed(p: rtrb::Producer<AudioMessage>) -> Seq<AudioMessage>;

/// All audio messages ever popped from this consumer endpoint, oldest first.
pub uninterp spec fn audio_popped(c: rtrb::Consumer<AudioMessage>) -> Seq<AudioMessage>;

/// Relies on rtrb::RingBuffer::new: a fresh bounded SPSC queue over which
/// nothing has been pushed or popped yet.
#[verifier::external_body]
pub fn new_control_ring(capacity: usize) -> (r: (
    rtrb::Producer<ControlMessage>,
    rtrb::Consumer<ControlMessage>,
))
    ensures
        control_pushed(r.0) == Seq::<ControlMessage>::empty(),
        control_popped(r.1) == Seq::<ControlMessage>::empty(),
{
    rtrb::RingBuffer::new(capacity)
}

/// Relies on rtrb::RingBuffer::new: a fresh bounded SPSC queue over which
/// nothing has been pushed or popped yet.
#[verifier::external_body]
pub fn new_audio_ring(capacity: usize) -> (r: (
    rtrb::Producer<AudioMessage>,
    rtrb::Consumer<AudioMessage>,
))
    ensures
        audio_pushed(r.0) == Seq::<AudioMessage>::empty(),
        audio_popped(r.1) == Seq::<AudioMessage>::empty(),
{
    rtrb::RingBuffer::new(capacity)
}

/// Relies on rtrb::Producer::push: the value is enqueued, or handed back
/// unchanged when the queue is currently full.
#[verifier::external_body]
pub fn push_control(p: &mut rtrb::Producer<ControlMessage>, value: ControlMessage) -> (r: Result<
    (),
    ControlMessage,
>)
    ensures
        r is Ok ==> control_pushed(*final(p)) == control_pushed(*old(p)).push(value),
        r matches Err(v) ==> control_pushed(*final(p)) == control_pushed(*old(p)) && v == value,
{
    match p.push(value) {
        Ok(()) => Ok(()),
        Err(rtrb::PushError::Full(v)) => Err(v),
    }
}

/// Relies on rtrb::Consumer::pop: the oldest queued message is moved out, or
/// `None` when the queue is currently empty.
#[verifier::external_body]
pub fn pop_control(c: &mut rtrb::Consumer<ControlMessage>) -> (r: Option<ControlMessage>)
    ensures
        r matches Some(m) ==> control_popped(*final(c)) == control_popped(*old(c)).push(m),
        r is None ==> control_popped(*final(c)) == control_popped(*old(c)),
{
    c.pop().ok()
}

/// Relies on rtrb::Producer::push: the value is enqueued, or handed back
/// unchanged when the queue is currently full.
#[verifier::external_body]
pub fn push_audio(p: &mut rtrb::Producer<AudioMessage>, value: AudioMessage) -> (r: Result<
    (),
    AudioMessage,
>)
    ensures
        r is Ok ==> audio_pushed(*final(p)) == audio_pushed(*old(p)).push(value),
        r matches Err(v) ==> audio_pushed(*final(p)) == audio_pushed(*old(p)) && v == value,
{
    match p.push(value) {
        Ok(()) => Ok(()),
        Err(rtrb::PushError::Full(v)) => Err(v),
    }
}

/// Relies on rtrb::Consumer::pop: the oldest queued message is moved out, or
/// `None` when the queue is currently empty.
#[verifier::external_body]
pub fn pop_audio(c: &mut rtrb::Consumer<AudioMessage>) -> (r: Option<AudioMessage>)
    ensures
        r matches Some(m) ==> audio_popped(*final(c)) == audio_popped(*old(c)).push(m),
        r is None ==> audio_popped(*final(c)) == audio_popped(*old(c)),
{
    c.pop().ok()
}

} // verus!
