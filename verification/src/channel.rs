//! The update channel: an unbounded, ordered, multi-producer queue that
//! carries update events from the model to the observer-forwarding task.
//!
//! The queue itself comes from crossbeam; the declarations and wrappers
//! here are the only places where the library's proofs rely on it.

use vstd::prelude::*;

verus! {

#[verifier::external_type_specification]
#[verifier::external_body]
#[verifier::reject_recursive_types(T)]
pub struct ExSender<T>(crossbeam::channel::Sender<T>);

#[verifier::external_type_specification]
#[verifier::external_body]
#[verifier::reject_recursive_types(T)]
pub struct ExReceiver<T>(crossbeam::channel::Receiver<T>);

/// Create a new channel for model updates.
///
/// The sender should be handed to the view side and the receiver should be
/// used to build the model's configuration.
///
/// Relies on crossbeam::channel::unbounded: the two halves form one queue
/// of unbounded capacity, so a send never blocks, and received values come
/// out in the order they were sent.
#[verifier::external_body]
pub fn create_model_update_channel<T>() -> (r: (
    crossbeam::channel::Sender<T>,
    crossbeam::channel::Receiver<T>,
))
{
    crossbeam::channel::unbounded()
}

/// Relies on crossbeam::channel::Sender::send: on an unbounded channel it
/// never blocks and fails only when every receiver has been dropped, in
/// which case the value is handed back inside the error.
#[verifier::external_body]
pub(crate) fn channel_send<T>(sender: &crossbeam::channel::Sender<T>, value: T) -> (r: Result<
    (),
    T,
>)
    ensures
        r matches Err(v) ==> v == value,
{
    match sender.send(value) {
        Ok(()) => Ok(()),
        Err(e) => Err(e.0),
    }
}

/// Relies on crossbeam::channel::Receiver::recv: it blocks until a value
/// arrives (values arrive in the order they were sent) and reports `None`
/// here only when the channel is empty and every sender has been dropped.
#[verifier::external_body]
pub(crate) fn channel_recv<T>(receiver: &crossbeam::channel::Receiver<T>) -> (r: Option<T>) {
    match receiver.recv() {
        Ok(v) => Some(v),
        Err(_) => None,
    }
}

} // verus!
