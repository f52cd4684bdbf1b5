//! The observer registry: holds the sending half of the update channel
//! once a view model binding has been made, exactly once; later bindings
//! are ignored. Publishing before a binding exists is reported
//! explicitly instead of dropping the update silently.

use vstd::prelude::*;
use crossbeam::channel::Sender;
use crate::channel::channel_send;

verus! {

/// Why a published update did not reach the channel. Either way the
/// update is handed back to the caller.
#[derive(Debug)]
pub enum PublishError<U> {
    /// No observer has been registered yet.
    NoObserver(U),

    /// The receiving half of the channel is gone.
    SendFailed(U),
}

/// The registry for the single observer binding of one application.
#[verifier::reject_recursive_types(U)]
pub struct ViewModelRegistry<U> {
    sender: Option<Sender<U>>,
}

impl<U> ViewModelRegistry<U> {
    /// Whether a sending half has been bound already.
    pub closed spec fn is_initialized(self) -> bool {
        self.sender is Some
    }

    /// The sending half that is bound, if any.
    pub closed spec fn sender_spec(self) -> Option<Sender<U>> {
        self.sender
    }

    /// A registry with no observer bound yet.
    pub fn new() -> (r: Self)
        ensures
            !r.is_initialized(),
    {
        ViewModelRegistry { sender: None }
    }

    /// Bind the sending half of the update channel. The first call wins:
    /// once a sender is bound, every later call leaves the registry
    /// exactly as it was.
    pub fn init(&mut self, sender: Sender<U>)
        ensures
            final(self).is_initialized(),
            old(self).is_initialized() ==> *final(self) == *old(self),
            !old(self).is_initialized() ==> final(self).sender_spec() == Some(sender),
    {
        if self.sender.is_none() {
            self.sender = Some(sender);
        }
    }

    /// Whether an observer is bound.
    pub fn has_observer(&self) -> (r: bool)
        ensures
            r == self.is_initialized(),
    {
        self.sender.is_some()
    }

    /// Push one update onto the channel. Without a bound observer the
    /// update comes back as `NoObserver`; with one, it is enqueued
    /// unless the receiving half is gone, in which case it comes back as
    /// `SendFailed`.
    pub fn model_update(&self, update: U) -> (r: Result<(), PublishError<U>>)
        ensures
            !self.is_initialized() ==> r == Err::<(), PublishError<U>>(
                PublishError::NoObserver(update),
            ),
            self.is_initialized() ==> (r is Ok || r == Err::<(), PublishError<U>>(
                PublishError::SendFailed(update),
            )),
    {
        match &self.sender {
            None => Err(PublishError::NoObserver(update)),
            Some(s) => match channel_send(s, update) {
                Ok(()) => Ok(()),
                Err(u) => Err(PublishError::SendFailed(u)),
            },
        }
    }
}

} // verus!
