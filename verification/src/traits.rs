//! Traits that application models implement to integrate with the
//! framework, and the builder helper that holds the model-side
//! configuration (data directory plus the receiving half of the update
//! channel).

use vstd::prelude::*;
use std::sync::Arc;
use crossbeam::channel::Receiver;

verus! {

/// A view model: the external callback target that receives updates,
/// one at a time, from the update forwarder.
pub trait RmpViewModel: Send + Sync + 'static {
    /// The type of updates that can be received from the model.
    type UpdateType;

    /// Handle a model update.
    fn model_update(&self, model_update: Self::UpdateType);
}

/// An application model that the framework can create lazily and drive
/// with actions.
///
/// An implementor describes its own behaviour with the two spec
/// functions: `created` says which model a data directory gives rise to,
/// and `stepped` says how one action transforms the model. The
/// executable methods are then bound to exactly those descriptions, and
/// every contract of the container is stated over them.
pub trait RmpAppModel: Sized {
    /// The type of actions that can be dispatched to the model.
    type ActionType;

    /// The type of updates that can be sent from the model to the view.
    type UpdateType;

    /// The model that `create` builds from a given data directory. A
    /// verified implementor overrides this with its own meaning; left
    /// alone it stands for some fixed, unspecified model.
    open spec fn created(data_dir: Seq<char>) -> Self {
        vstd::pervasive::arbitrary()
    }

    /// The model that one action turns `pre` into. A verified
    /// implementor overrides this with its own meaning.
    open spec fn stepped(pre: Self, action: Self::ActionType) -> Self {
        vstd::pervasive::arbitrary()
    }

    /// Create a new instance of the model from a data directory.
    fn create(data_dir: String) -> (r: Self)
        ensures
            r == Self::created(data_dir@),
    ;

    /// Apply one action to the model.
    fn action(&mut self, action: Self::ActionType)
        ensures
            *final(self) == Self::stepped(*old(self), action),
    ;

    /// The receiving half of this model's update channel.
    fn get_update_receiver(&self) -> (r: Arc<Receiver<Self::UpdateType>>);
}

/// Helper for model implementations: carries the update receiver and the
/// data directory that the model was configured with.
#[verifier::reject_recursive_types(U)]
pub struct AppBuilder<T, U> {
    /// The model update receiver.
    pub model_update_rx: Arc<Receiver<U>>,

    /// The data directory.
    pub data_dir: String,

    /// Ties the builder to the model type it serves.
    pub phantom: core::marker::PhantomData<T>,
}

impl<T, U> AppBuilder<T, U> {
    /// Create a new app builder holding a receiver for model updates.
    pub fn new(data_dir: String, model_update_rx: Receiver<U>) -> (r: Self)
        ensures
            r.data_dir == data_dir,
            r.model_update_rx == model_update_rx,
    {
        Self {
            model_update_rx: Arc::new(model_update_rx),
            data_dir,
            phantom: core::marker::PhantomData,
        }
    }
}

/// A model that carries an `AppBuilder` and so can hand out its update
/// receiver through it.
pub trait BuildableApp<U>: RmpAppModel<UpdateType = U> + Sized {
    /// The builder held by the model.
    fn builder(&self) -> &AppBuilder<Self, U>;
}

} // verus!
