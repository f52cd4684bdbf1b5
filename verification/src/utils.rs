//! The update forwarder step and the builder helper.

use vstd::prelude::*;
use crossbeam::channel::Receiver;
use crate::channel::channel_recv;
use crate::traits::{AppBuilder, RmpAppModel, RmpViewModel};

verus! {

/// One turn of the update forwarder: block until the next update
/// arrives and deliver it to the view model, once. Updates come out in
/// the order they were pushed. The result says whether the forwarder
/// must keep going: `false` exactly when the channel reported that
/// every sender is gone and nothing is left, which ends the forwarder
/// without an error. The caller runs this on a dedicated thread, as
/// `while forward_next(&rx, &vm) {}`; it is the only place that blocks.
pub fn forward_next<U, V>(model_update_rx: &Receiver<U>, view_model: &V) -> (r: bool) where
    V: RmpViewModel<UpdateType = U>,
{
    match channel_recv(model_update_rx) {
        Some(update) => {
            view_model.model_update(update);
            true
        },
        None => false,
    }
}

/// Create a new app builder with a receiver for model updates.
pub fn create_app_builder<M, U>(data_dir: String, receiver: Receiver<U>) -> (r: AppBuilder<
    M,
    U,
>) where M: RmpAppModel<UpdateType = U>
    ensures
        r.data_dir == data_dir,
        r.model_update_rx == receiver,
{
    AppBuilder::new(data_dir, receiver)
}

} // verus!
