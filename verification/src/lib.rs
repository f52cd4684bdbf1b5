//! A single-process action-dispatch state container with asynchronous
//! update broadcasting: one mutable application model receives actions,
//! mutates itself under a verified reader-writer lock, and emits update
//! events that a background task forwards, in order, to one registered
//! observer.

mod channel;
mod container;
mod registry;
pub mod traits;
mod utils;

pub use channel::create_model_update_channel;
pub use container::{
    apply_actions, lemma_apply_actions_concat, lemma_apply_actions_push, lemma_created_reachable,
    lemma_reachable_step, reachable, ContainerState, ModelPred, RmpModel,
};
pub use registry::{PublishError, ViewModelRegistry};
pub use traits::{AppBuilder, BuildableApp, RmpAppModel, RmpViewModel};
pub use utils::{create_app_builder, forward_next};
